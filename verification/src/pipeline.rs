//! The controller of a capture run. It decides which outside action comes
//! next and where each outcome leads; the caller performs the actions and
//! reports what happened.

use vstd::prelude::*;
use image::DynamicImage;
use crate::error::PipelineError;
use crate::frame::Frame;
use crate::notice::{level_of, text_of, Level, Notice};
use crate::pixel::rgba_of;
use crate::raster::{is_rgba_image, render};

verus! {

/// How a run ended.
#[derive(Debug, Clone, PartialEq, Eq)]
pub enum Outcome {
    /// The image was written.
    Saved,
    /// The camera delivered no frame; nothing was written.
    NoFrame,
    /// A fatal condition ended the run.
    Failed(PipelineError),
}

/// Where a run stands.
#[derive(Debug, Clone, PartialEq, Eq)]
pub enum Stage {
    /// Nothing has been opened yet.
    Idle,
    /// The device is open and not yet streaming.
    SessionOpen,
    /// The stream runs and no frame has been asked for yet.
    Streaming,
    /// A frame was received.
    FrameReady,
    /// The frame was turned into an RGBA image.
    Transformed,
    /// The image file was written.
    Persisted,
    /// The wait for a frame ended without one.
    NoFrame,
    /// A fatal condition arose while the device was open; the device is
    /// still to be released.
    Aborting(PipelineError),
    /// The run is over.
    Stopped(Outcome),
}

/// What the outside world reports back.
#[derive(Debug, Clone, PartialEq, Eq)]
pub enum Event {
    /// The default camera was opened.
    DeviceOpened,
    /// The default camera could not be opened.
    DeviceUnavailable,
    /// The stream was started.
    StreamStarted,
    /// The wait ended with a frame.
    FrameArrived,
    /// The wait ended without a frame.
    NoFrameReceived,
    /// The RGBA image was built from the frame.
    ImageBuilt,
    /// No image could be built: the frame's storage did not match its
    /// dimensions, or a row of it did not fit the machine.
    BufferSizeMismatch,
    /// The image file was written.
    ImageSaved,
    /// Encoding or writing failed, with the underlying message.
    SaveFailed(String),
    /// The device was released.
    DeviceStopped,
}

/// What the caller is to do next.
#[derive(Debug, Clone, Copy, PartialEq, Eq, Structural)]
pub enum Action {
    /// Open the default camera.
    OpenDevice,
    /// Start the stream.
    StartStream,
    /// Block until a frame arrives or the wait gives up.
    WaitForFrame,
    /// Brighten the frame and build its RGBA image.
    BuildImage,
    /// Encode the image and write it under the name of the current time.
    SaveImage,
    /// Log the notice, if any, then stop the device.
    StopDevice(Option<Notice>),
    /// Leave with this exit code.
    Exit(u8),
}

/// Exit code of a run that saved its image or cleanly received no frame.
pub const EXIT_CLEAN: u8 = 0;

/// Exit code of a run that ended on a fatal condition.
pub const EXIT_FATAL: u8 = 1;

/// The exit code an outcome leads to: zero unless the run failed.
pub open spec fn exit_code_of(outcome: Outcome) -> u8 {
    match outcome {
        Outcome::Failed(_) => EXIT_FATAL,
        _ => EXIT_CLEAN,
    }
}

/// The action that is due at a stage.
pub open spec fn pending(stage: Stage) -> Action {
    match stage {
        Stage::Idle => Action::OpenDevice,
        Stage::SessionOpen => Action::StartStream,
        Stage::Streaming => Action::WaitForFrame,
        Stage::FrameReady => Action::BuildImage,
        Stage::Transformed => Action::SaveImage,
        Stage::Persisted => Action::StopDevice(Some(Notice::ImageSaved)),
        Stage::NoFrame => Action::StopDevice(Some(Notice::NoFrame)),
        Stage::Aborting(_) => Action::StopDevice(None),
        Stage::Stopped(outcome) => Action::Exit(exit_code_of(outcome)),
    }
}

/// The stage an event leads to, or `None` where the event has no place at
/// the stage.
pub open spec fn after(stage: Stage, event: Event) -> Option<Stage> {
    match (stage, event) {
        (Stage::Idle, Event::DeviceOpened) => Some(Stage::SessionOpen),
        (Stage::Idle, Event::DeviceUnavailable) => Some(
            Stage::Stopped(Outcome::Failed(PipelineError::DeviceUnavailable)),
        ),
        (Stage::SessionOpen, Event::StreamStarted) => Some(Stage::Streaming),
        (Stage::Streaming, Event::FrameArrived) => Some(Stage::FrameReady),
        (Stage::Streaming, Event::NoFrameReceived) => Some(Stage::NoFrame),
        (Stage::FrameReady, Event::ImageBuilt) => Some(Stage::Transformed),
        (Stage::FrameReady, Event::BufferSizeMismatch) => Some(
            Stage::Aborting(PipelineError::BufferSizeMismatch),
        ),
        (Stage::Transformed, Event::ImageSaved) => Some(Stage::Persisted),
        (Stage::Transformed, Event::SaveFailed(detail)) => Some(
            Stage::Aborting(PipelineError::EncodeOrWriteFailure(detail)),
        ),
        (Stage::Persisted, Event::DeviceStopped) => Some(Stage::Stopped(Outcome::Saved)),
        (Stage::NoFrame, Event::DeviceStopped) => Some(Stage::Stopped(Outcome::NoFrame)),
        (Stage::Aborting(error), Event::DeviceStopped) => Some(
            Stage::Stopped(Outcome::Failed(error)),
        ),
        _ => None,
    }
}

/// What building the image of `frame` reports: the image is built exactly
/// when the frame is renderable, that is when its storage matches its
/// dimensions and its rows fit the machine.
pub open spec fn build_report(frame: Frame) -> Event {
    if frame.is_renderable() {
        Event::ImageBuilt
    } else {
        Event::BufferSizeMismatch
    }
}

/// The exit code an outcome leads to.
pub fn exit_code(outcome: &Outcome) -> (code: u8)
    ensures
        code == exit_code_of(*outcome),
{
    match outcome {
        Outcome::Failed(_) => EXIT_FATAL,
        _ => EXIT_CLEAN,
    }
}

/// The action that is due at `stage`.
pub fn action_at(stage: &Stage) -> (action: Action)
    ensures
        action == pending(*stage),
{
    match stage {
        Stage::Idle => Action::OpenDevice,
        Stage::SessionOpen => Action::StartStream,
        Stage::Streaming => Action::WaitForFrame,
        Stage::FrameReady => Action::BuildImage,
        Stage::Transformed => Action::SaveImage,
        Stage::Persisted => Action::StopDevice(Some(Notice::ImageSaved)),
        Stage::NoFrame => Action::StopDevice(Some(Notice::NoFrame)),
        Stage::Aborting(_) => Action::StopDevice(None),
        Stage::Stopped(outcome) => Action::Exit(exit_code(outcome)),
    }
}

/// Moves `stage` along `event`: `Ok` with the next stage where the event has
/// a place, `Err` with the stage as it was where it has none.
pub fn transition(stage: Stage, event: Event) -> (moved: Result<Stage, Stage>)
    ensures
        match after(stage, event) {
            Some(next) => moved == Ok::<Stage, Stage>(next),
            None => moved == Err::<Stage, Stage>(stage),
        },
{
    match stage {
        Stage::Idle => match event {
            Event::DeviceOpened => Ok(Stage::SessionOpen),
            Event::DeviceUnavailable => Ok(
                Stage::Stopped(Outcome::Failed(PipelineError::DeviceUnavailable)),
            ),
            _ => Err(Stage::Idle),
        },
        Stage::SessionOpen => match event {
            Event::StreamStarted => Ok(Stage::Streaming),
            _ => Err(Stage::SessionOpen),
        },
        Stage::Streaming => match event {
            Event::FrameArrived => Ok(Stage::FrameReady),
            Event::NoFrameReceived => Ok(Stage::NoFrame),
            _ => Err(Stage::Streaming),
        },
        Stage::FrameReady => match event {
            Event::ImageBuilt => Ok(Stage::Transformed),
            Event::BufferSizeMismatch => Ok(Stage::Aborting(PipelineError::BufferSizeMismatch)),
            _ => Err(Stage::FrameReady),
        },
        Stage::Transformed => match event {
            Event::ImageSaved => Ok(Stage::Persisted),
            Event::SaveFailed(detail) => Ok(
                Stage::Aborting(PipelineError::EncodeOrWriteFailure(detail)),
            ),
            _ => Err(Stage::Transformed),
        },
        Stage::Persisted => match event {
            Event::DeviceStopped => Ok(Stage::Stopped(Outcome::Saved)),
            _ => Err(Stage::Persisted),
        },
        Stage::NoFrame => match event {
            Event::DeviceStopped => Ok(Stage::Stopped(Outcome::NoFrame)),
            _ => Err(Stage::NoFrame),
        },
        Stage::Aborting(error) => match event {
            Event::DeviceStopped => Ok(Stage::Stopped(Outcome::Failed(error))),
            _ => Err(Stage::Aborting(error)),
        },
        Stage::Stopped(outcome) => Err(Stage::Stopped(outcome)),
    }
}

/// A capture run. It starts idle and moves only along `after`.
#[derive(Debug)]
pub struct Pipeline {
    stage: Stage,
}

impl View for Pipeline {
    type V = Stage;

    closed spec fn view(&self) -> Stage {
        self.stage
    }
}

impl Pipeline {
    /// A run that has not begun.
    pub fn new() -> (run: Pipeline)
        ensures
            run@ == Stage::Idle,
    {
        Pipeline { stage: Stage::Idle }
    }

    /// Where the run stands.
    pub fn stage(&self) -> (stage: &Stage)
        ensures
            *stage == self@,
    {
        &self.stage
    }

    /// The action that is due now.
    pub fn action(&self) -> (action: Action)
        ensures
            action == pending(self@),
    {
        action_at(&self.stage)
    }

    /// Whether the run is over.
    pub fn is_stopped(&self) -> (over: bool)
        ensures
            over == (self@ is Stopped),
    {
        match &self.stage {
            Stage::Stopped(_) => true,
            _ => false,
        }
    }

    /// Takes in what the outside world reports. Where the event has a place
    /// at the current stage the run moves on and the action that is now due
    /// is returned; otherwise the run stays as it is and nothing is returned.
    pub fn advance(&mut self, event: Event) -> (issued: Option<Action>)
        ensures
            match after(old(self)@, event) {
                Some(next) => final(self)@ == next && issued == Some(pending(next)),
                None => final(self)@ == old(self)@ && issued is None,
            },
    {
        let mut current = Stage::Idle;
        std::mem::swap(&mut self.stage, &mut current);
        match transition(current, event) {
            Ok(next) => {
                let action = action_at(&next);
                self.stage = next;
                Some(action)
            },
            Err(same) => {
                self.stage = same;
                None
            },
        }
    }

    /// Carries out the one action that needs no outside work: with a frame
    /// ready, brightens `frame`, builds its image and moves on as
    /// `build_report` says. The image is handed out when it was built; at any
    /// other stage the run stays as it is and nothing is handed out.
    pub fn build(&mut self, frame: &Frame) -> (built: Option<DynamicImage>)
        ensures
            old(self)@ is FrameReady ==> Some(final(self)@) == after(
                old(self)@,
                build_report(*frame),
            ),
            !(old(self)@ is FrameReady) ==> final(self)@ == old(self)@,
            built is Some <==> old(self)@ is FrameReady && frame.is_renderable(),
            built matches Some(img) ==> is_rgba_image(
                img,
                frame.width,
                frame.height,
                rgba_of(frame.pixels@),
            ),
    {
        match &self.stage {
            Stage::FrameReady => {},
            _ => {
                return None;
            },
        }
        match render(frame) {
            Ok(img) => {
                self.stage = Stage::Transformed;
                Some(img)
            },
            Err(_) => {
                self.stage = Stage::Aborting(PipelineError::BufferSizeMismatch);
                None
            },
        }
    }
}

/// Runs a whole log of reports through a fresh run: the run as it stands
/// after the last of them, and every action it issued on the way, the first
/// being the one due before anything was reported.
pub fn replay(events: Vec<Event>) -> (done: (Pipeline, Vec<Action>))
    ensures
        done.0@ == run_from(Stage::Idle, events@),
        done.1@ == issued_from(Stage::Idle, events@),
{
    let ghost log = events@;
    let mut run = Pipeline::new();
    let mut issued: Vec<Action> = Vec::new();
    issued.push(run.action());
    for event in it: events
        invariant
            it.seq() == log,
            run@ == run_from(Stage::Idle, log.take(it.index())),
            issued@ == issued_from(Stage::Idle, log.take(it.index())),
    {
        proof {
            let taken = log.take(it.index() + 1);
            assert(taken.drop_last() =~= log.take(it.index()));
            assert(taken.last() == event);
        }
        match run.advance(event) {
            Some(action) => {
                issued.push(action);
            },
            None => {},
        }
    }
    proof {
        assert(log.take(log.len() as int) =~= log);
    }
    (run, issued)
}

/// The stage reached from `start` once `events` were reported in order.
/// Events that have no place at the stage they meet change nothing.
pub open spec fn run_from(start: Stage, events: Seq<Event>) -> Stage
    decreases events.len(),
{
    if events.len() == 0 {
        start
    } else {
        let before = run_from(start, events.drop_last());
        match after(before, events.last()) {
            Some(next) => next,
            None => before,
        }
    }
}

/// The actions issued on the way: the one due at `start`, then one for each
/// event that had a place.
pub open spec fn issued_from(start: Stage, events: Seq<Event>) -> Seq<Action>
    decreases events.len(),
{
    if events.len() == 0 {
        seq![pending(start)]
    } else {
        let before = run_from(start, events.drop_last());
        let earlier = issued_from(start, events.drop_last());
        match after(before, events.last()) {
            Some(next) => earlier.push(pending(next)),
            None => earlier,
        }
    }
}

/// The stages stood at on the way: `start`, then the stage each event led to
/// that had a place.
pub open spec fn stages_from(start: Stage, events: Seq<Event>) -> Seq<Stage>
    decreases events.len(),
{
    if events.len() == 0 {
        seq![start]
    } else {
        let before = run_from(start, events.drop_last());
        let earlier = stages_from(start, events.drop_last());
        match after(before, events.last()) {
            Some(next) => earlier.push(next),
            None => earlier,
        }
    }
}

/// Whether a run that began idle can stand at `stage`. The only stages it
/// cannot reach are those that would release a device that never opened.
pub open spec fn reachable(stage: Stage) -> bool {
    !(stage matches Stage::Aborting(PipelineError::DeviceUnavailable))
}

/// Every action issued by the time a run that began idle stands at `stage`,
/// in order.
pub open spec fn script(stage: Stage) -> Seq<Action> {
    let acquire = seq![Action::OpenDevice, Action::StartStream, Action::WaitForFrame];
    let build = acquire.push(Action::BuildImage);
    let save = build.push(Action::SaveImage);
    match stage {
        Stage::Idle => seq![Action::OpenDevice],
        Stage::SessionOpen => seq![Action::OpenDevice, Action::StartStream],
        Stage::Streaming => acquire,
        Stage::FrameReady => build,
        Stage::Transformed => save,
        Stage::Persisted => save.push(Action::StopDevice(Some(Notice::ImageSaved))),
        Stage::NoFrame => acquire.push(Action::StopDevice(Some(Notice::NoFrame))),
        Stage::Aborting(PipelineError::EncodeOrWriteFailure(_)) => save.push(
            Action::StopDevice(None),
        ),
        Stage::Aborting(_) => build.push(Action::StopDevice(None)),
        Stage::Stopped(Outcome::Saved) => save.push(
            Action::StopDevice(Some(Notice::ImageSaved)),
        ).push(Action::Exit(EXIT_CLEAN)),
        Stage::Stopped(Outcome::NoFrame) => acquire.push(
            Action::StopDevice(Some(Notice::NoFrame)),
        ).push(Action::Exit(EXIT_CLEAN)),
        Stage::Stopped(Outcome::Failed(PipelineError::DeviceUnavailable)) => seq![
            Action::OpenDevice,
            Action::Exit(EXIT_FATAL),
        ],
        Stage::Stopped(Outcome::Failed(PipelineError::EncodeOrWriteFailure(_))) => save.push(
            Action::StopDevice(None),
        ).push(Action::Exit(EXIT_FATAL)),
        Stage::Stopped(Outcome::Failed(PipelineError::BufferSizeMismatch)) => build.push(
            Action::StopDevice(None),
        ).push(Action::Exit(EXIT_FATAL)),
    }
}

/// Every stage a run that began idle has stood at by the time it stands at
/// `stage`, in order.
pub open spec fn path(stage: Stage) -> Seq<Stage> {
    let acquire = seq![Stage::Idle, Stage::SessionOpen, Stage::Streaming];
    let ready = acquire.push(Stage::FrameReady);
    let built = ready.push(Stage::Transformed);
    match stage {
        Stage::Idle => seq![Stage::Idle],
        Stage::SessionOpen => seq![Stage::Idle, Stage::SessionOpen],
        Stage::Streaming => acquire,
        Stage::FrameReady => ready,
        Stage::Transformed => built,
        Stage::Persisted => built.push(Stage::Persisted),
        Stage::NoFrame => acquire.push(Stage::NoFrame),
        Stage::Aborting(PipelineError::EncodeOrWriteFailure(_)) => built.push(stage),
        Stage::Aborting(_) => ready.push(stage),
        Stage::Stopped(Outcome::Saved) => built.push(Stage::Persisted).push(stage),
        Stage::Stopped(Outcome::NoFrame) => acquire.push(Stage::NoFrame).push(stage),
        Stage::Stopped(Outcome::Failed(PipelineError::DeviceUnavailable)) => seq![
            Stage::Idle,
            stage,
        ],
        Stage::Stopped(Outcome::Failed(PipelineError::EncodeOrWriteFailure(detail))) => built.push(
            Stage::Aborting(PipelineError::EncodeOrWriteFailure(detail)),
        ).push(stage),
        Stage::Stopped(Outcome::Failed(PipelineError::BufferSizeMismatch)) => ready.push(
            Stage::Aborting(PipelineError::BufferSizeMismatch),
        ).push(stage),
    }
}

/// Upper bound on the events a run at `stage` can still take in.
pub open spec fn steps_left(stage: Stage) -> nat {
    match stage {
        Stage::Idle => 6,
        Stage::SessionOpen => 5,
        Stage::Streaming => 4,
        Stage::FrameReady => 3,
        Stage::Transformed => 2,
        Stage::Persisted => 1,
        Stage::NoFrame => 1,
        Stage::Aborting(_) => 1,
        Stage::Stopped(_) => 0,
    }
}

/// A stopped run takes in no further event.
pub proof fn lemma_stopped_is_terminal(outcome: Outcome, event: Event)
    ensures
        after(Stage::Stopped(outcome), event) is None,
{
}

/// Every event that is taken in brings the run closer to its end, so a run
/// takes in at most six events.
pub proof fn lemma_every_step_nears_the_end(stage: Stage, event: Event)
    requires
        after(stage, event) is Some,
    ensures
        steps_left(after(stage, event).unwrap()) < steps_left(stage),
{
}

/// A run that is not over never waits in vain: some event has a place at its
/// stage. From a stage that releases the device it is `DeviceStopped`, which
/// ends the run.
pub proof fn lemma_never_stuck(stage: Stage)
    requires
        !(stage is Stopped),
    ensures
        exists|event: Event| #[trigger] after(stage, event) is Some,
        pending(stage) is StopDevice ==> after(stage, Event::DeviceStopped) matches Some(
            Stage::Stopped(_),
        ),
{
    match stage {
        Stage::Idle => {
            assert(after(stage, Event::DeviceOpened) is Some);
        },
        Stage::SessionOpen => {
            assert(after(stage, Event::StreamStarted) is Some);
        },
        Stage::Streaming => {
            assert(after(stage, Event::FrameArrived) is Some);
        },
        Stage::FrameReady => {
            assert(after(stage, Event::ImageBuilt) is Some);
        },
        Stage::Transformed => {
            assert(after(stage, Event::ImageSaved) is Some);
        },
        _ => {
            assert(after(stage, Event::DeviceStopped) is Some);
        },
    }
}

/// Whatever is reported to a run that began idle, and in whatever order, the
/// actions it has issued are exactly the script of the stage it stands at.
pub proof fn lemma_run_follows_script(events: Seq<Event>)
    ensures
        reachable(run_from(Stage::Idle, events)),
        issued_from(Stage::Idle, events) == script(run_from(Stage::Idle, events)),
    decreases events.len(),
{
    if events.len() > 0 {
        lemma_run_follows_script(events.drop_last());
        let before = run_from(Stage::Idle, events.drop_last());
        match after(before, events.last()) {
            Some(next) => {
                assert(script(before).push(pending(next)) =~= script(next));
            },
            None => {},
        }
    }
    assert(issued_from(Stage::Idle, events) =~= script(run_from(Stage::Idle, events)));
}

/// Whatever is reported to a run that began idle, and in whatever order, the
/// stages it has stood at are exactly the path of the stage it stands at.
pub proof fn lemma_run_follows_path(events: Seq<Event>)
    ensures
        reachable(run_from(Stage::Idle, events)),
        stages_from(Stage::Idle, events) == path(run_from(Stage::Idle, events)),
    decreases events.len(),
{
    if events.len() > 0 {
        lemma_run_follows_path(events.drop_last());
        let before = run_from(Stage::Idle, events.drop_last());
        match after(before, events.last()) {
            Some(next) => {
                assert(path(before).push(next) =~= path(next));
            },
            None => {},
        }
    }
    assert(stages_from(Stage::Idle, events) =~= path(run_from(Stage::Idle, events)));
}

/// The device is released exactly once for each successful open, on every
/// path: no run asks twice for the stop, and a run that is over has asked for
/// it if and only if the device had opened. The stop is then the last thing
/// asked for before the exit, and the exit carries the code of the outcome.
pub proof fn lemma_device_released_once(events: Seq<Event>)
    ensures
        ({
            let issued = issued_from(Stage::Idle, events);
            let stage = run_from(Stage::Idle, events);
            &&& forall|i: int, j: int|
                0 <= i < issued.len() && 0 <= j < issued.len() && #[trigger] issued[i] is StopDevice
                    && #[trigger] issued[j] is StopDevice ==> i == j
            &&& stage matches Stage::Stopped(outcome) ==> {
                let opened = outcome != Outcome::Failed(PipelineError::DeviceUnavailable);
                &&& opened <==> issued.contains(Action::StartStream)
                &&& opened <==> exists|i: int|
                    0 <= i < issued.len() && #[trigger] issued[i] is StopDevice
                &&& issued.len() >= 2
                &&& issued.last() == Action::Exit(exit_code_of(outcome))
                &&& opened ==> issued[issued.len() - 2] is StopDevice
            }
        }),
{
    lemma_run_follows_script(events);
    let issued = issued_from(Stage::Idle, events);
    let stage = run_from(Stage::Idle, events);
    if let Stage::Stopped(outcome) = stage {
        if outcome != Outcome::Failed(PipelineError::DeviceUnavailable) {
            assert(issued[1] == Action::StartStream);
            assert(issued[issued.len() - 2] is StopDevice);
        }
    }
}

/// Nothing is retried: no run asks for the same action twice. In particular
/// there is one attempt to open the device, one wait for a frame and one
/// attempt to save.
pub proof fn lemma_nothing_is_retried(events: Seq<Event>)
    ensures
        ({
            let issued = issued_from(Stage::Idle, events);
            forall|i: int, j: int|
                0 <= i < j < issued.len() ==> #[trigger] issued[i] != #[trigger] issued[j]
        }),
{
    lemma_run_follows_script(events);
}

/// A file is written only for a frame that was received and transformed:
/// whenever the save was asked for, the wait for a frame and the building of
/// the image were asked for before it, and the stream had been started.
pub proof fn lemma_save_needs_a_frame(events: Seq<Event>)
    ensures
        ({
            let issued = issued_from(Stage::Idle, events);
            forall|i: int|
                0 <= i < issued.len() && #[trigger] issued[i] == Action::SaveImage ==> i == 4
                    && issued[1] == Action::StartStream && issued[2] == Action::WaitForFrame
                    && issued[3] == Action::BuildImage
        }),
{
    lemma_run_follows_script(events);
}

/// A run that receives no frame, whatever else is reported to it and in
/// whatever order:
/// - stands at no stage that holds a frame, an image or a file;
/// - asks for no image to be built and none to be saved, so writes no file;
/// - logs one line, the warning `No frame received.`, as it releases the
///   device, and no line that names a saved file;
/// - leaves with exit code zero.
pub proof fn lemma_no_frame_run(events: Seq<Event>)
    requires
        run_from(Stage::Idle, events) == Stage::Stopped(Outcome::NoFrame),
    ensures
        stages_from(Stage::Idle, events) == seq![
            Stage::Idle,
            Stage::SessionOpen,
            Stage::Streaming,
            Stage::NoFrame,
            Stage::Stopped(Outcome::NoFrame),
        ],
        issued_from(Stage::Idle, events) == seq![
            Action::OpenDevice,
            Action::StartStream,
            Action::WaitForFrame,
            Action::StopDevice(Some(Notice::NoFrame)),
            Action::Exit(EXIT_CLEAN),
        ],
        !issued_from(Stage::Idle, events).contains(Action::BuildImage),
        !issued_from(Stage::Idle, events).contains(Action::SaveImage),
        forall|i: int|
            0 <= i < issued_from(Stage::Idle, events).len() && (#[trigger] issued_from(
                Stage::Idle,
                events,
            )[i]) is StopDevice ==> i == 3,
        level_of(Notice::NoFrame) == Level::Warn,
        forall|file_name: Seq<char>|
            #[trigger] text_of(Notice::NoFrame, file_name) == "No frame received."@,
        issued_from(Stage::Idle, events).last() == Action::Exit(0),
{
    lemma_run_follows_script(events);
    lemma_run_follows_path(events);
    let issued = issued_from(Stage::Idle, events);
    assert(issued =~= seq![
        Action::OpenDevice,
        Action::StartStream,
        Action::WaitForFrame,
        Action::StopDevice(Some(Notice::NoFrame)),
        Action::Exit(EXIT_CLEAN),
    ]);
    assert(stages_from(Stage::Idle, events) =~= seq![
        Stage::Idle,
        Stage::SessionOpen,
        Stage::Streaming,
        Stage::NoFrame,
        Stage::Stopped(Outcome::NoFrame),
    ]);
}

/// A run whose device cannot be opened, whatever else is reported to it and
/// in whatever order:
/// - goes from idle straight to its end, so never holds an open session and
///   never streams;
/// - asks for the open once and then for the exit, so never for the stream,
///   the wait, an image, a save or a stop, and logs no line;
/// - leaves with a non-zero exit code;
/// - takes in nothing that is reported afterwards.
pub proof fn lemma_open_failure_run(events: Seq<Event>)
    requires
        run_from(Stage::Idle, events) == Stage::Stopped(
            Outcome::Failed(PipelineError::DeviceUnavailable),
        ),
    ensures
        stages_from(Stage::Idle, events) == seq![
            Stage::Idle,
            Stage::Stopped(Outcome::Failed(PipelineError::DeviceUnavailable)),
        ],
        issued_from(Stage::Idle, events) == seq![Action::OpenDevice, Action::Exit(EXIT_FATAL)],
        !issued_from(Stage::Idle, events).contains(Action::StartStream),
        !issued_from(Stage::Idle, events).contains(Action::WaitForFrame),
        !issued_from(Stage::Idle, events).contains(Action::BuildImage),
        !issued_from(Stage::Idle, events).contains(Action::SaveImage),
        forall|i: int|
            0 <= i < issued_from(Stage::Idle, events).len() ==> !((#[trigger] issued_from(
                Stage::Idle,
                events,
            )[i]) is StopDevice),
        issued_from(Stage::Idle, events).last() == Action::Exit(1),
        forall|event: Event| #[trigger] after(run_from(Stage::Idle, events), event) is None,
{
    lemma_run_follows_script(events);
    lemma_run_follows_path(events);
    let issued = issued_from(Stage::Idle, events);
    assert(issued =~= seq![Action::OpenDevice, Action::Exit(EXIT_FATAL)]);
    assert(stages_from(Stage::Idle, events) =~= seq![
        Stage::Idle,
        Stage::Stopped(Outcome::Failed(PipelineError::DeviceUnavailable)),
    ]);
}

} // verus!
