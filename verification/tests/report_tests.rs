use brighten::error::PipelineError;
use brighten::notice::{Level, Notice};

#[test]
fn saved_image_is_reported_as_information_naming_the_file() {
    let notice = Notice::ImageSaved;
    assert_eq!(notice.level(), Level::Info);
    assert_eq!(
        notice.text("03-07-2024_09:05:02_brightened.png"),
        "Image saved to '03-07-2024_09:05:02_brightened.png'"
    );
    assert_eq!(notice.text(""), "Image saved to ''");
}

#[test]
fn missing_frame_is_reported_as_a_warning() {
    let notice = Notice::NoFrame;
    assert_eq!(notice.level(), Level::Warn);
    assert_eq!(notice.text("ignored.png"), "No frame received.");
    assert_eq!(notice.text(""), "No frame received.");
}

#[test]
fn encode_failure_embeds_the_underlying_message() {
    let error = PipelineError::EncodeOrWriteFailure(String::from("Permission denied (os error 13)"));
    assert_eq!(error.message(), "Image error: Permission denied (os error 13)");
    assert_eq!(PipelineError::EncodeOrWriteFailure(String::new()).message(), "Image error: ");
}

#[test]
fn each_failure_has_its_own_message() {
    assert_eq!(
        PipelineError::DeviceUnavailable.message(),
        "Camera error: default device unavailable"
    );
    assert_eq!(
        PipelineError::BufferSizeMismatch.message(),
        "Buffer error: size does not match the frame dimensions"
    );
    assert_ne!(
        PipelineError::DeviceUnavailable.message(),
        PipelineError::BufferSizeMismatch.message()
    );
}
