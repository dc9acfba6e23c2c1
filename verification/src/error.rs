//! The ways an export can fail.

use vstd::prelude::*;

verus! {

/// Why an export did not produce its file.
#[derive(Clone, Debug, PartialEq, Eq)]
pub enum ExportError {
    /// The duration of the countdown could not be measured; the text says why.
    ProbeFailed(String),
    /// The countdown is longer than the time given to each clip.
    InvalidDuration,
    /// The encoder could not be launched; the text says why.
    SpawnFailed(String),
    /// The encoder printed a line that is not of the form `key=value`.
    StreamFormatError,
    /// The encoder stopped with a failure status before it reported the end.
    EncoderExitedWithError,
}

/// Mathematical value of an [`ExportError`].
pub enum ExportErrorView {
    ProbeFailed(Seq<char>),
    InvalidDuration,
    SpawnFailed(Seq<char>),
    StreamFormatError,
    EncoderExitedWithError,
}

impl View for ExportError {
    type V = ExportErrorView;

    open spec fn view(&self) -> ExportErrorView {
        match self {
            ExportError::ProbeFailed(why) => ExportErrorView::ProbeFailed(why@),
            ExportError::InvalidDuration => ExportErrorView::InvalidDuration,
            ExportError::SpawnFailed(why) => ExportErrorView::SpawnFailed(why@),
            ExportError::StreamFormatError => ExportErrorView::StreamFormatError,
            ExportError::EncoderExitedWithError => ExportErrorView::EncoderExitedWithError,
        }
    }
}

/// The message shown for an error.
pub open spec fn message_text(e: ExportErrorView) -> Seq<char> {
    match e {
        ExportErrorView::ProbeFailed(why) => why,
        ExportErrorView::InvalidDuration => "Countdown can't be longer than the duration"@,
        ExportErrorView::SpawnFailed(why) => "error launching ffmpeg: "@ + why,
        ExportErrorView::StreamFormatError => "ffmpeg output error"@,
        ExportErrorView::EncoderExitedWithError => "ffmpeg exited with an error"@,
    }
}

impl ExportError {
    /// The message shown for this error.
    pub fn message(&self) -> (text: String)
        ensures
            text@ == message_text(self@),
    {
        match self {
            ExportError::ProbeFailed(why) => why.clone(),
            ExportError::InvalidDuration => String::from_str(
                "Countdown can't be longer than the duration",
            ),
            ExportError::SpawnFailed(why) => {
                let mut text = String::from_str("error launching ffmpeg: ");
                text.append(why.as_str());
                text
            },
            ExportError::StreamFormatError => String::from_str("ffmpeg output error"),
            ExportError::EncoderExitedWithError => String::from_str("ffmpeg exited with an error"),
        }
    }
}

} // verus!
