use vstd::prelude::*;

verus! {

/// Everything that can go wrong in the core, one variant per failure class.
#[derive(Clone, Copy, Debug, PartialEq, Eq, Structural)]
pub enum CoreError {
    /// No audio input device is available.
    DeviceUnavailable,
    /// The negotiated sample encoding cannot be converted.
    UnsupportedFormat,
    /// The model name is not in the catalog.
    UnknownModel,
    /// A download for the model is already running.
    DownloadInProgress,
    /// The model's artifact is already on disk and no refresh was asked for.
    AlreadyDownloaded,
    /// A download broke off on the network side.
    NetworkFailure,
    /// A download broke off on the disk side.
    IoFailure,
    /// The model's artifact is not on disk.
    ModelNotDownloaded,
    /// The inference engine refused to load the artifact.
    ModelLoadFailure,
    /// The model is the active one and cannot be removed.
    ActiveModelBusy,
}

/// What the user reads for each error.
pub open spec fn message_of(error: CoreError) -> Seq<char> {
    match error {
        CoreError::DeviceUnavailable => "No input device available"@,
        CoreError::UnsupportedFormat => "Unsupported sample format"@,
        CoreError::UnknownModel => "Unknown model name"@,
        CoreError::DownloadInProgress => "Download already in progress"@,
        CoreError::AlreadyDownloaded => "Model already downloaded"@,
        CoreError::NetworkFailure => "Network failure"@,
        CoreError::IoFailure => "I/O failure"@,
        CoreError::ModelNotDownloaded => "Model not downloaded."@,
        CoreError::ModelLoadFailure => "Failed to load model"@,
        CoreError::ActiveModelBusy =>
            "Model is currently active. Switch to another model before removing."@,
    }
}

impl CoreError {
    /// The error's message.
    pub fn message(self) -> (r: &'static str)
        ensures
            r@ == message_of(self),
    {
        match self {
            CoreError::DeviceUnavailable => "No input device available",
            CoreError::UnsupportedFormat => "Unsupported sample format",
            CoreError::UnknownModel => "Unknown model name",
            CoreError::DownloadInProgress => "Download already in progress",
            CoreError::AlreadyDownloaded => "Model already downloaded",
            CoreError::NetworkFailure => "Network failure",
            CoreError::IoFailure => "I/O failure",
            CoreError::ModelNotDownloaded => "Model not downloaded.",
            CoreError::ModelLoadFailure => "Failed to load model",
            CoreError::ActiveModelBusy =>
                "Model is currently active. Switch to another model before removing.",
        }
    }
}

} // verus!
