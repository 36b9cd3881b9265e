use vstd::prelude::*;

verus! {

/// Failures of device resolution and of setting up a capture.
#[derive(Debug)]
pub enum AnalyzerError {
    /// Enumerating the interfaces failed.
    DeviceLookupFailed,
    /// No interface has the requested name.
    NoInterfaceFound,
    FailedToGetCaptureHandle,
    FailedToParsePackets,
    /// The capture handle could not be created; holds the underlying cause.
    FailedToCreateCaptureHandle(String),
    /// The capture handle could not be activated; holds the underlying cause.
    FailedToOpenCaptureHandle(String),
    /// Enumerating the interfaces failed; holds the underlying cause.
    FailedToListInterfaces(String),
    /// Looking up the default interface failed; holds the underlying cause.
    FailedToListDefaultInterface(String),
    /// The destination of a capture file is not an existing directory.
    InvalidDestination,
    /// The capture file could not be created; holds the underlying cause.
    FailedToCreateCaptureFile(String),
}

impl AnalyzerError {
    pub open spec fn message_spec(&self) -> Seq<char> {
        match self {
            AnalyzerError::DeviceLookupFailed => "Failed to list interfaces"@,
            AnalyzerError::NoInterfaceFound => "No interface found"@,
            AnalyzerError::FailedToGetCaptureHandle => "Failed to capture device handle"@,
            AnalyzerError::FailedToParsePackets => "Failed to parse packets"@,
            AnalyzerError::FailedToCreateCaptureHandle(_) => "Failed to create capture handle"@,
            AnalyzerError::FailedToOpenCaptureHandle(_) => "Failed to open capture handle"@,
            AnalyzerError::FailedToListInterfaces(_) => "Failed to list interfaces"@,
            AnalyzerError::FailedToListDefaultInterface(_) => "Failed to list default interface"@,
            AnalyzerError::InvalidDestination => "Path does not exist or is not a directory"@,
            AnalyzerError::FailedToCreateCaptureFile(_) => "Failed to create capture file"@,
        }
    }

    /// The description of this error, without the underlying cause.
    pub fn message(&self) -> (r: String)
        ensures
            r@ == self.message_spec(),
    {
        match self {
            AnalyzerError::DeviceLookupFailed => String::from_str("Failed to list interfaces"),
            AnalyzerError::NoInterfaceFound => String::from_str("No interface found"),
            AnalyzerError::FailedToGetCaptureHandle => String::from_str("Failed to capture device handle"),
            AnalyzerError::FailedToParsePackets => String::from_str("Failed to parse packets"),
            AnalyzerError::FailedToCreateCaptureHandle(_) => String::from_str("Failed to create capture handle"),
            AnalyzerError::FailedToOpenCaptureHandle(_) => String::from_str("Failed to open capture handle"),
            AnalyzerError::FailedToListInterfaces(_) => String::from_str("Failed to list interfaces"),
            AnalyzerError::FailedToListDefaultInterface(_) => String::from_str("Failed to list default interface"),
            AnalyzerError::InvalidDestination => String::from_str("Path does not exist or is not a directory"),
            AnalyzerError::FailedToCreateCaptureFile(_) => String::from_str("Failed to create capture file"),
        }
    }
}

} // verus!
