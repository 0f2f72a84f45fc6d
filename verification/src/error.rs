use vstd::prelude::*;

verus! {

/// The ways in which the library refuses an input or gives up on a run.
#[derive(Clone, Copy, Debug, PartialEq, Eq, Structural)]
pub enum SyncError {
    /// A path holds bytes that are no Unicode text.
    NonUnicodePath,
    /// The date pattern cannot be used to format a timestamp.
    BadDateFormat,
    /// An external tool is not on the search path.
    ToolMissing,
    /// An external tool ended with a non-zero exit status.
    ToolFailed,
    /// The delta-transfer tool reported that a batched update was not applied.
    BatchRejected,
    /// A directory or a file could not be read, made or written.
    Io,
    /// The change record could not be put into the form in which it is
    /// written out. The run's snapshot is complete when this happens.
    Serialization,
    /// An event arrived that does not answer the action that was handed out.
    UnexpectedEvent,
}

impl SyncError {
    /// What the error means, in words.
    pub fn message(&self) -> (text: &'static str)
        ensures
            text@ == self.spec_message(),
    {
        match self {
            SyncError::NonUnicodePath => "Path::to_str() failed, non-unicode symbols in path?",
            SyncError::BadDateFormat => "the date format cannot render a timestamp",
            SyncError::ToolMissing => "external tool not found in PATH",
            SyncError::ToolFailed => "external tool exited with an error",
            SyncError::BatchRejected => "rsync failure",
            SyncError::Io => "file system operation failed",
            SyncError::Serialization => "serializing change list",
            SyncError::UnexpectedEvent => "event does not answer the pending action",
        }
    }

    pub open spec fn spec_message(&self) -> Seq<char> {
        match self {
            SyncError::NonUnicodePath => "Path::to_str() failed, non-unicode symbols in path?"@,
            SyncError::BadDateFormat => "the date format cannot render a timestamp"@,
            SyncError::ToolMissing => "external tool not found in PATH"@,
            SyncError::ToolFailed => "external tool exited with an error"@,
            SyncError::BatchRejected => "rsync failure"@,
            SyncError::Io => "file system operation failed"@,
            SyncError::Serialization => "serializing change list"@,
            SyncError::UnexpectedEvent => "event does not answer the pending action"@,
        }
    }
}

} // verus!
