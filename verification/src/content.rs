//! The result of one decryption attempt: the decrypted record, or a
//! failure with a fixed human-readable message.

use vstd::prelude::*;
use vstd::string::StringExecFns;

verus! {

/// A decrypted resdesc file: the source file's base name paired with the
/// decrypted textual contents, exactly as the external tool wrote them.
pub struct Content {
    /// The base name of the source file (and of the tool's output file).
    pub filename: String,
    /// The decrypted contents, verbatim.
    pub content: String,
}

/// Why a decryption attempt failed. Each variant carries, or maps to, one
/// fixed human-readable message; nothing is retried.
pub enum DecryptError {
    /// The temporary output directory could not be created.
    TempDirFailed,
    /// The external tool's process could not be spawned.
    SpawnFailed,
    /// The tool put this non-empty text on its diagnostic stream, or the
    /// shell observed a process-level error carrying it.
    ToolReported(String),
    /// The source path has no usable final component to name the output
    /// file by.
    MissingBaseName,
    /// The expected output file was absent or unreadable after the tool
    /// finished cleanly.
    OutputUnreadable,
}

impl DecryptError {
    /// The human-readable message for this failure: a fixed sentence per
    /// condition, or the tool's own text when the tool reported the error.
    pub fn message(&self) -> (m: String)
        ensures
            self is TempDirFailed ==> m@ == "Unable to create temporary directory!"@,
            self is SpawnFailed ==> m@ == "Unable to spawn ttarchext process!"@,
            self matches DecryptError::ToolReported(t) ==> m@ == t@,
            self is MissingBaseName ==> m@ == "Unable to get filename from source path!"@,
            self is OutputUnreadable ==> m@ == "Unable to read file!"@,
    {
        match self {
            DecryptError::TempDirFailed => String::from_str("Unable to create temporary directory!"),
            DecryptError::SpawnFailed => String::from_str("Unable to spawn ttarchext process!"),
            DecryptError::ToolReported(t) => t.clone(),
            DecryptError::MissingBaseName => String::from_str("Unable to get filename from source path!"),
            DecryptError::OutputUnreadable => String::from_str("Unable to read file!"),
        }
    }
}

} // verus!
