//! Why a shader build is given up, and how that is reported.

use vstd::prelude::*;
use crate::text::joined;

verus! {

/// Why a build was given up.
#[derive(Debug, PartialEq, Eq)]
pub enum BuildError {
    /// The path of a stage file has no extension to tell its kind by.
    MissingExtension { path: String },
    /// The extension of a stage file names no stage kind.
    UnknownExtension { extension: String },
    /// The stage file could not be read.
    UnreadableSource { path: String },
    /// The driver refused to compile a stage; `info_log` is what it said.
    CompileFailed { info_log: String },
    /// The driver refused to link the program; `info_log` is what it said.
    LinkFailed { info_log: String },
}

/// A `BuildError` as contracts see it.
pub enum BuildFailure {
    MissingExtension { path: Seq<char> },
    UnknownExtension { extension: Seq<char> },
    UnreadableSource { path: Seq<char> },
    CompileFailed { info_log: Seq<char> },
    LinkFailed { info_log: Seq<char> },
}

impl BuildFailure {
    /// The text that reports this failure: a fixed heading, then the path,
    /// the extension or the driver's own words, unchanged.
    pub open spec fn message(self) -> Seq<char> {
        match self {
            BuildFailure::MissingExtension { path } => {
                "Failed to read extension of file with path: "@ + path
            },
            BuildFailure::UnknownExtension { extension } => {
                "Failed to parse file extension. "@ + extension
            },
            BuildFailure::UnreadableSource { path } => "Failed to read shader source. "@ + path,
            BuildFailure::CompileFailed { info_log } => {
                "ERROR::Shader Compilation Failed!\n"@ + info_log
            },
            BuildFailure::LinkFailed { info_log } => {
                "ERROR::SHADER::PROGRAM::COMPILATION_FAILED\n"@ + info_log
            },
        }
    }
}

impl View for BuildError {
    type V = BuildFailure;

    open spec fn view(&self) -> BuildFailure {
        match self {
            BuildError::MissingExtension { path } => BuildFailure::MissingExtension { path: path@ },
            BuildError::UnknownExtension { extension } => BuildFailure::UnknownExtension {
                extension: extension@,
            },
            BuildError::UnreadableSource { path } => BuildFailure::UnreadableSource { path: path@ },
            BuildError::CompileFailed { info_log } => BuildFailure::CompileFailed {
                info_log: info_log@,
            },
            BuildError::LinkFailed { info_log } => BuildFailure::LinkFailed { info_log: info_log@ },
        }
    }
}

impl BuildError {
    /// The text that reports this failure.
    pub fn message(&self) -> (text: String)
        ensures
            text@ == self@.message(),
            text@.len() > 0,
    {
        proof {
            lemma_message_not_empty(self@);
        }
        match self {
            BuildError::MissingExtension { path } => joined(
                "Failed to read extension of file with path: ",
                path.as_str(),
            ),
            BuildError::UnknownExtension { extension } => joined(
                "Failed to parse file extension. ",
                extension.as_str(),
            ),
            BuildError::UnreadableSource { path } => joined(
                "Failed to read shader source. ",
                path.as_str(),
            ),
            BuildError::CompileFailed { info_log } => joined(
                "ERROR::Shader Compilation Failed!\n",
                info_log.as_str(),
            ),
            BuildError::LinkFailed { info_log } => joined(
                "ERROR::SHADER::PROGRAM::COMPILATION_FAILED\n",
                info_log.as_str(),
            ),
        }
    }
}

/// Every failure is reported with a text that is not empty, whatever the
/// driver said or did not say.
pub proof fn lemma_message_not_empty(failure: BuildFailure)
    ensures
        failure.message().len() > 0,
{
    reveal_strlit("Failed to read extension of file with path: ");
    reveal_strlit("Failed to parse file extension. ");
    reveal_strlit("Failed to read shader source. ");
    reveal_strlit("ERROR::Shader Compilation Failed!\n");
    reveal_strlit("ERROR::SHADER::PROGRAM::COMPILATION_FAILED\n");
}

} // verus!
