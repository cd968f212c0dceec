use vstd::prelude::*;

verus! {

/// Failures of staging a case or of driving the pipeline.
#[derive(Debug, Clone, PartialEq, Eq)]
pub enum Error {
    /// The environment failed (a file could not be copied, a process could not
    /// be spawned); carries the underlying description.
    IoError(String),
    /// The compiled program failed when run: stdout and stderr.
    ObjectError(String, String),
    /// The linker rejected the emitted code: stdout and stderr.
    LinkError(String, String),
    /// The compiler under test exited with a failure: stdout and stderr.
    RuntimeError(String, String),
    /// The compiler executable has an unsupported extension.
    InvalidPath,
    Unknown,
}

/// The short human-readable text of each error kind.
pub open spec fn error_text(e: Error) -> Seq<char> {
    match e {
        Error::IoError(_) => "io error"@,
        Error::ObjectError(_, _) => "object error"@,
        Error::LinkError(_, _) => "link error"@,
        Error::RuntimeError(_, _) => "runtime error"@,
        Error::InvalidPath => "wrong path"@,
        Error::Unknown => "unknown data store error"@,
    }
}

impl Error {
    /// The short text describing this error's kind.
    pub fn message(&self) -> (r: String)
        ensures
            r@ == error_text(*self),
    {
        match self {
            Error::IoError(_) => String::from_str("io error"),
            Error::ObjectError(_, _) => String::from_str("object error"),
            Error::LinkError(_, _) => String::from_str("link error"),
            Error::RuntimeError(_, _) => String::from_str("runtime error"),
            Error::InvalidPath => String::from_str("wrong path"),
            Error::Unknown => String::from_str("unknown data store error"),
        }
    }
}

} // verus!
