//! The errors that operations on control groups report.
use vstd::prelude::*;

verus! {

/// The different types of errors that can occur while manipulating control groups.
#[derive(Debug, Clone, Copy, PartialEq, Eq, Structural)]
pub enum ErrorKind {
    /// An error occured while writing to a control group file.
    WriteFailed,
    /// An error occured while trying to read from a control group file.
    ReadFailed,
    /// An error occured while trying to parse a value from a control group file.
    ParseError,
    /// You tried to do something invalid.
    ///
    /// This could be because you tried to set a value in a control group that is not a root
    /// control group.
    InvalidOperation,
    /// The path of the control group was invalid.
    ///
    /// The path of a controller has to stay below the directory of its subsystem. Operations on
    /// a controller whose path has left that directory fail with this error before any file is
    /// touched.
    InvalidPath,
    /// Any other failure. Applying resources reports this kind when a value was written and
    /// the file then read back as something else.
    Other,
}

/// An error of a control group operation: its kind and, where one is known, the text of what
/// caused it.
#[derive(Debug)]
pub struct Error {
    kind: ErrorKind,
    cause: Option<String>,
}

/// The message that goes with each kind of error.
pub open spec fn message(kind: ErrorKind) -> Seq<char> {
    match kind {
        ErrorKind::WriteFailed => "unable to write to a control group file"@,
        ErrorKind::ReadFailed => "unable to read a control group file"@,
        ErrorKind::ParseError => "unable to parse control group file"@,
        ErrorKind::InvalidOperation => "the requested operation is invalid"@,
        ErrorKind::InvalidPath => "the given path is invalid"@,
        ErrorKind::Other => "an unknown error"@,
    }
}

/// The result `r` with its error reduced to the error's kind.
pub open spec fn by_kind<T>(r: Result<T, Error>) -> Result<T, ErrorKind> {
    match r {
        Ok(v) => Ok(v),
        Err(e) => Err(e.kind_spec()),
    }
}

/// Whether the result `r`, if it is an error, is one with no known cause.
pub open spec fn bare<T>(r: Result<T, Error>) -> bool {
    r matches Err(e) ==> e.cause_spec() is None
}

impl Error {
    /// The kind of this error.
    pub closed spec fn kind_spec(&self) -> ErrorKind {
        self.kind
    }

    /// The text of what caused this error, if that is known.
    pub closed spec fn cause_spec(&self) -> Option<Seq<char>> {
        match self.cause {
            Some(c) => Some(c@),
            None => None,
        }
    }

    /// An error of the given kind with no known cause.
    pub fn new(kind: ErrorKind) -> (e: Error)
        ensures
            e.kind_spec() == kind,
            e.cause_spec() is None,
    {
        Error { kind, cause: None }
    }

    /// An error of the given kind that `cause` brought about.
    pub fn with_cause(kind: ErrorKind, cause: String) -> (e: Error)
        ensures
            e.kind_spec() == kind,
            e.cause_spec() == Some(cause@),
    {
        Error { kind, cause: Some(cause) }
    }

    /// The kind of this error.
    pub fn kind(&self) -> (k: &ErrorKind)
        ensures
            *k == self.kind_spec(),
    {
        &self.kind
    }

    /// The text of what caused this error, if that is known.
    pub fn cause(&self) -> (c: Option<&String>)
        ensures
            match c {
                Some(t) => self.cause_spec() == Some(t@),
                None => self.cause_spec() is None,
            },
    {
        match &self.cause {
            Some(t) => Some(t),
            None => None,
        }
    }

    /// The message that describes this error's kind.
    pub fn to_string(&self) -> (s: String)
        ensures
            s@ == message(self.kind_spec()),
    {
        let msg = match self.kind {
            ErrorKind::WriteFailed => "unable to write to a control group file",
            ErrorKind::ReadFailed => "unable to read a control group file",
            ErrorKind::ParseError => "unable to parse control group file",
            ErrorKind::InvalidOperation => "the requested operation is invalid",
            ErrorKind::InvalidPath => "the given path is invalid",
            ErrorKind::Other => "an unknown error",
        };
        String::from_str(msg)
    }
}

} // verus!
