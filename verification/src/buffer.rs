use vstd::prelude::*;

verus! {

use vstd::utf8::{valid_utf8, decode_utf8};

/// The ways opening or reading a file can fail at the OS level.
#[derive(Clone, Copy, Debug, PartialEq, Eq, Structural)]
pub enum IoError {
    NotFound,
    PermissionDenied,
    Other,
}

/// A failure while creating a buffer: the file could not be opened or read,
/// or its bytes were not valid UTF-8.
#[derive(Clone, Copy, Debug, PartialEq, Eq, Structural)]
pub enum EditorError {
    IOError(IoError),
    DecodeError,
}

/// One unit of editable text, optionally backed by a file on disk.
pub struct Buffer {
    /// The path of the file this buffer is for, if applicable.
    pub path: Option<String>,

    /// The contents of this buffer.
    pub contents: String,
}

impl Buffer {
    /// The text this buffer holds.
    pub open spec fn text(self) -> Seq<char> {
        self.contents@
    }

    /// The path this buffer was loaded from, if any.
    pub open spec fn source_path(self) -> Option<Seq<char>> {
        match self.path {
            Some(p) => Some(p@),
            None => None,
        }
    }

    /// The title of this buffer: its source path, or "untitled" for a buffer
    /// that no file backs.
    pub open spec fn spec_button_name(self) -> Seq<char> {
        match self.path {
            Some(p) => p@,
            None => "untitled"@,
        }
    }

    /// Try to make a new buffer for the file at `path`, from the outcome of
    /// reading that file. A failed read is passed through as an I/O error;
    /// bytes that are not valid UTF-8 are a decode error; otherwise the
    /// buffer holds the decoded text and remembers its path.
    pub fn from_path(path: String, read: Result<Vec<u8>, IoError>) -> (r: Result<Buffer, EditorError>)
        ensures
            read matches Err(k) ==> r == Err::<Buffer, EditorError>(EditorError::IOError(k)),
            read matches Ok(bytes) ==> (if valid_utf8(bytes@) {
                &&& r is Ok
                &&& r->Ok_0.source_path() == Some(path@)
                &&& r->Ok_0.text() == decode_utf8(bytes@)
            } else {
                r == Err::<Buffer, EditorError>(EditorError::DecodeError)
            }),
    {
        match read {
            Err(kind) => Err(EditorError::IOError(kind)),
            Ok(bytes) => match string_from_utf8(bytes) {
                Some(contents) => Ok(Buffer { path: Some(path), contents }),
                None => Err(EditorError::DecodeError),
            },
        }
    }

    /// Create a new empty buffer.
    pub fn empty() -> (b: Buffer)
        ensures
            b.source_path() is None,
            b.text() == Seq::<char>::empty(),
    {
        Buffer { path: None, contents: String::new() }
    }

    /// Get the title of this buffer.
    pub fn button_name(&self) -> (name: &str)
        ensures
            name@ == self.spec_button_name(),
    {
        match &self.path {
            Some(path) => path.as_str(),
            None => "untitled",
        }
    }
}

/// Relies on `String::from_utf8`: it succeeds exactly on input that is valid
/// UTF-8, and then returns the text those bytes encode.
#[verifier::external_body]
fn string_from_utf8(bytes: Vec<u8>) -> (r: Option<String>)
    ensures
        r is Some <==> valid_utf8(bytes@),
        r matches Some(s) ==> s@ == decode_utf8(bytes@),
{
    match String::from_utf8(bytes) {
        Ok(s) => Some(s),
        Err(_) => None,
    }
}

} // verus!
