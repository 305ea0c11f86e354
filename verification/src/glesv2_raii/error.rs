//! The error taxonomy and the channel that turns the API's error flag into a
//! result.

use crate::constants::{
    GL_INVALID_ENUM, GL_INVALID_FRAMEBUFFER_OPERATION, GL_INVALID_OPERATION, GL_INVALID_VALUE,
    GL_NO_ERROR, GL_OUT_OF_MEMORY,
};
use crate::gl;
use vstd::prelude::*;
use vstd::string::StringExecFns;

verus! {

/// The kind of error that the graphics API flagged.
#[derive(Clone, Copy, Debug, PartialEq, Eq, Structural)]
pub enum ApiError {
    InvalidEnum,
    InvalidValue,
    InvalidOperation,
    OutOfMemory,
    InvalidFramebufferOperation,
    /// A code that the core API does not define.
    Unrecognized(u32),
}

impl ApiError {
    /// The kind that an error code stands for; the code for "no error"
    /// stands for none.
    pub open spec fn of_code(code: u32) -> Option<ApiError> {
        if code == GL_NO_ERROR {
            None
        } else if code == GL_INVALID_ENUM {
            Some(ApiError::InvalidEnum)
        } else if code == GL_INVALID_VALUE {
            Some(ApiError::InvalidValue)
        } else if code == GL_INVALID_OPERATION {
            Some(ApiError::InvalidOperation)
        } else if code == GL_OUT_OF_MEMORY {
            Some(ApiError::OutOfMemory)
        } else if code == GL_INVALID_FRAMEBUFFER_OPERATION {
            Some(ApiError::InvalidFramebufferOperation)
        } else {
            Some(ApiError::Unrecognized(code))
        }
    }

    /// The error code of this kind.
    pub open spec fn spec_code(self) -> u32 {
        match self {
            ApiError::InvalidEnum => GL_INVALID_ENUM,
            ApiError::InvalidValue => GL_INVALID_VALUE,
            ApiError::InvalidOperation => GL_INVALID_OPERATION,
            ApiError::OutOfMemory => GL_OUT_OF_MEMORY,
            ApiError::InvalidFramebufferOperation => GL_INVALID_FRAMEBUFFER_OPERATION,
            ApiError::Unrecognized(code) => code,
        }
    }

    /// Whether this value is one that `from_code` can return: an unrecognized
    /// code is neither "no error" nor a code with a kind of its own.
    pub open spec fn well_formed(self) -> bool {
        match self {
            ApiError::Unrecognized(code) => Self::of_code(code) == Some(self),
            _ => true,
        }
    }

    /// Maps an error code to its kind.
    pub fn from_code(code: u32) -> (kind: Option<ApiError>)
        ensures
            kind == Self::of_code(code),
    {
        if code == GL_NO_ERROR {
            None
        } else if code == GL_INVALID_ENUM {
            Some(ApiError::InvalidEnum)
        } else if code == GL_INVALID_VALUE {
            Some(ApiError::InvalidValue)
        } else if code == GL_INVALID_OPERATION {
            Some(ApiError::InvalidOperation)
        } else if code == GL_OUT_OF_MEMORY {
            Some(ApiError::OutOfMemory)
        } else if code == GL_INVALID_FRAMEBUFFER_OPERATION {
            Some(ApiError::InvalidFramebufferOperation)
        } else {
            Some(ApiError::Unrecognized(code))
        }
    }

    /// The error code of this kind.
    pub fn code(&self) -> (code: u32)
        ensures
            code == self.spec_code(),
    {
        match *self {
            ApiError::InvalidEnum => GL_INVALID_ENUM,
            ApiError::InvalidValue => GL_INVALID_VALUE,
            ApiError::InvalidOperation => GL_INVALID_OPERATION,
            ApiError::OutOfMemory => GL_OUT_OF_MEMORY,
            ApiError::InvalidFramebufferOperation => GL_INVALID_FRAMEBUFFER_OPERATION,
            ApiError::Unrecognized(code) => code,
        }
    }

    /// Every error code but "no error" has a kind, and the kind keeps the
    /// code.
    pub proof fn lemma_code_round_trip(code: u32)
        ensures
            Self::of_code(code) is None <==> code == GL_NO_ERROR,
            Self::of_code(code) matches Some(kind) ==> kind.spec_code() == code
                && kind.well_formed(),
    {
    }

    /// A well-formed kind is the kind of its own code.
    pub proof fn lemma_kind_round_trip(kind: ApiError)
        requires
            kind.well_formed(),
        ensures
            Self::of_code(kind.spec_code()) == Some(kind),
    {
    }
}

/// What can go wrong in this library.
#[derive(Debug, PartialEq, Eq)]
pub enum Error {
    /// A shader did not compile; the text is the compiler's log.
    Compile(String),
    /// A program did not link; the text is the linker's log.
    Link(String),
    /// A framebuffer is not complete; the value is the status reported.
    IncompleteFramebuffer(u32),
    /// A program has no active uniform of this name.
    MissingUniform(String),
    /// A program has no active attribute of this name.
    MissingAttribute(String),
    /// The graphics API flagged an error.
    GraphicsApi(ApiError),
    /// A descriptor key has neither the shape of a program's nor of a
    /// buffer's, or names a resource of another kind than the one asked for.
    InvalidDescriptor(String),
    /// A descriptor key names a file that was not staged.
    MissingResource(String),
}

/// An [`Error`] with each text as a sequence of characters.
pub enum ErrorView {
    Compile(Seq<char>),
    Link(Seq<char>),
    IncompleteFramebuffer(u32),
    MissingUniform(Seq<char>),
    MissingAttribute(Seq<char>),
    GraphicsApi(ApiError),
    InvalidDescriptor(Seq<char>),
    MissingResource(Seq<char>),
}

impl View for Error {
    type V = ErrorView;

    open spec fn view(&self) -> ErrorView {
        match self {
            Error::Compile(log) => ErrorView::Compile(log@),
            Error::Link(log) => ErrorView::Link(log@),
            Error::IncompleteFramebuffer(status) => ErrorView::IncompleteFramebuffer(*status),
            Error::MissingUniform(name) => ErrorView::MissingUniform(name@),
            Error::MissingAttribute(name) => ErrorView::MissingAttribute(name@),
            Error::GraphicsApi(kind) => ErrorView::GraphicsApi(*kind),
            Error::InvalidDescriptor(key) => ErrorView::InvalidDescriptor(key@),
            Error::MissingResource(path) => ErrorView::MissingResource(path@),
        }
    }
}

/// The text that stands for a log that the API did not supply.
pub open spec fn no_diagnostic() -> Seq<char> {
    "no diagnostic was reported"@
}

/// The text of a failed compilation or link: the log, where there is one and
/// it is not empty.
pub open spec fn diagnostic(log: Option<String>) -> Seq<char> {
    match log {
        Some(text) => if text@.len() > 0 {
            text@
        } else {
            no_diagnostic()
        },
        None => no_diagnostic(),
    }
}

/// The text of a failure is never empty.
pub proof fn lemma_diagnostic_not_empty(log: Option<String>)
    ensures
        diagnostic(log).len() > 0,
{
    reveal_strlit("no diagnostic was reported");
}

/// The text of a failed compilation or link: the log, where there is one and
/// it is not empty.
pub fn diagnostic_text(log: Option<String>) -> (text: String)
    ensures
        text@ == diagnostic(log),
        text@.len() > 0,
{
    proof {
        lemma_diagnostic_not_empty(log);
    }
    match log {
        Some(text) => {
            if text.as_str().is_empty() {
                String::from_str("no diagnostic was reported")
            } else {
                text
            }
        },
        None => String::from_str("no diagnostic was reported"),
    }
}

/// The text of the failure of a shader whose source is longer than the API
/// can be told.
pub open spec fn source_too_long() -> Seq<char> {
    "the source is too long to hand to the compiler"@
}

/// The text of the failure of an overlong source is not empty.
pub proof fn lemma_source_too_long_not_empty()
    ensures
        source_too_long().len() > 0,
{
    reveal_strlit("the source is too long to hand to the compiler");
}

/// The first code in `codes` that is not "no error".
pub open spec fn first_error_code(codes: Seq<u32>) -> Option<u32>
    decreases codes.len(),
{
    if codes.len() == 0 {
        None
    } else if codes[0] != GL_NO_ERROR {
        Some(codes[0])
    } else {
        first_error_code(codes.skip(1))
    }
}

/// Turns the codes read from the error flag into a result: the first code
/// that is not "no error" fails, with its kind.
pub fn first_error(codes: &[u32]) -> (result: Result<(), Error>)
    ensures
        match first_error_code(codes@) {
            None => result is Ok,
            Some(code) => result matches Err(e) && ApiError::of_code(code) matches Some(kind)
                && e@ == ErrorView::GraphicsApi(kind),
        },
{
    let mut i: usize = 0;
    assert(codes@.skip(0) =~= codes@);
    while i < codes.len()
        invariant
            i <= codes.len(),
            first_error_code(codes@) == first_error_code(codes@.skip(i as int)),
        decreases codes.len() - i,
    {
        let code = codes[i];
        match ApiError::from_code(code) {
            Some(kind) => {
                return Err(Error::GraphicsApi(kind));
            },
            None => {
                assert(codes@.skip(i as int).skip(1) =~= codes@.skip(i + 1));
            },
        }
        i += 1;
    }
    Ok(())
}

/// How often `check` reads the error flag at most.
///
/// A context keeps one flag per kind of error, and a read clears the flag it
/// returns, so a conforming context is drained well within this many reads.
pub const FLAG_READS: usize = 16;

/// Reads the error flag until it reads "no error", at most `FLAG_READS`
/// times, and returns the codes it read before that.
fn drain() -> (codes: Vec<u32>)
    ensures
        codes@.len() <= FLAG_READS,
        forall|i: int| 0 <= i < codes@.len() ==> codes@[i] != GL_NO_ERROR,
{
    let mut codes: Vec<u32> = Vec::new();
    while codes.len() < FLAG_READS
        invariant
            codes@.len() <= FLAG_READS,
            forall|i: int| 0 <= i < codes@.len() ==> codes@[i] != GL_NO_ERROR,
        decreases FLAG_READS - codes.len(),
    {
        let code = gl::get_error();
        if code == GL_NO_ERROR {
            return codes;
        }
        codes.push(code);
    }
    codes
}

/// Drains the API's error flag and fails with the first error it held.
///
/// Whether an error is pending is for the graphics context to say; whatever
/// it says, a failure is a [`Error::GraphicsApi`], and the kind is that of the
/// first code read.
pub fn check() -> (result: Result<(), Error>)
    ensures
        result matches Err(e) ==> e@ is GraphicsApi && e@->GraphicsApi_0.well_formed(),
{
    let codes = drain();
    proof {
        if codes@.len() > 0 {
            ApiError::lemma_code_round_trip(codes@[0]);
        }
    }
    first_error(codes.as_slice())
}

} // verus!
