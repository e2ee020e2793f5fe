//! Typed errors and the conversion of the backend's last-error slot into them.
use crate::sys::{error_code, TiError};
use vstd::prelude::*;

verus! {

/// An error reported by the backend: its status and the text that came with it.
#[derive(Clone, Debug, PartialEq, Eq)]
pub struct TaichiError {
    pub code: TiError,
    pub message: String,
}

pub type TaichiResult<T> = Result<T, TaichiError>;

impl TaichiError {
    pub fn new(code: TiError, message: String) -> (r: Self)
        ensures
            r.code == code,
            r.message@ == message@,
    {
        TaichiError { code, message }
    }

    pub fn code(&self) -> (r: TiError)
        ensures
            r == self.code,
    {
        self.code
    }

    pub fn message(&self) -> (r: &str)
        ensures
            r@ == self.message@,
    {
        self.message.as_str()
    }

    /// An error of the given status whose text is `message`.
    pub fn with_text(code: TiError, message: &str) -> (r: Self)
        ensures
            r.code == code,
            r.message@ == message@,
    {
        TaichiError { code, message: message.to_owned() }
    }

    #[allow(non_snake_case)]
    pub fn Success() -> (r: Self)
        ensures
            r.code == TiError::Success,
            r.message@ == Seq::<char>::empty(),
    {
        TaichiError { code: TiError::Success, message: String::new() }
    }

    #[allow(non_snake_case)]
    pub fn NotSupported(message: &str) -> (r: Self)
        ensures
            r.code == TiError::NotSupported,
            r.message@ == message@,
    {
        Self::with_text(TiError::NotSupported, message)
    }

    #[allow(non_snake_case)]
    pub fn CorruptedData(message: &str) -> (r: Self)
        ensures
            r.code == TiError::CorruptedData,
            r.message@ == message@,
    {
        Self::with_text(TiError::CorruptedData, message)
    }

    #[allow(non_snake_case)]
    pub fn NameNotFound(message: &str) -> (r: Self)
        ensures
            r.code == TiError::NameNotFound,
            r.message@ == message@,
    {
        Self::with_text(TiError::NameNotFound, message)
    }

    #[allow(non_snake_case)]
    pub fn InvalidArgument(message: &str) -> (r: Self)
        ensures
            r.code == TiError::InvalidArgument,
            r.message@ == message@,
    {
        Self::with_text(TiError::InvalidArgument, message)
    }

    #[allow(non_snake_case)]
    pub fn ArgumentNull(message: &str) -> (r: Self)
        ensures
            r.code == TiError::ArgumentNull,
            r.message@ == message@,
    {
        Self::with_text(TiError::ArgumentNull, message)
    }

    #[allow(non_snake_case)]
    pub fn ArgumentOutOfRange(message: &str) -> (r: Self)
        ensures
            r.code == TiError::ArgumentOutOfRange,
            r.message@ == message@,
    {
        Self::with_text(TiError::ArgumentOutOfRange, message)
    }

    #[allow(non_snake_case)]
    pub fn ArgumentNotFound(message: &str) -> (r: Self)
        ensures
            r.code == TiError::ArgumentNotFound,
            r.message@ == message@,
    {
        Self::with_text(TiError::ArgumentNotFound, message)
    }

    #[allow(non_snake_case)]
    pub fn InvalidInterop(message: &str) -> (r: Self)
        ensures
            r.code == TiError::InvalidInterop,
            r.message@ == message@,
    {
        Self::with_text(TiError::InvalidInterop, message)
    }

    #[allow(non_snake_case)]
    pub fn InvalidState(message: &str) -> (r: Self)
        ensures
            r.code == TiError::InvalidState,
            r.message@ == message@,
    {
        Self::with_text(TiError::InvalidState, message)
    }

    #[allow(non_snake_case)]
    pub fn IncompatibleModule(message: &str) -> (r: Self)
        ensures
            r.code == TiError::IncompatibleModule,
            r.message@ == message@,
    {
        Self::with_text(TiError::IncompatibleModule, message)
    }

    #[allow(non_snake_case)]
    pub fn OutOfMemory(message: &str) -> (r: Self)
        ensures
            r.code == TiError::OutOfMemory,
            r.message@ == message@,
    {
        Self::with_text(TiError::OutOfMemory, message)
    }
}

/// Turns a status code and its text into a result: success or the
/// non-fatal positive codes give `Ok`; a negative code gives the error it
/// names, with the text. A negative code this library does not name is
/// reported as InvalidState.
pub fn check_status(code: i32, message: String) -> (r: TaichiResult<()>)
    ensures
        code >= 0 ==> r is Ok,
        code < 0 ==> (r matches Err(e) && e.message@ == message@ && (if exists|k: TiError|
            error_code(k) == code {
            error_code(e.code) == code
        } else {
            e.code == TiError::InvalidState
        })),
{
    if code >= 0 {
        return Ok(());
    }
    match TiError::from_code(code) {
        Some(error) => Err(TaichiError::new(error, message)),
        None => Err(TaichiError::new(TiError::InvalidState, message)),
    }
}

} // verus!
