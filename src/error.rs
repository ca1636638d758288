use vstd::prelude::*;

verus! {

/// The errors that the layer reports.
#[derive(Debug, PartialEq, Eq)]
pub enum Error {
    /// A configuration string holds a NUL byte, so it cannot be handed to the
    /// engine as a C string.
    InvalidNul,
    /// A parent index at or beyond the commit's parent count.
    ParentOutOfBounds { index: usize, count: usize },
    /// The engine returned a failure code.
    Engine { code: i32, class: i32, message: String },
}

/// Translates an engine return code: negative codes are failures, carrying
/// the engine's error class and message; zero and positive codes succeed.
pub fn check_call(code: i32, class: i32, message: String) -> (r: Result<(), Error>)
    ensures
        r is Ok <==> code >= 0,
        r matches Err(e) ==> (e matches Error::Engine { code: c, class: k, message: m } && c == code
            && k == class && m@ == message@),
{
    if code < 0 {
        Err(Error::Engine { code, class, message })
    } else {
        Ok(())
    }
}

impl Error {
    /// Whether this error came from the engine rather than from the layer.
    pub fn is_engine(&self) -> (r: bool)
        ensures
            r == (self is Engine),
    {
        match self {
            Error::Engine { .. } => true,
            _ => false,
        }
    }
}

} // verus!
