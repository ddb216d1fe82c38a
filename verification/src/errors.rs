//! Why a buffer could not be decoded.

use vstd::prelude::*;

verus! {

/// The reason why decoding stopped. Decoding is all or nothing: the first
/// failure ends it, and nothing of the buffer is returned.
#[derive(Debug, PartialEq, Eq)]
pub enum DecodeError {
    /// The buffer ends before a fixed-size header, or before the end that a
    /// record declares in its length field.
    Truncated,
    /// A record declares a length that does not even cover its own header.
    InvalidLength,
    /// The value of a known kind has the wrong width, or is not terminated
    /// text in UTF-8. `name` is the symbolic name of the kind.
    Malformed { name: &'static str },
    /// Decoding failed inside the value of the kind with the symbolic name
    /// `name`, which holds a nested attribute list or a structure; `cause`
    /// is what went wrong in there.
    Nested { name: &'static str, cause: Box<DecodeError> },
}

impl DecodeError {
    /// `self` as it is reported for what the kind `name` holds.
    pub open spec fn within(self, name: &'static str) -> DecodeError {
        DecodeError::Nested { name, cause: Box::new(self) }
    }

    /// Wraps the error with the name of the kind that it occurred in.
    pub fn nested_in(self, name: &'static str) -> (e: DecodeError)
        ensures
            e == self.within(name),
    {
        DecodeError::Nested { name, cause: Box::new(self) }
    }

    /// The symbolic name of the kind that failed, or that the failure
    /// occurred in. `Truncated` and `InvalidLength` know no kind.
    pub fn name(&self) -> (n: Option<&'static str>)
        ensures
            n == match *self {
                DecodeError::Malformed { name } => Some(name),
                DecodeError::Nested { name, .. } => Some(name),
                _ => None,
            },
    {
        match self {
            DecodeError::Malformed { name } => Some(*name),
            DecodeError::Nested { name, .. } => Some(*name),
            _ => None,
        }
    }

    /// What went wrong inside a nested list or a structure, one level down.
    pub fn cause(&self) -> (c: Option<&DecodeError>)
        ensures
            match *self {
                DecodeError::Nested { cause, .. } => c == Some(&*cause),
                _ => c is None,
            },
    {
        match self {
            DecodeError::Nested { cause, .. } => Some(&**cause),
            _ => None,
        }
    }

    /// Whether the failure means that bytes are missing: it is `Truncated`,
    /// or it occurred inside a kind and what went wrong in there is such a
    /// failure.
    pub open spec fn truncation(self) -> bool
        decreases self,
    {
        match self {
            DecodeError::Truncated => true,
            DecodeError::Nested { cause, .. } => cause.truncation(),
            _ => false,
        }
    }

    /// True for the failures that mean that bytes are missing, at whatever
    /// depth of nesting the bytes ran out.
    pub fn is_truncation(&self) -> (b: bool)
        ensures
            b == self.truncation(),
        decreases *self,
    {
        match self {
            DecodeError::Truncated => true,
            DecodeError::Nested { cause, .. } => cause.is_truncation(),
            _ => false,
        }
    }
}

} // verus!
