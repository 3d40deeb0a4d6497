//! Decode failures.
//!
//! Every decoder reports the first failure it meets and abandons the rest of
//! its subtree; the variants classify what went wrong and carry the text of
//! the offending tag, token or context.

use vstd::prelude::*;

verus! {

/// Why a decode failed. The payload names the offending tag, token or value.
#[derive(Debug, Clone, PartialEq, Eq)]
pub enum DecodeError {
    /// The node's head symbol is not the tag the caller expected.
    TagMismatch(String),
    /// A list has the wrong number of children for its tag.
    ArityMismatch(String),
    /// An atom could not be coerced to the required primitive.
    TypeMismatch(String),
    /// A recognized container held a child outside the closed set understood here.
    UnknownVariant(String),
    /// An entity-specific structural violation, such as a module without a name.
    StructuralError(String),
}

/// Mathematical value of a [`DecodeError`].
pub enum ErrV {
    TagMismatch(Seq<char>),
    ArityMismatch(Seq<char>),
    TypeMismatch(Seq<char>),
    UnknownVariant(Seq<char>),
    StructuralError(Seq<char>),
}

impl View for DecodeError {
    type V = ErrV;

    open spec fn view(&self) -> ErrV {
        match self {
            DecodeError::TagMismatch(m) => ErrV::TagMismatch(m@),
            DecodeError::ArityMismatch(m) => ErrV::ArityMismatch(m@),
            DecodeError::TypeMismatch(m) => ErrV::TypeMismatch(m@),
            DecodeError::UnknownVariant(m) => ErrV::UnknownVariant(m@),
            DecodeError::StructuralError(m) => ErrV::StructuralError(m@),
        }
    }
}

impl DecodeError {
    /// The text carried by the error, for reporting.
    pub fn context(&self) -> (r: &String)
        ensures
            self@ == ErrV::TagMismatch(r@) || self@ == ErrV::ArityMismatch(r@)
                || self@ == ErrV::TypeMismatch(r@) || self@ == ErrV::UnknownVariant(r@)
                || self@ == ErrV::StructuralError(r@),
    {
        match self {
            DecodeError::TagMismatch(m) => m,
            DecodeError::ArityMismatch(m) => m,
            DecodeError::TypeMismatch(m) => m,
            DecodeError::UnknownVariant(m) => m,
            DecodeError::StructuralError(m) => m,
        }
    }
}

/// A decode result and its mathematical value: the payload's view on success,
/// the error's view on failure.
pub open spec fn res_view<T: View>(r: Result<T, DecodeError>) -> Result<T::V, ErrV> {
    match r {
        Ok(t) => Ok(t@),
        Err(e) => Err(e@),
    }
}

} // verus!
