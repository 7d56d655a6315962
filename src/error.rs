//! The errors that an interceptor reports.

use vstd::prelude::*;

verus! {

/// What went wrong, in the terms of gRPC status codes.
#[derive(Clone, Copy, Debug, PartialEq, Eq, Structural)]
pub enum ErrorKind {
    /// A credential cannot be sent as metadata.
    InvalidArgument,
    /// The shared interceptor list could not be locked.
    Internal,
    /// The request holds too many metadata names to take another.
    ResourceExhausted,
}

/// The error of an interceptor: a kind and a diagnostic message.
#[derive(Clone, Debug)]
pub struct InterceptError {
    pub kind: ErrorKind,
    pub message: String,
}

impl View for InterceptError {
    type V = (ErrorKind, Seq<char>);

    open spec fn view(&self) -> (ErrorKind, Seq<char>) {
        (self.kind, self.message@)
    }
}

impl InterceptError {
    pub fn invalid_argument(message: &str) -> (r: Self)
        ensures
            r@ == (ErrorKind::InvalidArgument, message@),
    {
        InterceptError { kind: ErrorKind::InvalidArgument, message: String::from_str(message) }
    }

    pub fn resource_exhausted(message: &str) -> (r: Self)
        ensures
            r@ == (ErrorKind::ResourceExhausted, message@),
    {
        InterceptError { kind: ErrorKind::ResourceExhausted, message: String::from_str(message) }
    }

    pub fn internal(message: String) -> (r: Self)
        ensures
            r@ == (ErrorKind::Internal, message@),
    {
        InterceptError { kind: ErrorKind::Internal, message }
    }
}

} // verus!
