//! The response envelope exchanged between components and across the API.
use vstd::prelude::*;

verus! {

/// A response envelope: a decoded value, or the description of an error.
#[derive(Clone, Debug, PartialEq, Eq)]
pub enum Annotated<R> {
    /// A successfully decoded value.
    Data(R),
    /// The description of what went wrong for this item.
    Error(String),
}

impl<R> Annotated<R> {
    /// An envelope that carries a value.
    pub fn from_data(value: R) -> (r: Annotated<R>)
        ensures
            r == Annotated::Data(value),
    {
        Annotated::Data(value)
    }

    /// An envelope that carries only an error description.
    pub fn from_error(error: String) -> (r: Annotated<R>)
        ensures
            r == Annotated::<R>::Error(error),
    {
        Annotated::Error(error)
    }

    /// Whether the envelope carries a value.
    pub fn is_data(&self) -> (r: bool)
        ensures
            r == (*self is Data),
    {
        match self {
            Annotated::Data(_) => true,
            Annotated::Error(_) => false,
        }
    }

    /// Whether the envelope carries an error description.
    pub fn is_error(&self) -> (r: bool)
        ensures
            r == (*self is Error),
    {
        match self {
            Annotated::Data(_) => false,
            Annotated::Error(_) => true,
        }
    }

    /// The value carried, if any.
    pub fn data(&self) -> (r: Option<&R>)
        ensures
            *self is Data ==> r == Some(&self->Data_0),
            *self is Error ==> r is None,
    {
        match self {
            Annotated::Data(v) => Some(v),
            Annotated::Error(_) => None,
        }
    }

    /// The error description carried, if any.
    pub fn error(&self) -> (r: Option<&String>)
        ensures
            *self is Error ==> r == Some(&self->Error_0),
            *self is Data ==> r is None,
    {
        match self {
            Annotated::Data(_) => None,
            Annotated::Error(e) => Some(e),
        }
    }
}

} // verus!
