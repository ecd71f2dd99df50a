//! Event-stream records and the faults that stop a record from being framed.
use vstd::prelude::*;

verus! {

/// One decoded event-stream record.
#[derive(Clone, Debug, PartialEq, Eq)]
pub struct Frame {
    /// The data payload of the record.
    pub data: String,
    /// The event name, if the record carried one.
    pub event: Option<String>,
    /// The record id, if the record carried one.
    pub id: Option<String>,
    /// The reconnection hint in milliseconds, if the record carried one.
    pub retry: Option<u64>,
}

impl Frame {
    /// A record that carries only a data payload.
    pub fn new(data: String) -> (r: Frame)
        ensures
            r.data@ == data@,
            r.event is None,
            r.id is None,
            r.retry is None,
    {
        Frame { data, event: None, id: None, retry: None }
    }
}

/// Why one item of the transport stream could not be framed into a record.
#[derive(Clone, Debug, PartialEq, Eq)]
pub enum FramingError {
    /// The stream ended in the middle of a record.
    Truncated,
    /// The bytes of the item were not valid UTF-8.
    InvalidEncoding,
    /// The item broke the event-stream syntax; the detail says how.
    Malformed(String),
}

/// The description of a framing fault.
pub open spec fn framing_message(e: FramingError) -> Seq<char> {
    match e {
        FramingError::Truncated => "Truncated"@,
        FramingError::InvalidEncoding => "InvalidEncoding"@,
        FramingError::Malformed(detail) => "Malformed: "@ + detail@,
    }
}

impl FramingError {
    /// The description of this fault.
    pub fn message(&self) -> (r: String)
        ensures
            r@ == framing_message(*self),
    {
        match self {
            FramingError::Truncated => String::from_str("Truncated"),
            FramingError::InvalidEncoding => String::from_str("InvalidEncoding"),
            FramingError::Malformed(detail) => {
                String::from_str("Malformed: ").concat(detail.as_str())
            },
        }
    }
}

} // verus!
