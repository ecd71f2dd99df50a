//! The adapter from a stream of framed records to a stream of envelopes.
//!
//! Each item is converted on its own: a framing fault or a payload that
//! cannot be decoded becomes an error envelope at the same position, and the
//! items around it are untouched.
use vstd::prelude::*;
use crate::annotated::Annotated;
use crate::frame::{Frame, FramingError, framing_message};

verus! {

/// The envelope emitted for the outcome of decoding a record's payload: the
/// envelope itself on success, an error envelope with the failure's
/// description otherwise.
pub open spec fn decoded_envelope<R>(decoded: Result<Annotated<R>, String>) -> Annotated<R> {
    match decoded {
        Ok(envelope) => envelope,
        Err(message) => Annotated::Error(message),
    }
}

/// `out` is an envelope that the pipeline may emit for `item`, where
/// `decode` turns a record's payload into an envelope.
pub open spec fn converts_to<R, F: Fn(&Frame) -> Result<Annotated<R>, String>>(
    decode: F,
    item: Result<Frame, FramingError>,
    out: Annotated<R>,
) -> bool {
    match item {
        Ok(frame) => exists|d: Result<Annotated<R>, String>|
            #[trigger] decode.ensures((&frame,), d) && out == decoded_envelope(d),
        Err(e) => out matches Annotated::Error(m) && m@ == framing_message(e),
    }
}

/// `output` is, item by item and in the same order, a conversion of `input`.
pub open spec fn stream_converted<R, F: Fn(&Frame) -> Result<Annotated<R>, String>>(
    decode: F,
    input: Seq<Result<Frame, FramingError>>,
    output: Seq<Annotated<R>>,
) -> bool {
    &&& output.len() == input.len()
    &&& forall|i: int| 0 <= i < input.len() ==> converts_to(decode, #[trigger] input[i], output[i])
}

/// Output item `i` depends on input item `i` alone: a whole stream is
/// converted exactly when each item, taken as a stream of its own, is
/// converted to the envelope at the same position.
pub proof fn lemma_converted_itemwise<R, F: Fn(&Frame) -> Result<Annotated<R>, String>>(
    decode: F,
    input: Seq<Result<Frame, FramingError>>,
    output: Seq<Annotated<R>>,
)
    ensures
        stream_converted(decode, input, output) <==> {
            &&& output.len() == input.len()
            &&& forall|i: int|
                0 <= i < input.len() ==> stream_converted(
                    decode,
                    seq![#[trigger] input[i]],
                    seq![output[i]],
                )
        },
{
    if output.len() == input.len() {
        assert forall|i: int| 0 <= i < input.len() implies stream_converted(
            decode,
            seq![#[trigger] input[i]],
            seq![output[i]],
        ) == converts_to(decode, input[i], output[i]) by {
            let a = seq![input[i]];
            let b = seq![output[i]];
            assert(a[0] == input[i]);
            assert(b[0] == output[i]);
        }
    }
}

/// Converting two streams one after the other yields the conversion of the
/// two streams joined: nothing is dropped, merged or reordered at the seam.
pub proof fn lemma_converted_concat<R, F: Fn(&Frame) -> Result<Annotated<R>, String>>(
    decode: F,
    input1: Seq<Result<Frame, FramingError>>,
    output1: Seq<Annotated<R>>,
    input2: Seq<Result<Frame, FramingError>>,
    output2: Seq<Annotated<R>>,
)
    requires
        stream_converted(decode, input1, output1),
        stream_converted(decode, input2, output2),
    ensures
        stream_converted(decode, input1 + input2, output1 + output2),
{
    let input = input1 + input2;
    let output = output1 + output2;
    assert forall|i: int| 0 <= i < input.len() implies converts_to(
        decode,
        #[trigger] input[i],
        output[i],
    ) by {
        if i >= input1.len() {
            assert(input[i] == input2[i - input1.len()]);
            assert(output[i] == output2[i - input1.len()]);
        }
    }
}

/// A fault at position `i` is isolated: putting any item, a framing fault or
/// a record whose payload fails to decode included, at position `i` of a
/// converted stream changes the output at position `i` alone, and the
/// stream goes on past it.
pub proof fn lemma_failure_isolation<R, F: Fn(&Frame) -> Result<Annotated<R>, String>>(
    decode: F,
    input: Seq<Result<Frame, FramingError>>,
    output: Seq<Annotated<R>>,
    i: int,
    item: Result<Frame, FramingError>,
    out: Annotated<R>,
)
    requires
        stream_converted(decode, input, output),
        0 <= i < input.len(),
        converts_to(decode, item, out),
    ensures
        stream_converted(decode, input.update(i, item), output.update(i, out)),
        forall|j: int|
            0 <= j < input.len() && j != i ==> #[trigger] output.update(i, out)[j] == output[j],
{
}

/// A framing fault, or a record whose payload never decodes, yields an
/// error envelope; a framing fault's envelope carries its description.
pub proof fn lemma_failure_gives_error<R, F: Fn(&Frame) -> Result<Annotated<R>, String>>(
    decode: F,
    item: Result<Frame, FramingError>,
    out: Annotated<R>,
)
    requires
        converts_to(decode, item, out),
        item is Err || forall|d: Result<Annotated<R>, String>|
            #[trigger] decode.ensures((&item->Ok_0,), d) ==> d is Err,
    ensures
        out is Error,
        item matches Err(e) ==> out->Error_0@ == framing_message(e),
{
}

/// The envelope for the outcome of decoding a record's payload.
pub fn envelope_from_decoded<R>(decoded: Result<Annotated<R>, String>) -> (r: Annotated<R>)
    ensures
        r == decoded_envelope(decoded),
{
    match decoded {
        Ok(envelope) => envelope,
        Err(message) => Annotated::from_error(message),
    }
}

/// Converts one item of the transport stream into an envelope.
pub fn convert_message<R, F: Fn(&Frame) -> Result<Annotated<R>, String>>(
    message: &Result<Frame, FramingError>,
    decode: &F,
) -> (r: Annotated<R>)
    requires
        forall|f: &Frame| #[trigger] decode.requires((f,)),
    ensures
        converts_to(*decode, *message, r),
{
    match message {
        Ok(frame) => {
            let decoded = decode(frame);
            envelope_from_decoded(decoded)
        },
        Err(e) => Annotated::from_error(e.message()),
    }
}

/// Converts a stream of framed records into a stream of envelopes, one
/// envelope per item and in the same order.
pub fn convert_sse_stream<R, F: Fn(&Frame) -> Result<Annotated<R>, String>>(
    stream: Vec<Result<Frame, FramingError>>,
    decode: F,
) -> (r: Vec<Annotated<R>>)
    requires
        forall|f: &Frame| #[trigger] decode.requires((f,)),
    ensures
        r@.len() == stream@.len(),
        stream_converted(decode, stream@, r@),
{
    let mut out: Vec<Annotated<R>> = Vec::new();
    let mut i: usize = 0;
    while i < stream.len()
        invariant
            i <= stream@.len(),
            forall|f: &Frame| #[trigger] decode.requires((f,)),
            out@.len() == i,
            forall|j: int| 0 <= j < i ==> converts_to(decode, #[trigger] stream@[j], out@[j]),
        decreases stream@.len() - i,
    {
        let envelope = convert_message(&stream[i], &decode);
        out.push(envelope);
        i = i + 1;
    }
    out
}

} // verus!
