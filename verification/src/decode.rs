use vstd::prelude::*;
use crate::props::{PropValue, Record};

verus! {

/// The outcome of running the recording decoder on a byte string: the named
/// header properties when the bytes form a well-formed recording, nothing
/// otherwise. The decoder is deterministic, so the outcome is a function of
/// the bytes alone; what exactly it accepts is the decoder's own business
/// and is not restated here.
pub uninterp spec fn decoded_props_of(bytes: Seq<u8>) -> Option<Seq<(Seq<char>, PropValue)>>;

/// Relies on boxcars: `ParserBuilder::parse` (with network data required, as
/// `must_parse_network_data` sets) reads nothing but the given bytes and
/// yields a `Replay` whose `properties` are the recording's named header
/// properties, or a `ParseError` for bytes it does not accept. Floating-point
/// property values are carried over as their bit patterns, integer values as
/// themselves, every other shape as `Other`.
#[verifier::external_body]
pub(crate) fn decode_replay_bytes(bytes: &[u8]) -> (r: Option<Record>)
    ensures
        match r {
            Some(rec) => decoded_props_of(bytes@) == Some(rec@),
            None => decoded_props_of(bytes@) is None,
        },
{
    let parsed = boxcars::ParserBuilder::new(bytes).must_parse_network_data().parse();
    parsed.ok().map(|replay| Record {
        properties: replay
            .properties
            .into_iter()
            .map(|(name, value)| (name, match value {
                boxcars::HeaderProp::Float(fps) => PropValue::FloatBits(fps.to_bits()),
                boxcars::HeaderProp::Int(frames) => PropValue::Int(frames),
                _ => PropValue::Other,
            }))
            .collect(),
    })
}

} // verus!
