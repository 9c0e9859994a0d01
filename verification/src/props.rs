use vstd::prelude::*;
use crate::strutil::str_eq;

verus! {

/// A tagged header-property value as the decoder exposes it. The engine
/// reads only floating-point and integer properties and treats every other
/// shape as opaque. A floating-point value is carried by its raw bit
/// pattern so that contracts can speak of it exactly.
#[derive(Clone, Copy, PartialEq, Eq, Structural, Debug)]
pub enum PropValue {
    FloatBits(u32),
    Int(i32),
    Other,
}

/// A decoded recording, reduced to what the engine reads of it: the named
/// header properties, in the order the decoder delivered them.
#[derive(Debug)]
pub struct Record {
    pub properties: Vec<(String, PropValue)>,
}

impl View for Record {
    type V = Seq<(Seq<char>, PropValue)>;

    open spec fn view(&self) -> Seq<(Seq<char>, PropValue)> {
        self.properties@.map_values(|p: (String, PropValue)| (p.0@, p.1))
    }
}

/// The value bound to `key`, taking the last binding when the key repeats
/// (a map built from the pairs would keep the last one).
pub open spec fn lookup_last(props: Seq<(Seq<char>, PropValue)>, key: Seq<char>) -> Option<
    PropValue,
>
    decreases props.len(),
{
    if props.len() == 0 {
        None
    } else if props.last().0 == key {
        Some(props.last().1)
    } else {
        lookup_last(props.drop_last(), key)
    }
}

proof fn lemma_lookup_last_at(props: Seq<(Seq<char>, PropValue)>, key: Seq<char>, k: int)
    requires
        0 <= k < props.len(),
        props[k].0 == key,
        forall|j: int| k < j < props.len() ==> (#[trigger] props[j]).0 != key,
    ensures
        lookup_last(props, key) == Some(props[k].1),
    decreases props.len(),
{
    if props.last().0 == key {
        assert(k == props.len() - 1);
    } else {
        assert(k < props.len() - 1);
        lemma_lookup_last_at(props.drop_last(), key, k);
    }
}

proof fn lemma_lookup_last_absent(props: Seq<(Seq<char>, PropValue)>, key: Seq<char>)
    requires
        forall|j: int| 0 <= j < props.len() ==> (#[trigger] props[j]).0 != key,
    ensures
        lookup_last(props, key) is None,
    decreases props.len(),
{
    if props.len() > 0 {
        lemma_lookup_last_absent(props.drop_last(), key);
    }
}

impl Record {
    /// The value of the property named `key`, the last binding winning.
    pub fn lookup(&self, key: &str) -> (r: Option<PropValue>)
        ensures
            r == lookup_last(self@, key@),
    {
        let n = self.properties.len();
        let mut i: usize = n;
        while i > 0
            invariant
                i <= n,
                n == self.properties@.len(),
                forall|j: int| i <= j < self@.len() ==> (#[trigger] self@[j]).0 != key@,
            decreases i,
        {
            i = i - 1;
            if str_eq(self.properties[i].0.as_str(), key) {
                let v = self.properties[i].1;
                proof {
                    lemma_lookup_last_at(self@, key@, i as int);
                }
                return Some(v);
            }
        }
        proof {
            lemma_lookup_last_absent(self@, key@);
        }
        None
    }
}

/// The bit patterns of floating-point zero: positive and negative zero are
/// the only values a nonzero check must reject.
pub open spec fn is_zero_float_bits(bits: u32) -> bool {
    bits == 0u32 || bits == 0x8000_0000u32
}

/// The two numbers a duration is derived from: the frame count of the
/// `NumFrames` property and the bit pattern of the `RecordFPS` property.
/// The duration itself, frames divided by frames-per-second, is
/// floating-point work left to the presentation layer.
#[derive(Clone, Copy, PartialEq, Eq, Structural, Debug)]
pub struct DurationParts {
    pub num_frames: i32,
    pub fps_bits: u32,
}

/// The derived-duration ingredients of a property list: present exactly when
/// `RecordFPS` is bound to a floating-point value other than zero and
/// `NumFrames` is bound to an integer value.
pub open spec fn spec_duration_parts(props: Seq<(Seq<char>, PropValue)>) -> Option<DurationParts> {
    match (lookup_last(props, "RecordFPS"@), lookup_last(props, "NumFrames"@)) {
        (Some(PropValue::FloatBits(bits)), Some(PropValue::Int(frames))) => if is_zero_float_bits(
            bits,
        ) {
            None
        } else {
            Some(DurationParts { num_frames: frames, fps_bits: bits })
        },
        _ => None,
    }
}

impl Record {
    /// The derived-duration ingredients of this record.
    pub fn duration_parts(&self) -> (r: Option<DurationParts>)
        ensures
            r == spec_duration_parts(self@),
    {
        let fps = self.lookup("RecordFPS");
        let frames = self.lookup("NumFrames");
        match (fps, frames) {
            (Some(PropValue::FloatBits(bits)), Some(PropValue::Int(n))) => {
                if bits == 0 || bits == 0x8000_0000 {
                    None
                } else {
                    Some(DurationParts { num_frames: n, fps_bits: bits })
                }
            },
            _ => None,
        }
    }
}

} // verus!
