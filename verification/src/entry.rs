use vstd::prelude::*;
use crate::decode::{decode_replay_bytes, decoded_props_of};
use crate::props::{DurationParts, Record, spec_duration_parts};

verus! {

/// Why an attempt to decode one file yielded no record.
#[derive(Clone, Copy, PartialEq, Eq, Structural, Debug)]
pub enum DecodeError {
    /// The file's contents could not be read.
    Unreadable,
    /// The decoder did not accept the file's contents.
    Corrupt,
}

/// The outcome of attempting to decode one recording file: its identity, the
/// decoded record when decoding succeeded, and a corruption flag. A failure
/// is recorded here and never escalates: one bad file must not abort a batch.
#[derive(Debug)]
pub struct ReplayFile {
    /// Identity within a scan: the file name without its extension.
    pub name: String,
    /// Where the file lives.
    pub path: String,
    /// The decoded record, present exactly when a decode attempt succeeded.
    pub replay: Option<Record>,
    /// True exactly when a decode attempt failed, for unreadable contents
    /// as much as for contents the decoder rejected.
    pub corrupt: bool,
}

impl ReplayFile {
    /// A fresh entry for the file at `path`: no decode attempted yet.
    pub fn new(name: String, path: String) -> (r: ReplayFile)
        ensures
            r.name == name,
            r.path == path,
            r.replay is None,
            !r.corrupt,
    {
        ReplayFile { name, path, replay: None, corrupt: false }
    }

    /// Record the outcome of a decode attempt: keep the record and clear the
    /// corruption flag on success, set the flag and hold no record on failure.
    pub fn apply_decode_outcome(&mut self, outcome: Option<Record>)
        ensures
            final(self).name == old(self).name,
            final(self).path == old(self).path,
            final(self).replay == outcome,
            final(self).corrupt == (outcome is None),
    {
        match outcome {
            Some(rec) => {
                self.replay = Some(rec);
                self.corrupt = false;
            },
            None => {
                self.replay = None;
                self.corrupt = true;
            },
        }
    }

    /// Attempt to decode the file's contents, `None` standing for contents
    /// that could not be read. Exactly the bytes that the decoder accepts
    /// yield a record; everything else marks the entry corrupt.
    pub fn parse_replay(&mut self, contents: Option<Vec<u8>>) -> (r: Result<(), DecodeError>)
        ensures
            final(self).name == old(self).name,
            final(self).path == old(self).path,
            match contents {
                None => final(self).corrupt && final(self).replay is None && r == Err::<
                    (),
                    DecodeError,
                >(DecodeError::Unreadable),
                Some(bytes) => match decoded_props_of(bytes@) {
                    Some(props) => {
                        &&& !final(self).corrupt
                        &&& r is Ok
                        &&& final(self).replay matches Some(rec) && rec@ == props
                    },
                    None => final(self).corrupt && final(self).replay is None && r == Err::<
                        (),
                        DecodeError,
                    >(DecodeError::Corrupt),
                },
            },
    {
        match contents {
            None => {
                self.apply_decode_outcome(None);
                Err(DecodeError::Unreadable)
            },
            Some(bytes) => {
                let outcome = decode_replay_bytes(bytes.as_slice());
                let ok = outcome.is_some();
                self.apply_decode_outcome(outcome);
                if ok {
                    Ok(())
                } else {
                    Err(DecodeError::Corrupt)
                }
            },
        }
    }

    /// Whether the last decode attempt failed.
    pub fn is_corrupt(&self) -> (r: bool)
        ensures
            r == self.corrupt,
    {
        self.corrupt
    }

    /// The decoded record, when one is held.
    pub fn get_replay(&self) -> (r: Option<&Record>)
        ensures
            match r {
                Some(rec) => self.replay == Some(*rec),
                None => self.replay is None,
            },
    {
        self.replay.as_ref()
    }

    /// What the entry's duration is derived from, when the record is present
    /// and exposes the two properties in the expected shape.
    pub open spec fn spec_duration_parts_of_entry(&self) -> Option<DurationParts> {
        match self.replay {
            Some(rec) => spec_duration_parts(rec@),
            None => None,
        }
    }

    /// The derived-duration ingredients of this entry. Missing or mistyped
    /// properties yield an absent result, never an error.
    pub fn get_duration_parts(&self) -> (r: Option<DurationParts>)
        ensures
            r == self.spec_duration_parts_of_entry(),
    {
        match &self.replay {
            Some(rec) => rec.duration_parts(),
            None => None,
        }
    }
}

} // verus!
