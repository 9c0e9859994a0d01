use vstd::prelude::*;
use vstd::arithmetic::div_mod::{lemma_div_is_ordered, lemma_div_by_multiple};
use vstd::arithmetic::mul::lemma_mul_inequality;
use crate::decode::{decode_replay_bytes, decoded_props_of};
use crate::entry::ReplayFile;
use crate::props::Record;
use crate::scanner::FileHandle;
use crate::strutil::{file_stem, file_stem_of};

verus! {

/// One in-flight scan: the ordered paths captured when it started, a cursor
/// that walks them, and the entries produced so far, one per step. The
/// engine advances by exactly one entry per `step` call, so a caller's tick
/// never waits for more than one decode.
#[derive(Debug)]
pub struct BatchJob {
    /// The files to process, fixed at job creation, most recent first.
    pub pending_paths: Vec<FileHandle>,
    /// How many of them have been processed; only ever grows.
    pub cursor: usize,
    /// One outcome per processed path, in processing order; append-only.
    pub completed: Vec<ReplayFile>,
}

/// What a produced entry holds for the file at `path` whose decode came out
/// as `outcome`: the stem of the path as its name, the record on success,
/// the corruption mark on failure.
pub open spec fn entry_matches(e: ReplayFile, path: Seq<char>, outcome: Option<Record>) -> bool {
    &&& e.path@ == path
    &&& e.name@ == file_stem_of(path)
    &&& e.replay == outcome
    &&& e.corrupt == (outcome is None)
}

/// `entry_matches`, with the outcome given by running the decoder on the
/// file's contents; `None` stands for contents that could not be read.
pub open spec fn entry_decode_matches(
    e: ReplayFile,
    path: Seq<char>,
    contents: Option<Vec<u8>>,
) -> bool {
    &&& e.path@ == path
    &&& e.name@ == file_stem_of(path)
    &&& match contents {
        None => e.replay is None && e.corrupt,
        Some(bytes) => match decoded_props_of(bytes@) {
            Some(props) => !e.corrupt && (e.replay matches Some(rec) && rec@ == props),
            None => e.replay is None && e.corrupt,
        },
    }
}

/// How one step changes a job: a finished job is left exactly as it is, an
/// unfinished one gains one completed entry for the path under the cursor
/// and moves the cursor past it. A failed decode is recorded in the entry
/// and isolated there: the job advances regardless of the outcome.
pub open spec fn step_transition(pre: BatchJob, post: BatchJob, contents: Option<Vec<u8>>) -> bool {
    if pre.spec_finished() {
        post == pre
    } else {
        &&& post.pending_paths == pre.pending_paths
        &&& post.cursor == pre.cursor + 1
        &&& post.completed@.len() == pre.completed@.len() + 1
        &&& post.completed@.drop_last() == pre.completed@
        &&& entry_decode_matches(
            post.completed@.last(),
            pre.pending_paths@[pre.cursor as int].path@,
            contents,
        )
    }
}

/// One step of an unfinished job, seen only through the counters: the paths
/// stay, the cursor and the number of completed entries grow by one.
pub open spec fn spec_advances(pre: BatchJob, post: BatchJob) -> bool {
    &&& !pre.spec_finished()
    &&& post.pending_paths == pre.pending_paths
    &&& post.cursor == pre.cursor + 1
    &&& post.completed@.len() == pre.completed@.len() + 1
}

impl BatchJob {
    /// The cursor never runs past the paths, and entries and processed
    /// paths are in one-to-one correspondence.
    pub open spec fn wf(&self) -> bool {
        &&& self.cursor <= self.pending_paths@.len()
        &&& self.completed@.len() == self.cursor
    }

    /// A job is finished when the cursor has walked every path.
    pub open spec fn spec_finished(&self) -> bool {
        self.cursor >= self.pending_paths@.len()
    }

    /// Progress in hundredths: a job over nothing counts as fully done.
    pub open spec fn spec_progress_percent(&self) -> int {
        if self.pending_paths@.len() == 0 {
            100
        } else {
            self.cursor * 100 / self.pending_paths@.len() as int
        }
    }

    /// A fresh job over `paths`: cursor at the start, nothing completed.
    /// An empty path list is born finished and reports full progress, so a
    /// caller checking for completion leaves the processing state at once
    /// and the decode path is never entered.
    pub fn start(paths: Vec<FileHandle>) -> (job: BatchJob)
        ensures
            job.wf(),
            job.pending_paths == paths,
            job.cursor == 0,
            job.completed@ == Seq::<ReplayFile>::empty(),
            paths@.len() == 0 ==> job.spec_finished() && job.spec_progress_percent() == 100,
    {
        let job = BatchJob { pending_paths: paths, cursor: 0, completed: Vec::new() };
        proof {
            assert(job.completed@ =~= Seq::<ReplayFile>::empty());
        }
        job
    }

    /// Whether every path has been processed.
    pub fn is_finished(&self) -> (r: bool)
        ensures
            r == self.spec_finished(),
    {
        self.cursor >= self.pending_paths.len()
    }

    /// The path the next step will process, while there is one.
    pub fn current_path(&self) -> (r: Option<String>)
        ensures
            match r {
                Some(p) => !self.spec_finished() && p@ == self.pending_paths@[
                    self.cursor as int
                ].path@,
                None => self.spec_finished(),
            },
    {
        if self.cursor < self.pending_paths.len() {
            Some(self.pending_paths[self.cursor].path.clone())
        } else {
            None
        }
    }

    /// The cursor and the number of paths, for progress displays.
    pub fn progress_parts(&self) -> (r: (usize, usize))
        ensures
            r.0 == self.cursor,
            r.1 == self.pending_paths@.len(),
    {
        (self.cursor, self.pending_paths.len())
    }

    /// Progress in hundredths, 100 for a job over nothing.
    pub fn progress_percent(&self) -> (r: u8)
        requires
            self.wf(),
        ensures
            r as int == self.spec_progress_percent(),
    {
        let total = self.pending_paths.len();
        if total == 0 {
            100
        } else {
            let scaled: u128 = (self.cursor as u128) * 100;
            proof {
                lemma_mul_inequality(self.cursor as int, total as int, 100);
                lemma_div_is_ordered(self.cursor as int * 100, total as int * 100, total as int);
                lemma_div_by_multiple(100, total as int);
            }
            (scaled / (total as u128)) as u8
        }
    }

    /// Advance by one entry whose decode outcome is already at hand. On a
    /// finished job this is a no-op: nothing is read, nothing changes.
    pub fn step_with_outcome(&mut self, outcome: Option<Record>)
        requires
            old(self).wf(),
        ensures
            final(self).wf(),
            old(self).spec_finished() ==> *final(self) == *old(self),
            !old(self).spec_finished() ==> {
                &&& spec_advances(*old(self), *final(self))
                &&& final(self).completed@.drop_last() == old(self).completed@
                &&& entry_matches(
                    final(self).completed@.last(),
                    old(self).pending_paths@[old(self).cursor as int].path@,
                    outcome,
                )
            },
    {
        if self.cursor >= self.pending_paths.len() {
            return ;
        }
        let path = self.pending_paths[self.cursor].path.clone();
        let name = file_stem(path.as_str()).to_owned();
        let mut e = ReplayFile::new(name, path);
        e.apply_decode_outcome(outcome);
        self.completed.push(e);
        self.cursor = self.cursor + 1;
        proof {
            assert(final(self).completed@.drop_last() =~= old(self).completed@);
        }
    }

    /// The core primitive: process the path under the cursor. The given
    /// contents are what reading that file yielded, `None` when it could not
    /// be read; they are decoded here, and the one resulting entry — corrupt
    /// or not — is appended. On a finished job this is a no-op.
    pub fn step(&mut self, contents: Option<Vec<u8>>)
        requires
            old(self).wf(),
        ensures
            final(self).wf(),
            step_transition(*old(self), *final(self), contents),
    {
        if self.cursor >= self.pending_paths.len() {
            return ;
        }
        match contents {
            None => self.step_with_outcome(None),
            Some(bytes) => {
                let outcome = decode_replay_bytes(bytes.as_slice());
                self.step_with_outcome(outcome);
            },
        }
    }
}

proof fn lemma_chain_counters(chain: Seq<BatchJob>, i: int)
    requires
        0 <= i < chain.len(),
        chain.len() > 0,
        chain[0].cursor == 0,
        chain[0].completed@.len() == 0,
        forall|k: int| 0 <= k < chain.len() - 1 ==> spec_advances(chain[k], #[trigger] chain[k + 1]),
    ensures
        chain[i].pending_paths == chain[0].pending_paths,
        chain[i].cursor == i,
        chain[i].completed@.len() == i,
    decreases i,
{
    if i > 0 {
        lemma_chain_counters(chain, i - 1);
        assert(chain[(i - 1) + 1] == chain[i]);
        assert(spec_advances(chain[i - 1], chain[i]));
    }
}

/// A job started over N paths is finished after exactly N steps: each step
/// of the chain advances an unfinished job by one, and the last job of the
/// chain has processed every path, holds one completed entry per path, and
/// reports itself finished.
pub proof fn lemma_batch_completes(chain: Seq<BatchJob>)
    requires
        chain.len() > 0,
        chain[0].cursor == 0,
        chain[0].completed@.len() == 0,
        chain.len() == chain[0].pending_paths@.len() + 1,
        forall|k: int| 0 <= k < chain.len() - 1 ==> spec_advances(chain[k], #[trigger] chain[k + 1]),
    ensures
        chain.last().cursor == chain[0].pending_paths@.len(),
        chain.last().completed@.len() == chain[0].pending_paths@.len(),
        chain.last().spec_finished(),
{
    lemma_chain_counters(chain, chain.len() - 1);
}

} // verus!
