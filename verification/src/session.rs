use vstd::prelude::*;
use crate::entry::ReplayFile;
use crate::processor::{BatchJob, step_transition};
use crate::scanner::FileHandle;

verus! {

/// The three states a session can be in. `Browsing` shows the accumulated
/// results, `Parsing` means a batch job is in flight, `Quitting` ends the
/// session loop.
#[derive(Clone, Copy, PartialEq, Eq, Structural, Debug)]
pub enum AppState {
    Browsing,
    Parsing,
    Quitting,
}

/// The two commands a session recognizes, every other input being ignored.
/// Which keys map to which command is the input layer's business.
#[derive(Clone, Copy, PartialEq, Eq, Structural, Debug)]
pub enum InputCommand {
    /// Start a scan, or restart one that is in flight.
    StartScan,
    /// End the session.
    Quit,
    /// Anything else; ignored.
    Other,
}

/// The session: the visible result list, the batch job (meaningful while
/// `Parsing`), and the state. Owned by one tick loop; nothing here is
/// shared or locked.
#[derive(Debug)]
pub struct App {
    /// The entries of the last finished scan, what browsing shows.
    pub replay_files: Vec<ReplayFile>,
    /// The in-flight scan; cleared once its entries are promoted.
    pub job: BatchJob,
    pub state: AppState,
}

impl App {
    /// While parsing, the job's books are straight.
    pub open spec fn wf(&self) -> bool {
        self.state is Parsing ==> self.job.wf()
    }
}

impl Default for App {
    /// A fresh session: browsing an empty result list, no job in flight.
    fn default() -> (app: App)
        ensures
            app.wf(),
            app.state is Browsing,
            app.replay_files@.len() == 0,
            app.job.pending_paths@.len() == 0,
            app.job.cursor == 0,
            app.job.completed@.len() == 0,
    {
        App {
            replay_files: Vec::new(),
            job: BatchJob { pending_paths: Vec::new(), cursor: 0, completed: Vec::new() },
            state: AppState::Browsing,
        }
    }
}

impl App {
    /// Leave the session loop. The result list and the job are untouched.
    pub fn quit(&mut self)
        ensures
            final(self).state is Quitting,
            final(self).replay_files == old(self).replay_files,
            final(self).job == old(self).job,
    {
        self.state = AppState::Quitting;
    }

    /// Begin a scan over a fresh listing. Re-entrant: called while a job is
    /// in flight, it discards that job's partial results — nothing of them
    /// is merged — and the visible result list stays what it was, until the
    /// new job finishes.
    pub fn initialize_parse(&mut self, paths: Vec<FileHandle>)
        ensures
            final(self).wf(),
            final(self).state is Parsing,
            final(self).replay_files == old(self).replay_files,
            final(self).job.pending_paths == paths,
            final(self).job.cursor == 0,
            final(self).job.completed@.len() == 0,
    {
        self.job = BatchJob::start(paths);
        self.state = AppState::Parsing;
    }

    /// Promote the finished job's entries into the visible result list —
    /// replacing it — and go back to browsing with the job cleared.
    pub fn finalize_parse(&mut self)
        ensures
            final(self).wf(),
            final(self).state is Browsing,
            final(self).replay_files == old(self).job.completed,
            final(self).job.pending_paths@.len() == 0,
            final(self).job.cursor == 0,
            final(self).job.completed@.len() == 0,
    {
        let mut done: Vec<ReplayFile> = Vec::new();
        core::mem::swap(&mut done, &mut self.job.completed);
        self.replay_files = done;
        self.job.pending_paths = Vec::new();
        self.job.cursor = 0;
        self.state = AppState::Browsing;
    }

    /// One tick's worth of parsing: while a job is in flight, either advance
    /// it by exactly one entry — `contents` being what reading the current
    /// path yielded — or, when it has finished, promote its entries and
    /// return to browsing. In any other state this does nothing.
    pub fn step_parse(&mut self, contents: Option<Vec<u8>>)
        requires
            old(self).wf(),
        ensures
            final(self).wf(),
            !(old(self).state is Parsing) ==> *final(self) == *old(self),
            old(self).state is Parsing && old(self).job.spec_finished() ==> {
                &&& final(self).state is Browsing
                &&& final(self).replay_files == old(self).job.completed
                &&& final(self).job.completed@.len() == 0
            },
            old(self).state is Parsing && !old(self).job.spec_finished() ==> {
                &&& final(self).state is Parsing
                &&& final(self).replay_files == old(self).replay_files
                &&& step_transition(old(self).job, final(self).job, contents)
            },
    {
        match self.state {
            AppState::Parsing => {
                if self.job.is_finished() {
                    self.finalize_parse();
                } else {
                    self.job.step(contents);
                }
            },
            _ => {},
        }
    }

    /// Map one input command to its transition: `Quit` leaves the loop,
    /// `StartScan` asks the caller for a fresh directory listing — the
    /// result says whether one is wanted — and anything else is ignored.
    pub fn handle_command(&mut self, cmd: InputCommand) -> (rescan: bool)
        ensures
            rescan == (cmd is StartScan),
            cmd is Quit ==> final(self).state is Quitting && final(self).replay_files == old(
                self,
            ).replay_files && final(self).job == old(self).job,
            !(cmd is Quit) ==> *final(self) == *old(self),
    {
        match cmd {
            InputCommand::StartScan => true,
            InputCommand::Quit => {
                self.quit();
                false
            },
            InputCommand::Other => false,
        }
    }

    /// The path the next parsing tick will read, when there is one.
    pub fn current_parse_path(&self) -> (r: Option<String>)
        ensures
            match r {
                Some(p) => self.state is Parsing && !self.job.spec_finished() && p@
                    == self.job.pending_paths@[self.job.cursor as int].path@,
                None => !(self.state is Parsing) || self.job.spec_finished(),
            },
    {
        match self.state {
            AppState::Parsing => self.job.current_path(),
            _ => None,
        }
    }

    pub fn is_quitting(&self) -> (r: bool)
        ensures
            r == (self.state is Quitting),
    {
        matches!(self.state, AppState::Quitting)
    }

    pub fn is_parsing(&self) -> (r: bool)
        ensures
            r == (self.state is Parsing),
    {
        matches!(self.state, AppState::Parsing)
    }
}

} // verus!
