use vstd::prelude::*;

verus! {

/// What the command line asks for: a subcommand and an optional directory to
/// read the recording files from. The argument parsing itself lives outside;
/// this is the parsed shape the rest of the program works with.
#[derive(Debug)]
pub struct RustReplay {
    pub subcommand: SubCommands,
    /// The directory to read the replay files from, when one was given.
    pub directory: Option<String>,
}

/// The subcommands: listing the replays in the save directory is the only
/// one. `verbose` asks for metadata beside each name, `markdown` for
/// markdown output in alphabetical order.
#[derive(Clone, Copy, PartialEq, Eq, Structural, Debug)]
pub enum SubCommands {
    List { verbose: bool, markdown: bool },
}

} // verus!
