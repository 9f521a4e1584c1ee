use vstd::prelude::*;

verus! {

/// The command line: one subcommand.
#[derive(Clone, Copy, Debug, PartialEq, Eq, Structural)]
pub struct Cli {
    pub command: Commands,
}

/// What the command line asks for.
#[derive(Clone, Copy, Debug, PartialEq, Eq, Structural)]
pub enum Commands {
    Add,
    Del,
    Edit,
    Done,
    List { all: bool },
    Clean,
}

} // verus!
