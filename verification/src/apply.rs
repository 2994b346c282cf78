//! Installing a palette on a console.
//!
//! One request installs the colour map. Where the console takes it, the
//! screen is cleared and the cursor is sent home; where it refuses, nothing
//! is written. As with the search for the console, nothing here touches the
//! device: an `Applier` says which command is due and is handed its result.

use vstd::prelude::*;
use vstd::string::*;
use crate::console::Fd;
use crate::palette::Palette;

verus! {

/// The escape sequence that clears the screen.
pub open spec fn clear_screen() -> Seq<char> {
    "\x1b[2J"@
}

/// The escape sequence that moves the cursor to the first column of the
/// first row.
pub open spec fn cursor_home() -> Seq<char> {
    "\x1b[1;1H"@
}

/// The escape sequences that clear a terminal, in the order in which they
/// are written.
pub fn clear_term() -> (seqs: [&'static str; 2])
    ensures
        seqs@[0]@ == clear_screen(),
        seqs@[1]@ == cursor_home(),
{
    let clear: &'static str = "\x1b[2J";
    let cursor: &'static str = "\x1b[1;1H";
    [clear, cursor]
}

/// How far the installation has come.
#[derive(Clone, Copy, Debug, PartialEq, Eq, Structural)]
pub enum Stage {
    /// The colour map is to be installed.
    Install,
    /// The screen is to be cleared.
    Clear,
    /// The cursor is to be sent home.
    Home,
}

/// The installation of a palette on the console `fd`.
#[derive(Clone, Copy, Debug, PartialEq, Eq, Structural)]
pub struct Applier {
    pub fd: Fd,
    pub stage: Stage,
}

/// A command to the console.
#[derive(Clone, Debug, PartialEq, Eq)]
pub enum Command {
    /// Issue the request `PIO_CMAP` with these 48 bytes.
    Install { fd: Fd, payload: [u8; 48] },
    /// Write this text.
    Write { fd: Fd, text: &'static str },
}

/// A `Command` as plain values.
pub enum CommandView {
    Install { fd: Fd, payload: Seq<u8> },
    Write { fd: Fd, text: Seq<char> },
}

impl View for Command {
    type V = CommandView;

    open spec fn view(&self) -> CommandView {
        match self {
            Command::Install { fd, payload } => CommandView::Install { fd: *fd, payload: payload@ },
            Command::Write { fd, text } => CommandView::Write { fd: *fd, text: text@ },
        }
    }
}

/// Why a palette was not installed.
#[derive(Clone, Copy, Debug, PartialEq, Eq, Structural)]
pub enum ApplyError {
    /// The console refused the colour map.
    InstallRejected,
}

/// How the installation goes on.
#[derive(Clone, Copy, Debug, PartialEq, Eq, Structural)]
pub enum Outcome {
    /// Perform `Applier::command` and hand back its result.
    Ask(Applier),
    /// The palette is installed and the screen is cleared.
    Done,
    /// The palette is not installed.
    Failed(ApplyError),
}

impl Applier {
    /// The installation at its start.
    pub open spec fn start(fd: Fd) -> Applier {
        Applier { fd, stage: Stage::Install }
    }

    /// The command that is due, for a palette with the bytes `colors`.
    pub open spec fn due(self, colors: Seq<u8>) -> CommandView {
        match self.stage {
            Stage::Install => CommandView::Install { fd: self.fd, payload: colors },
            Stage::Clear => CommandView::Write { fd: self.fd, text: clear_screen() },
            Stage::Home => CommandView::Write { fd: self.fd, text: cursor_home() },
        }
    }

    /// How the installation goes on after a command that returned `status`:
    /// a colour map that was refused ends it; what a write returned is not
    /// looked at.
    pub open spec fn step(self, status: i32) -> Outcome {
        match self.stage {
            Stage::Install => if status < 0 {
                Outcome::Failed(ApplyError::InstallRejected)
            } else {
                Outcome::Ask(Applier { fd: self.fd, stage: Stage::Clear })
            },
            Stage::Clear => Outcome::Ask(Applier { fd: self.fd, stage: Stage::Home }),
            Stage::Home => Outcome::Done,
        }
    }

    /// Starts the installation on the console `fd`.
    pub fn new(fd: Fd) -> (a: Applier)
        ensures
            a == Applier::start(fd),
    {
        Applier { fd, stage: Stage::Install }
    }

    /// The command that is due.
    pub fn command(&self, pal: &Palette) -> (c: Command)
        ensures
            c@ == self.due(pal@),
    {
        let seqs = clear_term();
        match self.stage {
            Stage::Install => Command::Install { fd: self.fd, payload: *pal.as_bytes() },
            Stage::Clear => Command::Write { fd: self.fd, text: seqs[0] },
            Stage::Home => Command::Write { fd: self.fd, text: seqs[1] },
        }
    }

    /// Takes the result of the command that was due.
    pub fn next(self, status: i32) -> (o: Outcome)
        ensures
            o == self.step(status),
    {
        match self.stage {
            Stage::Install => {
                if status < 0 {
                    return Outcome::Failed(ApplyError::InstallRejected);
                }
                Outcome::Ask(Applier { fd: self.fd, stage: Stage::Clear })
            },
            Stage::Clear => Outcome::Ask(Applier { fd: self.fd, stage: Stage::Home }),
            Stage::Home => Outcome::Done,
        }
    }
}

impl ApplyError {
    /// The message for this error.
    pub open spec fn text(self) -> Seq<char> {
        "PIO_CMAP, ioctl failed to insert new palette"@
    }

    /// The message for this error.
    pub fn message(&self) -> (s: String)
        ensures
            s@ == self.text(),
    {
        String::from_str("PIO_CMAP, ioctl failed to insert new palette")
    }
}

/// How many commands are left at `stage`.
pub open spec fn commands_left(stage: Stage) -> nat {
    match stage {
        Stage::Install => 3,
        Stage::Clear => 2,
        Stage::Home => 1,
    }
}

/// The commands that are issued from `at` on, in order, where command `i`
/// from here returns `results[i]`.
pub open spec fn issued(at: Applier, colors: Seq<u8>, results: Seq<i32>) -> Seq<CommandView>
    decreases commands_left(at.stage),
{
    seq![at.due(colors)] + match at.step(results[0]) {
        Outcome::Ask(next) => issued(next, colors, results.drop_first()),
        _ => Seq::empty(),
    }
}

/// A console that refuses the colour map is sent nothing else: neither of
/// the two escape sequences is written.
pub proof fn lemma_refused_writes_nothing(fd: Fd, colors: Seq<u8>, results: Seq<i32>)
    requires
        results.len() > 0,
        results[0] < 0,
    ensures
        Applier::start(fd).step(results[0]) == Outcome::Failed(ApplyError::InstallRejected),
        issued(Applier::start(fd), colors, results) == seq![
            CommandView::Install { fd, payload: colors },
        ],
{
    assert(issued(Applier::start(fd), colors, results) =~= seq![
        CommandView::Install { fd, payload: colors },
    ]);
}

/// A console that takes the colour map is cleared after that, and then has
/// its cursor sent home, whatever the writes return.
pub proof fn lemma_accepted_then_cleared(fd: Fd, colors: Seq<u8>, results: Seq<i32>)
    requires
        results.len() >= 3,
        results[0] >= 0,
    ensures
        issued(Applier::start(fd), colors, results) == seq![
            CommandView::Install { fd, payload: colors },
            CommandView::Write { fd, text: clear_screen() },
            CommandView::Write { fd, text: cursor_home() },
        ],
{
    let a0 = Applier::start(fd);
    let a1 = Applier { fd, stage: Stage::Clear };
    let a2 = Applier { fd, stage: Stage::Home };
    let r1 = results.drop_first();
    let r2 = r1.drop_first();
    assert(issued(a2, colors, r2) =~= seq![CommandView::Write { fd, text: cursor_home() }]);
    assert(issued(a1, colors, r1) =~= seq![
        CommandView::Write { fd, text: clear_screen() },
        CommandView::Write { fd, text: cursor_home() },
    ]);
    assert(issued(a0, colors, results) =~= seq![
        CommandView::Install { fd, payload: colors },
        CommandView::Write { fd, text: clear_screen() },
        CommandView::Write { fd, text: cursor_home() },
    ]);
}

} // verus!
