//! Finding the console device.
//!
//! A device qualifies when it can be opened, is a terminal, answers the
//! query for its keyboard type, and reports a 101-key keyboard. The steps
//! are taken in that order, and the first failure disqualifies the device.
//! Nothing here touches a device: a `Locator` says which request is due, is
//! handed the device's reply, and says what follows.

use vstd::prelude::*;
use vstd::string::*;

verus! {

/// A file descriptor.
pub type Fd = i32;

/// Request code: query the keyboard type.
pub const KDGKBTYPE: i32 = 0x4b33;

/// Request code: install a colour map.
pub const PIO_CMAP: i32 = 0x4b71;

/// The keyboard type of a console with a 101-key keyboard.
pub const KB_101: i8 = 0x02;

/// Open flag: do not make the device the controlling terminal.
pub const O_NOCTTY: i32 = 0o400;

/// How many devices are tried where none is named.
pub const CANDIDATES: usize = 6;

/// The devices that are tried where none is named, in this order.
pub const CONSOLE_PATHS: [&'static str; 6] = [
    "/proc/self/fd/0",
    "/dev/tty",
    "/dev/tty0",
    "/dev/vc/0",
    "/dev/systty",
    "/dev/console",
];

/// A step in the validation of one device.
#[derive(Clone, Copy, Debug, PartialEq, Eq, Structural)]
pub enum Probe {
    /// Open the device for reading and writing.
    Open,
    /// Ask whether the descriptor is a terminal.
    IsTerminal { fd: Fd },
    /// Query the keyboard type.
    KeyboardType { fd: Fd },
}

/// What a device answered: the value that the call returned and, for the
/// keyboard type query, the byte that it filled in.
#[derive(Clone, Copy, Debug, PartialEq, Eq, Structural)]
pub struct Reply {
    pub status: i32,
    pub kb_type: i8,
}

/// What follows from the reply to a step.
#[derive(Clone, Copy, Debug, PartialEq, Eq, Structural)]
pub enum Verdict {
    /// The device is still in the running: take this step next.
    Ask(Probe),
    /// The device qualifies.
    Accept(Fd),
    /// The device is disqualified.
    Reject,
}

/// A request to the operating system.
#[derive(Clone, Debug, PartialEq, Eq)]
pub enum Request {
    Open { path: String },
    IsTerminal { fd: Fd },
    KeyboardType { fd: Fd },
}

/// A `Request` with its path as a sequence of characters.
pub enum RequestView {
    Open { path: Seq<char> },
    IsTerminal { fd: Fd },
    KeyboardType { fd: Fd },
}

/// Why no console was found.
#[derive(Clone, Debug, PartialEq, Eq)]
pub enum LocateError {
    /// The device that was named does not qualify.
    NotATerminal { path: String },
    /// None of the devices in `CONSOLE_PATHS` qualifies.
    NoConsole,
}

/// A `LocateError` with its path as a sequence of characters.
pub enum LocateErrorView {
    NotATerminal { path: Seq<char> },
    NoConsole,
}

/// The search for a console: the device that was named, if one was; else
/// the place in `CONSOLE_PATHS` of the device under validation; and the step
/// whose reply is awaited.
#[derive(Debug, PartialEq, Eq)]
pub struct Locator {
    path: Option<String>,
    candidate: usize,
    asked: Probe,
}

/// A `Locator` as plain values.
pub struct LocatorView {
    pub path: Option<Seq<char>>,
    pub candidate: int,
    pub asked: Probe,
}

/// How the search goes on.
#[derive(Debug, PartialEq, Eq)]
pub enum Progress {
    /// Perform `Locator::request` and hand back the reply.
    Ask(Locator),
    /// This descriptor is the console.
    Found(Fd),
    /// There is no console.
    Failed(LocateError),
}

/// A `Progress` as plain values.
pub enum ProgressView {
    Ask(LocatorView),
    Found(Fd),
    Failed(LocateErrorView),
}

impl View for Request {
    type V = RequestView;

    open spec fn view(&self) -> RequestView {
        match self {
            Request::Open { path } => RequestView::Open { path: path@ },
            Request::IsTerminal { fd } => RequestView::IsTerminal { fd: *fd },
            Request::KeyboardType { fd } => RequestView::KeyboardType { fd: *fd },
        }
    }
}

impl View for LocateError {
    type V = LocateErrorView;

    open spec fn view(&self) -> LocateErrorView {
        match self {
            LocateError::NotATerminal { path } => LocateErrorView::NotATerminal { path: path@ },
            LocateError::NoConsole => LocateErrorView::NoConsole,
        }
    }
}

impl View for Locator {
    type V = LocatorView;

    closed spec fn view(&self) -> LocatorView {
        LocatorView {
            path: match self.path {
                Some(p) => Some(p@),
                None => None,
            },
            candidate: self.candidate as int,
            asked: self.asked,
        }
    }
}

impl View for Progress {
    type V = ProgressView;

    open spec fn view(&self) -> ProgressView {
        match self {
            Progress::Ask(next) => ProgressView::Ask(next@),
            Progress::Found(fd) => ProgressView::Found(*fd),
            Progress::Failed(e) => ProgressView::Failed(e@),
        }
    }
}

/// What follows from `reply` to the step `asked`: the next step, or the
/// verdict on the device.
pub open spec fn probe_step(asked: Probe, reply: Reply) -> Verdict {
    match asked {
        Probe::Open => if reply.status == -1 {
            Verdict::Reject
        } else {
            Verdict::Ask(Probe::IsTerminal { fd: reply.status })
        },
        Probe::IsTerminal { fd } => if reply.status == 0 {
            Verdict::Reject
        } else {
            Verdict::Ask(Probe::KeyboardType { fd })
        },
        Probe::KeyboardType { fd } => if reply.status < 0 || reply.kb_type != KB_101 {
            Verdict::Reject
        } else {
            Verdict::Accept(fd)
        },
    }
}

/// Decides what follows from `reply` to the step `asked`.
pub fn fd_of_path(asked: Probe, reply: Reply) -> (v: Verdict)
    ensures
        v == probe_step(asked, reply),
{
    match asked {
        Probe::Open => {
            if reply.status == -1 {
                return Verdict::Reject;
            }
            Verdict::Ask(Probe::IsTerminal { fd: reply.status })
        },
        Probe::IsTerminal { fd } => {
            if reply.status == 0 {
                return Verdict::Reject;
            }
            Verdict::Ask(Probe::KeyboardType { fd })
        },
        Probe::KeyboardType { fd } => {
            if reply.status < 0 {
                return Verdict::Reject;
            }
            if reply.kb_type != KB_101 {
                return Verdict::Reject;
            }
            Verdict::Accept(fd)
        },
    }
}

impl LocatorView {
    /// Whether this is a state that a search can be in.
    pub open spec fn wf(self) -> bool {
        0 <= self.candidate < CANDIDATES && (self.path is Some ==> self.candidate == 0)
    }

    /// The search at its start.
    pub open spec fn start(path: Option<Seq<char>>) -> LocatorView {
        LocatorView { path, candidate: 0, asked: Probe::Open }
    }

    /// The path of the device under validation.
    pub open spec fn device(self) -> Seq<char> {
        match self.path {
            Some(p) => p,
            None => CONSOLE_PATHS@[self.candidate]@,
        }
    }

    /// The request that is due.
    pub open spec fn request(self) -> RequestView {
        match self.asked {
            Probe::Open => RequestView::Open { path: self.device() },
            Probe::IsTerminal { fd } => RequestView::IsTerminal { fd },
            Probe::KeyboardType { fd } => RequestView::KeyboardType { fd },
        }
    }

    /// How the search goes on after `reply`: with the next step for the same
    /// device; with its descriptor, where it qualifies; and where it does
    /// not, with the next device in the list, or with a failure where the
    /// device was named or the list is at its end.
    pub open spec fn step(self, reply: Reply) -> ProgressView {
        match probe_step(self.asked, reply) {
            Verdict::Ask(next) => ProgressView::Ask(LocatorView { asked: next, ..self }),
            Verdict::Accept(fd) => ProgressView::Found(fd),
            Verdict::Reject => match self.path {
                Some(p) => ProgressView::Failed(LocateErrorView::NotATerminal { path: p }),
                None => if self.candidate + 1 < CANDIDATES {
                    ProgressView::Ask(
                        LocatorView {
                            path: None,
                            candidate: self.candidate + 1,
                            asked: Probe::Open,
                        },
                    )
                } else {
                    ProgressView::Failed(LocateErrorView::NoConsole)
                },
            },
        }
    }
}

/// Starts the search for a console: at the device `path`, or, where none is
/// named, at the first of `CONSOLE_PATHS`.
pub fn get_console_fd(path: Option<String>) -> (l: Locator)
    ensures
        l@ == LocatorView::start(
            match path {
                Some(p) => Some(p@),
                None => None,
            },
        ),
        l@.wf(),
{
    Locator { path, candidate: 0, asked: Probe::Open }
}

impl Locator {
    #[verifier::type_invariant]
    spec fn inv(self) -> bool {
        self.candidate < CANDIDATES && (self.path is Some ==> self.candidate == 0)
    }

    /// The request that is due.
    pub fn request(&self) -> (r: Request)
        ensures
            self@.wf(),
            r@ == self@.request(),
    {
        proof {
            use_type_invariant(self);
        }
        match self.asked {
            Probe::Open => {
                let path = match &self.path {
                    Some(p) => p.clone(),
                    None => String::from_str(CONSOLE_PATHS[self.candidate]),
                };
                Request::Open { path }
            },
            Probe::IsTerminal { fd } => Request::IsTerminal { fd },
            Probe::KeyboardType { fd } => Request::KeyboardType { fd },
        }
    }

    /// Takes the reply to the request that was due.
    pub fn next(self, reply: Reply) -> (p: Progress)
        ensures
            self@.wf(),
            p@ == self@.step(reply),
    {
        proof {
            use_type_invariant(&self);
        }
        match fd_of_path(self.asked, reply) {
            Verdict::Ask(next) => Progress::Ask(
                Locator { path: self.path, candidate: self.candidate, asked: next },
            ),
            Verdict::Accept(fd) => Progress::Found(fd),
            Verdict::Reject => match self.path {
                Some(p) => Progress::Failed(LocateError::NotATerminal { path: p }),
                None => {
                    if self.candidate + 1 < CANDIDATES {
                        Progress::Ask(
                            Locator {
                                path: None,
                                candidate: self.candidate + 1,
                                asked: Probe::Open,
                            },
                        )
                    } else {
                        Progress::Failed(LocateError::NoConsole)
                    }
                },
            },
        }
    }
}

impl LocateError {
    /// The message for this error.
    pub open spec fn text(self) -> Seq<char> {
        match self {
            LocateError::NotATerminal { path } => "cannot open "@ + path@ + " as a terminal"@,
            LocateError::NoConsole => "no usable console descriptor found"@,
        }
    }

    /// The message for this error.
    pub fn message(&self) -> (s: String)
        ensures
            s@ == self.text(),
    {
        match self {
            LocateError::NotATerminal { path } => {
                let mut s = String::from_str("cannot open ");
                s.append(path.as_str());
                s.append(" as a terminal");
                s
            },
            LocateError::NoConsole => String::from_str("no usable console descriptor found"),
        }
    }
}

/// What one device answers to each of the three steps.
pub struct Device {
    pub open: i32,
    pub terminal: i32,
    pub keyboard: i32,
    pub kb_type: i8,
}

impl Device {
    /// Whether the device passes all the steps.
    pub open spec fn qualifies(self) -> bool {
        self.open != -1 && self.terminal != 0 && self.keyboard >= 0 && self.kb_type == KB_101
    }

    /// The device's reply to a step.
    pub open spec fn answer(self, asked: Probe) -> Reply {
        match asked {
            Probe::Open => Reply { status: self.open, kb_type: 0 },
            Probe::IsTerminal { fd } => Reply { status: self.terminal, kb_type: 0 },
            Probe::KeyboardType { fd } => Reply { status: self.keyboard, kb_type: self.kb_type },
        }
    }
}

/// How many steps of a device's validation are left at `asked`.
pub open spec fn steps_left(asked: Probe) -> nat {
    match asked {
        Probe::Open => 3,
        Probe::IsTerminal { fd } => 2,
        Probe::KeyboardType { fd } => 1,
    }
}

/// How the search that stands at `at` ends where the device in place `i` of
/// the list answers as `devices[i]` does; a device that was named stands in
/// place 0.
pub open spec fn outcome(at: LocatorView, devices: Seq<Device>) -> ProgressView
    decreases CANDIDATES - at.candidate, steps_left(at.asked),
    when at.wf()
{
    match at.step(devices[at.candidate].answer(at.asked)) {
        ProgressView::Ask(next) => outcome(next, devices),
        done => done,
    }
}

/// A device that is being validated and qualifies is found, whatever step
/// its validation is at, as long as the descriptor in hand is its own.
proof fn lemma_qualified_is_found(at: LocatorView, devices: Seq<Device>)
    requires
        at.wf(),
        devices[at.candidate].qualifies(),
        match at.asked {
            Probe::Open => true,
            Probe::IsTerminal { fd } => fd == devices[at.candidate].open,
            Probe::KeyboardType { fd } => fd == devices[at.candidate].open,
        },
    ensures
        outcome(at, devices) == ProgressView::Found(devices[at.candidate].open),
    decreases steps_left(at.asked),
{
    match at.step(devices[at.candidate].answer(at.asked)) {
        ProgressView::Ask(next) => {
            lemma_qualified_is_found(next, devices);
        },
        _ => {},
    }
}

/// A device that is being validated from its first step and does not
/// qualify is left behind: the search goes on as from the next device, or
/// fails where there is none.
proof fn lemma_unqualified_is_passed(at: LocatorView, devices: Seq<Device>)
    requires
        at.wf(),
        !devices[at.candidate].qualifies(),
        match at.asked {
            Probe::Open => true,
            Probe::IsTerminal { fd } => devices[at.candidate].open != -1,
            Probe::KeyboardType { fd } => devices[at.candidate].open != -1
                && devices[at.candidate].terminal != 0,
        },
    ensures
        outcome(at, devices) == match at.path {
            Some(p) => ProgressView::Failed(LocateErrorView::NotATerminal { path: p }),
            None => if at.candidate + 1 < CANDIDATES {
                outcome(
                    LocatorView { path: None, candidate: at.candidate + 1, asked: Probe::Open },
                    devices,
                )
            } else {
                ProgressView::Failed(LocateErrorView::NoConsole)
            },
        },
    decreases steps_left(at.asked),
{
    match at.step(devices[at.candidate].answer(at.asked)) {
        ProgressView::Ask(next) => {
            if next.candidate == at.candidate {
                lemma_unqualified_is_passed(next, devices);
            }
        },
        _ => {},
    }
}

/// Where no device is named, the search ends with the descriptor of the
/// first device in the list that qualifies, whatever the devices behind it
/// would answer.
pub proof fn lemma_first_qualifying_wins(devices: Seq<Device>, k: int)
    requires
        devices.len() == CANDIDATES,
        0 <= k < CANDIDATES,
        devices[k].qualifies(),
        forall|j: int| 0 <= j < k ==> !(#[trigger] devices[j]).qualifies(),
    ensures
        outcome(LocatorView::start(None), devices) == ProgressView::Found(devices[k].open),
{
    lemma_search_from(devices, k, 0);
}

proof fn lemma_search_from(devices: Seq<Device>, k: int, from: int)
    requires
        devices.len() == CANDIDATES,
        0 <= from <= k < CANDIDATES,
        devices[k].qualifies(),
        forall|j: int| 0 <= j < k ==> !(#[trigger] devices[j]).qualifies(),
    ensures
        outcome(LocatorView { path: None, candidate: from, asked: Probe::Open }, devices)
            == ProgressView::Found(devices[k].open),
    decreases k - from,
{
    let at = LocatorView { path: None, candidate: from, asked: Probe::Open };
    if from == k {
        lemma_qualified_is_found(at, devices);
    } else {
        lemma_unqualified_is_passed(at, devices);
        lemma_search_from(devices, k, from + 1);
    }
}

/// Where no device is named and none in the list qualifies, the search
/// fails.
pub proof fn lemma_none_qualifies(devices: Seq<Device>)
    requires
        devices.len() == CANDIDATES,
        forall|j: int| 0 <= j < CANDIDATES ==> !(#[trigger] devices[j]).qualifies(),
    ensures
        outcome(LocatorView::start(None), devices) == ProgressView::Failed(
            LocateErrorView::NoConsole,
        ),
{
    lemma_fail_from(devices, 0);
}

proof fn lemma_fail_from(devices: Seq<Device>, from: int)
    requires
        devices.len() == CANDIDATES,
        0 <= from < CANDIDATES,
        forall|j: int| 0 <= j < CANDIDATES ==> !(#[trigger] devices[j]).qualifies(),
    ensures
        outcome(LocatorView { path: None, candidate: from, asked: Probe::Open }, devices)
            == ProgressView::Failed(LocateErrorView::NoConsole),
    decreases CANDIDATES - from,
{
    let at = LocatorView { path: None, candidate: from, asked: Probe::Open };
    lemma_unqualified_is_passed(at, devices);
    if from + 1 < CANDIDATES {
        lemma_fail_from(devices, from + 1);
    }
}

/// Where a device is named, the search ends with its descriptor if it
/// qualifies, and fails if it does not: no other device is tried.
pub proof fn lemma_named_device(path: Seq<char>, device: Device)
    ensures
        outcome(LocatorView::start(Some(path)), seq![device]) == if device.qualifies() {
            ProgressView::Found(device.open)
        } else {
            ProgressView::Failed(LocateErrorView::NotATerminal { path })
        },
{
    let at = LocatorView::start(Some(path));
    let devices = seq![device];
    if device.qualifies() {
        lemma_qualified_is_found(at, devices);
    } else {
        lemma_unqualified_is_passed(at, devices);
    }
}

} // verus!
