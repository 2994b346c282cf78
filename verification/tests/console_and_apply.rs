use vtcol::text::text_eq;
use vtcol::{
    clear_term, fd_of_path, get_console_fd, Applier, ApplyError, Command, LocateError, Locator,
    Outcome, Palette, Probe, Progress, Reply, Request, Stage, Verdict, CONSOLE_PATHS,
    DEFAULT_COLORS, KB_101, KDGKBTYPE, O_NOCTTY, PIO_CMAP,
};

/// What a device answers to each step.
#[derive(Clone, Copy)]
struct Device {
    open: i32,
    terminal: i32,
    keyboard: i32,
    kb_type: i8,
}

const GOOD: Device = Device {
    open: 3,
    terminal: 1,
    keyboard: 0,
    kb_type: 2,
};

const ABSENT: Device = Device {
    open: -1,
    terminal: 1,
    keyboard: 0,
    kb_type: 2,
};

/// Runs the search against scripted devices; returns how it ended and the
/// requests that were made.
fn run(start: Locator, device_at: &dyn Fn(&str) -> Device) -> (Progress, Vec<Request>) {
    let mut at = start;
    let mut log: Vec<Request> = Vec::new();
    let mut path = String::new();
    for _ in 0..100 {
        let request = at.request();
        let reply = match &request {
            Request::Open { path: p } => {
                path = p.clone();
                Reply {
                    status: device_at(p).open,
                    kb_type: 0,
                }
            }
            Request::IsTerminal { .. } => Reply {
                status: device_at(&path).terminal,
                kb_type: 0,
            },
            Request::KeyboardType { .. } => Reply {
                status: device_at(&path).keyboard,
                kb_type: device_at(&path).kb_type,
            },
        };
        log.push(request);
        match at.next(reply) {
            Progress::Ask(next) => at = next,
            done => return (done, log),
        }
    }
    panic!("the search does not end");
}

#[test]
fn constants_of_the_console_driver() {
    assert_eq!(KDGKBTYPE, 0x4b33);
    assert_eq!(PIO_CMAP, 0x4b71);
    assert_eq!(KB_101, 2);
    assert_eq!(O_NOCTTY, 256);
    assert_eq!(
        CONSOLE_PATHS,
        [
            "/proc/self/fd/0",
            "/dev/tty",
            "/dev/tty0",
            "/dev/vc/0",
            "/dev/systty",
            "/dev/console"
        ]
    );
}

#[test]
fn open_failure_rejects() {
    let reply = Reply {
        status: -1,
        kb_type: 0,
    };
    assert_eq!(fd_of_path(Probe::Open, reply), Verdict::Reject);
}

#[test]
fn open_success_asks_whether_it_is_a_terminal() {
    for fd in [0, 3, 1000, -2] {
        let reply = Reply {
            status: fd,
            kb_type: 0,
        };
        assert_eq!(
            fd_of_path(Probe::Open, reply),
            Verdict::Ask(Probe::IsTerminal { fd })
        );
    }
}

#[test]
fn not_a_terminal_rejects() {
    let reply = Reply {
        status: 0,
        kb_type: 0,
    };
    assert_eq!(
        fd_of_path(Probe::IsTerminal { fd: 5 }, reply),
        Verdict::Reject
    );
    let reply = Reply {
        status: 1,
        kb_type: 0,
    };
    assert_eq!(
        fd_of_path(Probe::IsTerminal { fd: 5 }, reply),
        Verdict::Ask(Probe::KeyboardType { fd: 5 })
    );
}

#[test]
fn keyboard_type_decides() {
    let asked = Probe::KeyboardType { fd: 5 };
    let ok = Reply {
        status: 0,
        kb_type: 2,
    };
    assert_eq!(fd_of_path(asked, ok), Verdict::Accept(5));
    let failed = Reply {
        status: -1,
        kb_type: 2,
    };
    assert_eq!(fd_of_path(asked, failed), Verdict::Reject);
    for other in [0i8, 1, 3, 4, -1] {
        let wrong = Reply {
            status: 0,
            kb_type: other,
        };
        assert_eq!(fd_of_path(asked, wrong), Verdict::Reject);
    }
}

#[test]
fn first_request_opens_the_first_candidate() {
    assert_eq!(
        get_console_fd(None).request(),
        Request::Open {
            path: "/proc/self/fd/0".to_string()
        }
    );
    assert_eq!(
        get_console_fd(Some("/dev/tty7".to_string())).request(),
        Request::Open {
            path: "/dev/tty7".to_string()
        }
    );
}

#[test]
fn first_qualifying_candidate_wins() {
    for winner in 0..6 {
        let device_at = |path: &str| {
            let place = CONSOLE_PATHS.iter().position(|p| *p == path).unwrap();
            if place < winner {
                ABSENT
            } else {
                // every later device would qualify too
                Device {
                    open: 10 + place as i32,
                    ..GOOD
                }
            }
        };
        let (end, log) = run(get_console_fd(None), &device_at);
        assert_eq!(end, Progress::Found(10 + winner as i32));
        let opened: Vec<&Request> = log
            .iter()
            .filter(|r| matches!(r, Request::Open { .. }))
            .collect();
        assert_eq!(opened.len(), winner + 1);
        for (i, request) in opened.iter().enumerate() {
            assert_eq!(
                **request,
                Request::Open {
                    path: CONSOLE_PATHS[i].to_string()
                }
            );
        }
        assert_eq!(
            &log[log.len() - 2..],
            &[
                Request::IsTerminal {
                    fd: 10 + winner as i32
                },
                Request::KeyboardType {
                    fd: 10 + winner as i32
                }
            ]
        );
    }
}

#[test]
fn candidates_fail_at_different_steps() {
    let device_at = |path: &str| match path {
        "/proc/self/fd/0" => Device { terminal: 0, ..GOOD },
        "/dev/tty" => Device { keyboard: -1, ..GOOD },
        "/dev/tty0" => Device { kb_type: 1, ..GOOD },
        "/dev/vc/0" => ABSENT,
        "/dev/systty" => Device { open: 42, ..GOOD },
        _ => Device { open: 43, ..GOOD },
    };
    let (end, log) = run(get_console_fd(None), &device_at);
    assert_eq!(end, Progress::Found(42));
    assert_eq!(log.len(), 2 + 3 + 3 + 1 + 3);
}

#[test]
fn no_candidate_qualifies() {
    let (end, log) = run(get_console_fd(None), &|_| ABSENT);
    assert_eq!(end, Progress::Failed(LocateError::NoConsole));
    assert_eq!(log.len(), 6);
    let (end, log) = run(get_console_fd(None), &|_| Device { kb_type: 4, ..GOOD });
    assert_eq!(end, Progress::Failed(LocateError::NoConsole));
    assert_eq!(log.len(), 18);
}

#[test]
fn named_device_that_qualifies_is_found() {
    let (end, log) = run(get_console_fd(Some("/dev/tty3".to_string())), &|_| GOOD);
    assert_eq!(end, Progress::Found(3));
    assert_eq!(
        log,
        vec![
            Request::Open {
                path: "/dev/tty3".to_string()
            },
            Request::IsTerminal { fd: 3 },
            Request::KeyboardType { fd: 3 }
        ]
    );
}

#[test]
fn named_device_that_is_no_terminal_fails_without_fallback() {
    let failure = Progress::Failed(LocateError::NotATerminal {
        path: "/tmp/file".to_string(),
    });
    for device in [
        ABSENT,
        Device { terminal: 0, ..GOOD },
        Device { keyboard: -5, ..GOOD },
        Device { kb_type: 0, ..GOOD },
    ] {
        let device_at = |path: &str| {
            if path == "/tmp/file" {
                device
            } else {
                GOOD
            }
        };
        let (end, log) = run(get_console_fd(Some("/tmp/file".to_string())), &device_at);
        assert_eq!(end, failure);
        let opened = log
            .iter()
            .filter(|r| matches!(r, Request::Open { .. }))
            .count();
        assert_eq!(opened, 1);
    }
}

#[test]
fn locate_error_messages() {
    assert_eq!(
        LocateError::NotATerminal {
            path: "/tmp/file".to_string()
        }
        .message(),
        "cannot open /tmp/file as a terminal"
    );
    assert_eq!(
        LocateError::NoConsole.message(),
        "no usable console descriptor found"
    );
}

#[test]
fn clear_term_sequences() {
    assert_eq!(clear_term(), ["\x1b[2J", "\x1b[1;1H"]);
    assert_eq!(clear_term()[0].as_bytes(), &[0x1b, b'[', b'2', b'J']);
    assert_eq!(
        clear_term()[1].as_bytes(),
        &[0x1b, b'[', b'1', b';', b'1', b'H']
    );
}

#[test]
fn install_is_the_first_command() {
    let pal = Palette::new(&DEFAULT_COLORS);
    let applier = Applier::new(7);
    assert_eq!(
        applier,
        Applier {
            fd: 7,
            stage: Stage::Install
        }
    );
    assert_eq!(
        applier.command(&pal),
        Command::Install {
            fd: 7,
            payload: *pal.as_bytes()
        }
    );
}

#[test]
fn rejected_install_aborts_before_any_write() {
    let pal = Palette::dummy();
    for status in [-1, -22, i32::MIN] {
        let mut issued = vec![Applier::new(7).command(&pal)];
        let mut outcome = Applier::new(7).next(status);
        while let Outcome::Ask(next) = outcome {
            issued.push(next.command(&pal));
            outcome = next.next(0);
        }
        assert_eq!(outcome, Outcome::Failed(ApplyError::InstallRejected));
        assert_eq!(issued.len(), 1);
        assert!(!issued.iter().any(|c| matches!(c, Command::Write { .. })));
    }
}

#[test]
fn accepted_install_clears_then_homes() {
    let pal = Palette::dummy();
    for status in [0, 1, i32::MAX] {
        // what the writes return does not matter
        for written in [4, -1] {
            let mut issued = vec![Applier::new(7).command(&pal)];
            let mut outcome = Applier::new(7).next(status);
            while let Outcome::Ask(next) = outcome {
                issued.push(next.command(&pal));
                outcome = next.next(written);
            }
            assert_eq!(outcome, Outcome::Done);
            assert_eq!(
                issued,
                vec![
                    Command::Install {
                        fd: 7,
                        payload: *pal.as_bytes()
                    },
                    Command::Write {
                        fd: 7,
                        text: "\x1b[2J"
                    },
                    Command::Write {
                        fd: 7,
                        text: "\x1b[1;1H"
                    },
                ]
            );
        }
    }
}

#[test]
fn apply_error_message() {
    assert_eq!(
        ApplyError::InstallRejected.message(),
        "PIO_CMAP, ioctl failed to insert new palette"
    );
}

#[test]
fn text_eq_compares_characters() {
    assert!(text_eq("", ""));
    assert!(text_eq("solarized", "solarized"));
    assert!(!text_eq("solarized", "solarizeD"));
    assert!(!text_eq("sd", "sd "));
    assert!(!text_eq("", "-"));
    assert!(text_eq("\u{b7}x", "\u{b7}x"));
    assert!(!text_eq("\u{b7}", "\u{b8}"));
}
