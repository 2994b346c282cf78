use vtcol::{
    Action, CliError, Given, Invocation, Job, Palette, Scheme, SchemeError, DEFAULT_COLORS,
    SOLARIZED_COLORS_DARK, SOLARIZED_COLORS_LIGHT,
};

fn args(list: &[&str]) -> Vec<String> {
    list.iter().map(|s| s.to_string()).collect()
}

fn apply(this: &str, scheme: Scheme, verbose: bool) -> Result<Invocation, CliError> {
    Ok(Invocation {
        verbose,
        action: Action::Apply(Job {
            this: this.to_string(),
            scheme,
        }),
    })
}

fn nothing_given() -> Given {
    Given {
        verbose: false,
        list: false,
        dump: false,
        dump_name: None,
        file: false,
        file_name: None,
        scheme: None,
    }
}

#[test]
fn pick_scheme_knows_the_built_in_names() {
    for name in ["solarized", "solarized_dark", "sd"] {
        assert_eq!(Job::pick_scheme(&name.to_string()), Scheme::SolarizedDark);
    }
    for name in ["solarized_light", "sl"] {
        assert_eq!(Job::pick_scheme(&name.to_string()), Scheme::SolarizedLight);
    }
    for name in ["default", "normal"] {
        assert_eq!(Job::pick_scheme(&name.to_string()), Scheme::Default);
    }
}

#[test]
fn pick_scheme_takes_any_other_name_as_a_file() {
    for name in ["", "Default", "solarized ", "sd2", "/etc/colors", "-", "normal\n"] {
        assert_eq!(
            Job::pick_scheme(&name.to_string()),
            Scheme::Custom(Some(name.to_string()))
        );
    }
}

#[test]
fn scheme_from_stdin_names_no_file() {
    assert_eq!(Job::scheme_from_stdin(), Scheme::Custom(None));
}

#[test]
fn scheme_to_string() {
    assert_eq!(Scheme::Default.to_string(), "default");
    assert_eq!(Scheme::SolarizedDark.to_string(), "solarized_dark");
    assert_eq!(Scheme::SolarizedLight.to_string(), "solarized_light");
    assert_eq!(
        Scheme::Custom(Some("my.colors".to_string())).to_string(),
        "my.colors"
    );
    assert_eq!(Scheme::Custom(None).to_string(), "<read stdin>");
}

#[test]
fn palette_of_a_builtin_scheme_ignores_the_input() {
    assert_eq!(
        Scheme::Default.palette(Ok(b"0#ffffff\n".to_vec())),
        Ok(Palette::new(&DEFAULT_COLORS))
    );
    assert_eq!(
        Scheme::SolarizedDark.palette(Err("unused".to_string())),
        Ok(Palette::new(&SOLARIZED_COLORS_DARK))
    );
    assert_eq!(
        Scheme::SolarizedLight.palette(Ok(Vec::new())),
        Ok(Palette::new(&SOLARIZED_COLORS_LIGHT))
    );
}

#[test]
fn palette_of_a_file() {
    let scheme = Scheme::Custom(Some("my.colors".to_string()));
    let pal = scheme.palette(Ok(b"1#010203\n".to_vec())).unwrap();
    assert_eq!(pal.get(1), (1, 2, 3));
    assert_eq!(pal.get(0), (0, 0, 0));
    assert_eq!(
        scheme.palette(Err("No such file or directory (os error 2)".to_string())),
        Err(SchemeError::OpenFailed {
            fname: "my.colors".to_string(),
            cause: "No such file or directory (os error 2)".to_string(),
        })
    );
    assert_eq!(
        scheme.palette(Ok(b"abcdefgh#\n".to_vec())),
        Err(SchemeError::InvalidColorDefinition {
            line: b"abcdefgh#\n".to_vec()
        })
    );
}

#[test]
fn palette_of_standard_input() {
    let scheme = Scheme::Custom(None);
    let pal = scheme.palette(Ok(b"#0a0b0c\n#0d0e0f\n".to_vec())).unwrap();
    assert_eq!(pal.get(0), (10, 11, 12));
    assert_eq!(pal.get(1), (13, 14, 15));
    // a stream that cannot be read holds no lines
    assert_eq!(
        scheme.palette(Err("broken pipe".to_string())),
        Palette::from_stdin(b"")
    );
    assert_eq!(
        scheme.palette(Ok(b"abcdefgh#\n".to_vec())),
        Err(SchemeError::InvalidColorDefinition {
            line: b"abcdefgh#\n".to_vec()
        })
    );
}

#[test]
fn no_arguments_read_standard_input() {
    assert_eq!(
        Job::new(&args(&["vtcol"])),
        apply("vtcol", Scheme::Custom(None), false)
    );
}

#[test]
fn scheme_option_picks_a_scheme() {
    assert_eq!(
        Job::new(&args(&["vtcol", "-s", "solarized"])),
        apply("vtcol", Scheme::SolarizedDark, false)
    );
    assert_eq!(
        Job::new(&args(&["vtcol", "--scheme", "sl"])),
        apply("vtcol", Scheme::SolarizedLight, false)
    );
    assert_eq!(
        Job::new(&args(&["./vtcol", "--scheme=default"])),
        apply("./vtcol", Scheme::Default, false)
    );
    assert_eq!(
        Job::new(&args(&["vtcol", "-snormal"])),
        apply("vtcol", Scheme::Default, false)
    );
    assert_eq!(
        Job::new(&args(&["vtcol", "-s", "mine.txt"])),
        apply("vtcol", Scheme::Custom(Some("mine.txt".to_string())), false)
    );
    assert_eq!(
        Job::new(&args(&["vtcol", "-s", "-"])),
        apply("vtcol", Scheme::Custom(None), false)
    );
}

#[test]
fn file_option_names_a_file_even_with_a_built_in_name() {
    assert_eq!(
        Job::new(&args(&["vtcol", "-f", "solarized"])),
        apply("vtcol", Scheme::Custom(Some("solarized".to_string())), false)
    );
    assert_eq!(
        Job::new(&args(&["vtcol", "--file", "/tmp/colors"])),
        apply(
            "vtcol",
            Scheme::Custom(Some("/tmp/colors".to_string())),
            false
        )
    );
    assert_eq!(
        Job::new(&args(&["vtcol", "-f", "-"])),
        apply("vtcol", Scheme::Custom(None), false)
    );
}

#[test]
fn file_option_comes_before_scheme_option() {
    assert_eq!(
        Job::new(&args(&["vtcol", "-s", "default", "-f", "mine"])),
        apply("vtcol", Scheme::Custom(Some("mine".to_string())), false)
    );
}

#[test]
fn verbose_flag_is_reported() {
    assert_eq!(
        Job::new(&args(&["vtcol", "-v", "-s", "sd"])),
        apply("vtcol", Scheme::SolarizedDark, true)
    );
    assert_eq!(
        Job::new(&args(&["vtcol", "--verbose"])),
        apply("vtcol", Scheme::Custom(None), true)
    );
}

#[test]
fn list_flag_comes_first() {
    assert_eq!(
        Job::new(&args(&["vtcol", "-l"])),
        Ok(Invocation {
            verbose: false,
            action: Action::List
        })
    );
    assert_eq!(
        Job::new(&args(&["vtcol", "-d", "default", "-v", "--list", "-f", "x"])),
        Ok(Invocation {
            verbose: true,
            action: Action::List
        })
    );
}

#[test]
fn dump_option_comes_before_file_and_scheme() {
    assert_eq!(
        Job::new(&args(&["vtcol", "-d", "sl"])),
        Ok(Invocation {
            verbose: false,
            action: Action::Dump(Scheme::SolarizedLight)
        })
    );
    assert_eq!(
        Job::new(&args(&["vtcol", "-f", "x", "--dump", "mine", "-s", "sd"])),
        Ok(Invocation {
            verbose: false,
            action: Action::Dump(Scheme::Custom(Some("mine".to_string())))
        })
    );
    // for the dump option `-` is a file name like any other
    assert_eq!(
        Job::new(&args(&["vtcol", "-d", "-"])),
        Ok(Invocation {
            verbose: false,
            action: Action::Dump(Scheme::Custom(Some("-".to_string())))
        })
    );
}

#[test]
fn help_flag_and_free_arguments_change_nothing() {
    assert_eq!(
        Job::new(&args(&["vtcol", "-h", "free", "-s", "sd", "--", "-x"])),
        apply("vtcol", Scheme::SolarizedDark, false)
    );
}

#[test]
fn parse_failures_carry_the_message() {
    assert_eq!(
        Job::new(&args(&["vtcol", "-x"])),
        Err(CliError::Parse("Unrecognized option: 'x'".to_string()))
    );
    assert_eq!(
        Job::new(&args(&["vtcol", "-s"])),
        Err(CliError::Parse(
            "Argument to option 's' missing".to_string()
        ))
    );
    assert_eq!(
        Job::new(&args(&["vtcol", "-s", "a", "--scheme", "b"])),
        Err(CliError::Parse(
            "Option 'scheme' given more than once".to_string()
        ))
    );
    assert_eq!(
        Job::new(&args(&["vtcol", "--list=yes"])),
        Err(CliError::Parse(
            "Option 'list' does not take an argument".to_string()
        ))
    );
}

#[test]
fn job_new_agrees_with_getopts() {
    let mut opts = getopts::Options::new();
    opts.optopt("s", "scheme", "predefined color scheme", "NAME");
    opts.optopt("d", "dump", "dump predefined scheme", "NAME");
    opts.optopt("f", "file", "apply scheme from file", "PATH");
    opts.optflag("v", "verbose", "enable verbose messages");
    opts.optflag("l", "list", "list available color schemes");
    opts.optflag("h", "help", "print this message");
    let lines: [&[&str]; 8] = [
        &["p"],
        &["p", "-v", "-l"],
        &["p", "-d", "sd"],
        &["p", "-f", "a", "-s", "b"],
        &["p", "-s", "default", "-v"],
        &["p", "--nope"],
        &["p", "-f"],
        &["p", "-vv"],
    ];
    for line in lines {
        let argv = args(line);
        let want = match opts.parse(&argv[1..]) {
            Err(f) => Err(CliError::Parse(f.to_string())),
            Ok(m) => Job::from_given(
                argv[0].clone(),
                Given {
                    verbose: m.opt_present("v"),
                    list: m.opt_present("l"),
                    dump: m.opt_present("d"),
                    dump_name: m.opt_str("d"),
                    file: m.opt_present("f"),
                    file_name: m.opt_str("f"),
                    scheme: m.opt_str("s"),
                },
            ),
        };
        assert_eq!(Job::new(&argv), want);
    }
}

#[test]
fn from_given_without_options_reads_standard_input() {
    assert_eq!(
        Job::from_given("p".to_string(), nothing_given()),
        apply("p", Scheme::Custom(None), false)
    );
}

#[test]
fn from_given_reports_an_option_without_its_argument() {
    let given = Given {
        dump: true,
        ..nothing_given()
    };
    assert_eq!(
        Job::from_given("p".to_string(), given),
        Err(CliError::NoSchemeGiven)
    );
    let given = Given {
        file: true,
        scheme: Some("sd".to_string()),
        ..nothing_given()
    };
    assert_eq!(
        Job::from_given("p".to_string(), given),
        Err(CliError::NoFileGiven)
    );
    // listing comes before the missing argument is noticed
    let given = Given {
        list: true,
        dump: true,
        ..nothing_given()
    };
    assert_eq!(
        Job::from_given("p".to_string(), given),
        Ok(Invocation {
            verbose: false,
            action: Action::List
        })
    );
}

#[test]
fn from_given_ignores_a_file_name_without_its_option() {
    let given = Given {
        file_name: Some("ignored".to_string()),
        scheme: Some("sl".to_string()),
        ..nothing_given()
    };
    assert_eq!(
        Job::from_given("p".to_string(), given),
        apply("p", Scheme::SolarizedLight, false)
    );
}

#[test]
fn cli_error_messages() {
    assert_eq!(
        CliError::Parse("Unrecognized option: 'x'".to_string()).message(),
        "Unrecognized option: 'x'"
    );
    assert_eq!(
        CliError::NoSchemeGiven.message(),
        "no color scheme given, aborting"
    );
    assert_eq!(
        CliError::NoFileGiven.message(),
        "no file name specified, aborting"
    );
}

#[test]
fn usage_is_what_getopts_writes() {
    let mut opts = getopts::Options::new();
    opts.optopt("s", "scheme", "predefined color scheme", "NAME");
    opts.optopt("d", "dump", "dump predefined scheme", "NAME");
    opts.optopt("f", "file", "apply scheme from file", "PATH");
    opts.optflag("v", "verbose", "enable verbose messages");
    opts.optflag("l", "list", "list available color schemes");
    opts.optflag("h", "help", "print this message");
    assert_eq!(
        Job::usage(&"vtcol".to_string()),
        opts.usage("usage: vtcol [options]")
    );
    let text = Job::usage(&"/usr/bin/vtcol".to_string());
    assert!(text.starts_with("usage: /usr/bin/vtcol [options]\n\nOptions:\n"));
    assert!(text.contains("    -s, --scheme NAME   predefined color scheme\n"));
    assert!(text.contains("    -h, --help          print this message\n"));
}

#[test]
fn schemes_lists_the_built_in_schemes() {
    assert_eq!(
        Job::schemes(),
        "Available color schemes:\n      \u{b7} solarized_dark\n      \u{b7} solarized_light\n      \u{b7} default\n"
    );
}

#[test]
fn dump_of_a_scheme() {
    assert_eq!(
        Job::dump(&Scheme::Default, Ok(Vec::new())),
        Ok(Palette::new(&DEFAULT_COLORS).dump())
    );
    let text = Job::dump(&Scheme::Custom(None), Ok(b"1#ff8000\n".to_vec())).unwrap();
    let lines: Vec<&str> = text.lines().collect();
    assert_eq!(lines.len(), 16);
    assert_eq!(lines[0], "          black => 0x000000");
    assert_eq!(lines[1], "            red => 0xFF8000");
    assert_eq!(
        Job::dump(
            &Scheme::Custom(Some("gone".to_string())),
            Err("not found".to_string())
        ),
        Err(SchemeError::OpenFailed {
            fname: "gone".to_string(),
            cause: "not found".to_string()
        })
    );
}

#[test]
fn dump_scheme_and_dump_palette() {
    assert_eq!(
        Job::dump_scheme(&SOLARIZED_COLORS_DARK),
        Palette::new(&SOLARIZED_COLORS_DARK).dump()
    );
    assert!(Job::dump_scheme(&SOLARIZED_COLORS_DARK)
        .starts_with("          black => 0x002B36\n            red => 0xDC322F\n"));
    let pal = Palette::dummy();
    assert_eq!(Job::dump_palette(pal.clone()), pal.dump());
}
