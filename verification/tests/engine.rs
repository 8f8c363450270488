use grepr::config::{compile_config, input_plan, Config, ConfigError, FileSelector, InputPlan, Options};
use grepr::discover::{discover, is_hidden_name, FsEntry};
use grepr::pattern::{extension_pattern, ContentPattern, NamePatternSet};
use grepr::scan::{
    add_count, annotate_line, error_status, exit_code, judge_line, scan_lines, scan_sources,
    select_mode, run_outcome, LineDirective, OutputMode, RunStatus, SourceLines,
};

fn lines_of(text: &str) -> Vec<String> {
    text.split('\n').map(|s| s.to_string()).collect()
}

fn stdin_config(pattern: &str) -> Config {
    Config {
        pattern: pattern.to_string(),
        selector: FileSelector::NoFilter,
        ignore_case: false,
        count_only: false,
        filename_only: false,
        verbose: false,
    }
}

fn compiled(pattern: &str) -> Options {
    compile_config(&stdin_config(pattern)).ok().expect("pattern should compile")
}

#[test]
fn test1() {
    // basic it works test from stdin
    let o = compiled("pi");
    let mode = select_mode(o.count_only, o.filename_only, true);
    let r = scan_lines(&o.content, mode, "", &lines_of("alpha\nbeta\npink\ndelta\ngamma"));
    assert_eq!(r.printed, vec!["pink".to_string()]);
    assert_eq!(r.count, 1);
    let s = run_outcome(add_count(0, r.count));
    assert_eq!(exit_code(&s), 0);
}

#[test]
fn test3() {
    // test 1 is returned if expression not found
    let o = compiled("pi");
    let mode = select_mode(o.count_only, o.filename_only, true);
    let r = scan_lines(&o.content, mode, "", &lines_of("cheese"));
    assert!(r.printed.is_empty());
    assert_eq!(r.count, 0);
    let s = run_outcome(add_count(0, r.count));
    assert_eq!(exit_code(&s), 1);
}

#[test]
fn bad_content_pattern_exits_2_with_diagnostic() {
    let r = compile_config(&stdin_config("[pi"));
    match r {
        Err(e) => {
            let msg = e.message();
            assert!(msg.starts_with("grepr: Error in pattern: "));
            assert!(!msg.is_empty());
            let s = error_status(&e);
            assert_eq!(exit_code(&s), 2);
        },
        Ok(_) => panic!("pattern [pi must not compile"),
    }
}

#[test]
fn bad_file_pattern_exits_3() {
    let c = Config {
        pattern: "PURPLE".to_string(),
        selector: FileSelector::Patterns(vec!["(?q)\\.txt$".to_string()]),
        ignore_case: true,
        count_only: false,
        filename_only: false,
        verbose: false,
    };
    match compile_config(&c) {
        Err(e) => {
            let msg = e.message();
            assert!(msg.starts_with("grepr: Error in file pattern: "));
            assert_eq!(exit_code(&error_status(&e)), 3);
        },
        Ok(_) => panic!("pattern (?q)\\.txt$ must not compile"),
    }
}

#[test]
fn bad_ext_pattern_exits_3() {
    let c = Config {
        pattern: "x".to_string(),
        selector: FileSelector::Extensions(vec!["t(".to_string()]),
        ignore_case: false,
        count_only: false,
        filename_only: false,
        verbose: false,
    };
    match compile_config(&c) {
        Err(e) => {
            assert!(e.message().starts_with("grepr: Error in ext pattern: "));
            assert_eq!(exit_code(&error_status(&e)), 3);
        },
        Ok(_) => panic!("extension list [t(] must not compile"),
    }
}

#[test]
fn open_file_error_exits_4() {
    assert_eq!(exit_code(&RunStatus::OpenFileError), 4);
}

#[test]
fn extension_pattern_text_is_anchored_alternation() {
    let exts = vec!["rs".to_string(), "py".to_string()];
    assert_eq!(extension_pattern(&exts), "\\.(rs|py)$");
    let one = vec!["txt".to_string()];
    assert_eq!(extension_pattern(&one), "\\.(txt)$");
}

#[test]
fn extensions_discover_exact_suffixes() {
    // extensions rs and py: a.rs and b.py are discovered, a.rsx is not
    let c = Config {
        pattern: "x".to_string(),
        selector: FileSelector::Extensions(vec!["rs".to_string(), "py".to_string()]),
        ignore_case: false,
        count_only: false,
        filename_only: false,
        verbose: false,
    };
    let o = compile_config(&c).ok().expect("extensions should compile");
    let tree = vec![
        FsEntry::File { name: "a.rs".to_string() },
        FsEntry::File { name: "a.rsx".to_string() },
        FsEntry::File { name: "b.py".to_string() },
    ];
    let found = discover(&tree, &o.names);
    assert_eq!(found, vec!["a.rs".to_string(), "b.py".to_string()]);
}

#[test]
fn hidden_directories_are_pruned_entirely() {
    let c = Config {
        pattern: "x".to_string(),
        selector: FileSelector::Patterns(vec!["\\.txt$".to_string()]),
        ignore_case: false,
        count_only: false,
        filename_only: false,
        verbose: false,
    };
    let o = compile_config(&c).ok().expect("name pattern should compile");
    let tree = vec![
        FsEntry::Dir {
            name: ".hidden".to_string(),
            entries: vec![
                FsEntry::File { name: "inside.txt".to_string() },
                FsEntry::Dir {
                    name: "deeper".to_string(),
                    entries: vec![FsEntry::File { name: "deep.txt".to_string() }],
                },
            ],
        },
        FsEntry::Dir {
            name: "visible".to_string(),
            entries: vec![FsEntry::File { name: "seen.txt".to_string() }],
        },
        FsEntry::File { name: "top.txt".to_string() },
    ];
    let found = discover(&tree, &o.names);
    assert_eq!(found, vec!["visible/seen.txt".to_string(), "top.txt".to_string()]);
}

#[test]
fn hidden_name_means_leading_period() {
    assert!(is_hidden_name(".git"));
    assert!(is_hidden_name("."));
    assert!(!is_hidden_name("git"));
    assert!(!is_hidden_name(""));
    assert!(!is_hidden_name("a.hidden"));
}

#[test]
fn two_files_annotated_and_ignore_case_agrees() {
    // two .txt files, content pattern red: both lines printed, each
    // prefixed with its file name; with ignore_case and RED, identical
    let tree = vec![
        FsEntry::File { name: "fruits.txt".to_string() },
        FsEntry::File { name: "rainbow.txt".to_string() },
    ];
    let fruits = lines_of("red apple");
    let rainbow = lines_of("red stripe");
    let mut outputs: Vec<Vec<String>> = Vec::new();
    for (pattern, ignore_case) in [("red", false), ("RED", true)] {
        let c = Config {
            pattern: pattern.to_string(),
            selector: FileSelector::Extensions(vec!["txt".to_string()]),
            ignore_case,
            count_only: false,
            filename_only: false,
            verbose: false,
        };
        let o = compile_config(&c).ok().expect("config should compile");
        let files = discover(&tree, &o.names);
        assert_eq!(files, vec!["fruits.txt".to_string(), "rainbow.txt".to_string()]);
        let single = files.len() == 1;
        let mode = select_mode(o.count_only, o.filename_only, single);
        let mut printed: Vec<String> = Vec::new();
        let mut total: usize = 0;
        for (file, lines) in [(&files[0], &fruits), (&files[1], &rainbow)] {
            let r = scan_lines(&o.content, mode, file, lines);
            printed.extend(r.printed);
            total = add_count(total, r.count);
        }
        assert_eq!(
            printed,
            vec!["fruits.txt: red apple".to_string(), "rainbow.txt: red stripe".to_string()]
        );
        assert_eq!(exit_code(&run_outcome(total)), 0);
        outputs.push(printed);
    }
    assert_eq!(outputs[0], outputs[1]);
}

#[test]
fn whole_run_over_sources() {
    let o = compiled("red");
    let sources = vec![
        SourceLines {
            name: "fruits.txt".to_string(),
            lines: lines_of("red apple\ngreen pear"),
        },
        SourceLines { name: "rainbow.txt".to_string(), lines: lines_of("red stripe") },
    ];
    let r = scan_sources(&o.content, false, false, &sources);
    assert_eq!(
        r.printed,
        vec!["fruits.txt: red apple".to_string(), "rainbow.txt: red stripe".to_string()]
    );
    assert_eq!(r.total, 2);
    assert_eq!(exit_code(&run_outcome(r.total)), 0);

    // counting mode reports the same total and prints nothing per line
    let counted = scan_sources(&o.content, true, false, &sources);
    assert_eq!(counted.total, 2);
    assert!(counted.printed.is_empty());

    // filename-only prints each matching source once
    let names = scan_sources(&o.content, false, true, &sources);
    assert_eq!(names.printed, vec!["fruits.txt".to_string(), "rainbow.txt".to_string()]);

    // a run over a single source prints bare lines
    let single = vec![SourceLines { name: "fruits.txt".to_string(), lines: lines_of("red apple") }];
    let bare = scan_sources(&o.content, false, false, &single);
    assert_eq!(bare.printed, vec!["red apple".to_string()]);
}

#[test]
fn normal_and_count_mode_agree_on_match_count() {
    // the number of lines printed in normal mode equals the number of
    // matching lines, and count mode's total is that same number
    let o = compiled("a");
    let lines = lines_of("alpha\nbeta\npink\ndelta\ngamma\nbanana");
    let bare = scan_lines(&o.content, OutputMode::Bare, "src", &lines);
    let counted = scan_lines(&o.content, OutputMode::CountOnly, "src", &lines);
    assert_eq!(bare.printed.len(), 5);
    assert_eq!(bare.count, 5);
    assert_eq!(counted.count, 5);
    assert!(counted.printed.is_empty());
    assert_eq!(counted.lines_scanned, lines.len());
}

#[test]
fn filename_mode_prints_once_and_stops() {
    let o = compiled("a");
    let lines = lines_of("alpha\nbeta\npink\ndelta");
    let r = scan_lines(&o.content, OutputMode::FilenameOnly, "notes.txt", &lines);
    assert_eq!(r.printed, vec!["notes.txt".to_string()]);
    assert_eq!(r.count, 1);
    // the scan stopped at the first matching line
    assert_eq!(r.lines_scanned, 1);

    let none = scan_lines(&o.content, OutputMode::FilenameOnly, "notes.txt", &lines_of("zzz"));
    assert!(none.printed.is_empty());
    assert_eq!(none.count, 0);
}

#[test]
fn no_filter_reads_stdin_only() {
    let o = compiled("pi");
    assert!(matches!(input_plan(&o), InputPlan::ReadStdin));

    let c = Config {
        pattern: "pi".to_string(),
        selector: FileSelector::Patterns(vec!["\\.txt$".to_string()]),
        ignore_case: false,
        count_only: false,
        filename_only: false,
        verbose: false,
    };
    let o2 = compile_config(&c).ok().expect("config should compile");
    assert!(matches!(input_plan(&o2), InputPlan::SearchFiles));
}

#[test]
fn empty_name_set_accepts_nothing() {
    let set = NamePatternSet::empty();
    assert_eq!(set.len(), 0);
    assert!(!set.matches_name("anything.txt"));
}

#[test]
fn name_set_matches_any_member() {
    let mut set = NamePatternSet::empty();
    set.push_pattern("\\.rs$").ok().expect("pattern should compile");
    set.push_pattern("\\.py$").ok().expect("pattern should compile");
    assert_eq!(set.len(), 2);
    assert!(set.matches_name("main.rs"));
    assert!(set.matches_name("main.py"));
    assert!(!set.matches_name("main.txt"));
}

#[test]
fn content_pattern_is_regex_not_literal() {
    // a match through the compiled expression, not text equality
    let cp = ContentPattern::compile("p.nk", false).ok().expect("pattern should compile");
    assert!(cp.is_match("pink"));
    assert!(cp.is_match("punk rock"));
    assert!(!cp.is_match("pnk"));
    let anchored = ContentPattern::compile("^red", false).ok().expect("pattern should compile");
    assert!(anchored.is_match("red apple"));
    assert!(!anchored.is_match("bright red"));
}

#[test]
fn ignore_case_applies_to_content_only() {
    let cp = ContentPattern::compile("RED", true).ok().expect("pattern should compile");
    assert!(cp.is_match("red stripe"));
    let cs = ContentPattern::compile("RED", false).ok().expect("pattern should compile");
    assert!(!cs.is_match("red stripe"));

    // name patterns stay case-sensitive unless the pattern itself says (?i)
    let mut set = NamePatternSet::empty();
    set.push_pattern("\\.TXT$").ok().expect("pattern should compile");
    assert!(!set.matches_name("fruits.txt"));
    let mut insensitive = NamePatternSet::empty();
    insensitive.push_pattern("(?i)\\.txt$").ok().expect("pattern should compile");
    assert!(insensitive.matches_name("FRUITS.TXT"));
}

#[test]
fn judge_line_follows_mode_priority() {
    let o = compiled("pi");
    match judge_line(&o.content, OutputMode::CountOnly, "f", "pink") {
        LineDirective::CountQuietly => {},
        _ => panic!("count mode counts quietly"),
    }
    match judge_line(&o.content, OutputMode::FilenameOnly, "f", "pink") {
        LineDirective::PrintNameAndStop(t) => assert_eq!(t, "f"),
        _ => panic!("filename mode prints the name and stops"),
    }
    match judge_line(&o.content, OutputMode::Bare, "f", "pink") {
        LineDirective::PrintLine(t) => assert_eq!(t, "pink"),
        _ => panic!("single-source mode prints the bare line"),
    }
    match judge_line(&o.content, OutputMode::Annotated, "f", "pink") {
        LineDirective::PrintLine(t) => assert_eq!(t, "f: pink"),
        _ => panic!("multi-source mode annotates the line"),
    }
    match judge_line(&o.content, OutputMode::Bare, "f", "cheese") {
        LineDirective::Skip => {},
        _ => panic!("a non-matching line is skipped"),
    }
}

#[test]
fn annotate_line_format() {
    assert_eq!(annotate_line("fruits.txt", "red apple"), "fruits.txt: red apple");
    assert_eq!(annotate_line("", ""), ": ");
}

#[test]
fn mode_priority_and_single_source() {
    assert!(matches!(select_mode(true, true, true), OutputMode::CountOnly));
    assert!(matches!(select_mode(false, true, true), OutputMode::FilenameOnly));
    assert!(matches!(select_mode(false, false, true), OutputMode::Bare));
    assert!(matches!(select_mode(false, false, false), OutputMode::Annotated));
}

#[test]
fn scanning_no_lines_finds_nothing() {
    let o = compiled("pi");
    let empty: Vec<String> = Vec::new();
    for mode in [
        OutputMode::CountOnly,
        OutputMode::FilenameOnly,
        OutputMode::Bare,
        OutputMode::Annotated,
    ] {
        let r = scan_lines(&o.content, mode, "f", &empty);
        assert_eq!(r.count, 0);
        assert!(r.printed.is_empty());
        assert_eq!(r.lines_scanned, 0);
    }
}

#[test]
fn empty_extension_list_still_builds_its_alternation() {
    let none: Vec<String> = Vec::new();
    assert_eq!(extension_pattern(&none), "\\.()$");
}

#[test]
fn totals_saturate_instead_of_wrapping() {
    assert_eq!(add_count(3, 4), 7);
    assert_eq!(add_count(usize::MAX - 1, 5), usize::MAX);
    assert_eq!(add_count(usize::MAX, usize::MAX), usize::MAX);
}

#[test]
fn outcome_depends_only_on_total() {
    assert_eq!(exit_code(&run_outcome(0)), 1);
    assert_eq!(exit_code(&run_outcome(1)), 0);
    assert_eq!(exit_code(&run_outcome(usize::MAX)), 0);
}

#[test]
fn file_patterns_take_their_own_error_kind() {
    let e = ConfigError::BadFilePattern("x".to_string());
    assert_eq!(exit_code(&error_status(&e)), 3);
    let e2 = ConfigError::BadPattern("x".to_string());
    assert_eq!(exit_code(&error_status(&e2)), 2);
}
