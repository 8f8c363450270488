//! Line scanning: decide per line whether it matches, what to print for it,
//! and when to stop reading a source; aggregate counts across sources and
//! turn the total into the run's outcome and exit code.

use vstd::prelude::*;

use crate::config::ConfigError;
use crate::pattern::ContentPattern;
use crate::pattern::regex_match;

verus! {

/// What one run prints per matching line, fixed once from the configuration:
/// only the final count, only each matching source's name, the matching line
/// prefixed with its source's name, or the bare matching line.
#[derive(Clone, Copy, PartialEq, Eq, Structural)]
pub enum OutputMode {
    CountOnly,
    FilenameOnly,
    Annotated,
    Bare,
}

/// The output mode a run uses: counting wins over filename-only, and a run
/// over a single source (one file, or standard input) prints bare lines.
pub open spec fn spec_select_mode(count_only: bool, filename_only: bool, single_source: bool) -> OutputMode {
    if count_only {
        OutputMode::CountOnly
    } else if filename_only {
        OutputMode::FilenameOnly
    } else if single_source {
        OutputMode::Bare
    } else {
        OutputMode::Annotated
    }
}

/// Pick the output mode once, before any source is scanned.
pub fn select_mode(count_only: bool, filename_only: bool, single_source: bool) -> (m: OutputMode)
    ensures
        m == spec_select_mode(count_only, filename_only, single_source),
{
    if count_only {
        OutputMode::CountOnly
    } else if filename_only {
        OutputMode::FilenameOnly
    } else if single_source {
        OutputMode::Bare
    } else {
        OutputMode::Annotated
    }
}

/// A matching line as printed for a multi-source run: the source's display
/// name, a colon and a space, then the line.
pub open spec fn spec_annotated(name: Seq<char>, line: Seq<char>) -> Seq<char> {
    name + seq![':', ' '] + line
}

/// Prefix a matching line with its source's display name.
pub fn annotate_line(name: &str, line: &str) -> (r: String)
    ensures
        r@ == spec_annotated(name@, line@),
{
    proof {
        reveal_strlit(": ");
    }
    let mut s = name.to_owned();
    s.append(": ");
    s.append(line);
    assert(s@ =~= spec_annotated(name@, line@));
    s
}

/// How many of the lines the pattern matches.
pub open spec fn spec_match_count(pat: Seq<char>, ci: bool, lines: Seq<Seq<char>>) -> nat
    decreases lines.len(),
{
    if lines.len() == 0 {
        0
    } else {
        spec_match_count(pat, ci, lines.drop_last()) + if regex_match(pat, ci, lines.last()) {
            1nat
        } else {
            0nat
        }
    }
}

/// What a whole-source scan prints, in order. Counting prints nothing per
/// line; filename-only prints the source's name once if anything matched;
/// the two line modes print every matching line, bare or annotated.
pub open spec fn spec_printed(
    mode: OutputMode,
    name: Seq<char>,
    pat: Seq<char>,
    ci: bool,
    lines: Seq<Seq<char>>,
) -> Seq<Seq<char>>
    decreases lines.len(),
{
    match mode {
        OutputMode::CountOnly => Seq::empty(),
        OutputMode::FilenameOnly => if spec_match_count(pat, ci, lines) > 0 {
            seq![name]
        } else {
            Seq::empty()
        },
        OutputMode::Bare => if lines.len() == 0 {
            Seq::empty()
        } else {
            spec_printed(mode, name, pat, ci, lines.drop_last()) + if regex_match(
                pat,
                ci,
                lines.last(),
            ) {
                seq![lines.last()]
            } else {
                Seq::empty()
            }
        },
        OutputMode::Annotated => if lines.len() == 0 {
            Seq::empty()
        } else {
            spec_printed(mode, name, pat, ci, lines.drop_last()) + if regex_match(
                pat,
                ci,
                lines.last(),
            ) {
                seq![spec_annotated(name, lines.last())]
            } else {
                Seq::empty()
            }
        },
    }
}

/// What to do with one line, in the mode's priority order: counting first,
/// then filename-only (print the name and stop the source), then printing
/// the line itself.
pub enum LineDirective {
    /// The line does not match: print nothing, keep scanning.
    Skip,
    /// The line matches in counting mode: count it silently, keep scanning.
    CountQuietly,
    /// The line matches in filename-only mode: print this text (the source's
    /// name) and stop scanning this source.
    PrintNameAndStop(String),
    /// The line matches in a line-printing mode: print this text (the bare
    /// line, or the annotated line) and keep scanning.
    PrintLine(String),
}

/// Decide what one line of a source calls for. The caller counts the line as
/// matching unless the directive is `Skip`.
pub fn judge_line(content: &ContentPattern, mode: OutputMode, name: &str, line: &str) -> (d:
    LineDirective)
    ensures
        d is Skip <==> !regex_match(content.pat(), content.ci(), line@),
        regex_match(content.pat(), content.ci(), line@) ==> match mode {
            OutputMode::CountOnly => d is CountQuietly,
            OutputMode::FilenameOnly => d matches LineDirective::PrintNameAndStop(t) && t@
                == name@,
            OutputMode::Bare => d matches LineDirective::PrintLine(t) && t@ == line@,
            OutputMode::Annotated => d matches LineDirective::PrintLine(t) && t@
                == spec_annotated(name@, line@),
        },
{
    if !content.is_match(line) {
        return LineDirective::Skip;
    }
    match mode {
        OutputMode::CountOnly => LineDirective::CountQuietly,
        OutputMode::FilenameOnly => LineDirective::PrintNameAndStop(name.to_owned()),
        OutputMode::Bare => LineDirective::PrintLine(line.to_owned()),
        OutputMode::Annotated => LineDirective::PrintLine(annotate_line(name, line)),
    }
}

/// The outcome of scanning one source: how many of the examined lines
/// matched, what was printed for them, and how many lines were examined
/// (fewer than given only when filename-only mode stopped at the first
/// match).
pub struct ScanResult {
    /// The number of examined lines the pattern matched.
    pub count: usize,
    /// The lines printed for this source, in order.
    pub printed: Vec<String>,
    /// How many of the source's lines were examined.
    pub lines_scanned: usize,
}

/// Scan one source, given as its lines in order (without trailing newlines),
/// and report what a run prints for it and how many lines matched.
#[verifier::loop_isolation(false)]
pub fn scan_lines(content: &ContentPattern, mode: OutputMode, name: &str, lines: &Vec<String>) -> (r:
    ScanResult)
    ensures
        r.printed.deep_view() == spec_printed(
            mode,
            name@,
            content.pat(),
            content.ci(),
            lines.deep_view().take(r.lines_scanned as int),
        ),
        r.lines_scanned <= lines.deep_view().len(),
        r.count == spec_match_count(
            content.pat(),
            content.ci(),
            lines.deep_view().take(r.lines_scanned as int),
        ),
        mode is FilenameOnly ==> {
            &&& r.count <= 1
            &&& spec_match_count(content.pat(), content.ci(), lines.deep_view()) > 0
                <==> r.count == 1
            &&& r.count == 0 ==> r.lines_scanned == lines.deep_view().len()
            &&& r.count == 1 ==> r.lines_scanned >= 1 && regex_match(
                content.pat(),
                content.ci(),
                lines.deep_view()[r.lines_scanned - 1],
            ) && spec_match_count(
                content.pat(),
                content.ci(),
                lines.deep_view().take(r.lines_scanned - 1),
            ) == 0
        },
        !(mode is FilenameOnly) ==> r.lines_scanned == lines.deep_view().len(),
{
    let ghost pat = content.pat();
    let ghost ci = content.ci();
    let ghost dv = lines.deep_view();
    let mut count: usize = 0;
    let mut printed: Vec<String> = Vec::new();
    let mut i: usize = 0;
    let mut stopped = false;
    while i < lines.len() && !stopped
        invariant
            i <= dv.len(),
            count == spec_match_count(pat, ci, dv.take(i as int)),
            printed.deep_view() == spec_printed(mode, name@, pat, ci, dv.take(i as int)),
            count <= i,
            !(mode is FilenameOnly) ==> !stopped,
            mode is FilenameOnly && !stopped ==> count == 0,
            mode is FilenameOnly && stopped ==> count == 1 && i >= 1 && regex_match(
                pat,
                ci,
                dv[i - 1],
            ) && spec_match_count(pat, ci, dv.take(i - 1)) == 0,
        decreases dv.len() - i,
    {
        let line: &str = lines[i].as_str();
        assert(line@ == dv[i as int]);
        match judge_line(content, mode, name, line) {
            LineDirective::Skip => {},
            LineDirective::CountQuietly => {
                count = count + 1;
            },
            LineDirective::PrintNameAndStop(t) => {
                count = count + 1;
                printed.push(t);
                stopped = true;
            },
            LineDirective::PrintLine(t) => {
                count = count + 1;
                printed.push(t);
            },
        }
        i = i + 1;
        proof {
            assert(dv.take(i as int).drop_last() =~= dv.take(i - 1));
            assert(dv.take(i as int).last() == dv[i - 1]);
            if regex_match(pat, ci, dv[i - 1]) {
                if mode is Bare || mode is Annotated {
                    assert(printed.deep_view() =~= spec_printed(
                        mode,
                        name@,
                        pat,
                        ci,
                        dv.take(i as int),
                    ));
                }
                if mode is FilenameOnly {
                    assert(spec_match_count(pat, ci, dv.take(i as int)) > 0);
                    assert(printed.deep_view() =~= spec_printed(
                        mode,
                        name@,
                        pat,
                        ci,
                        dv.take(i as int),
                    ));
                }
            } else {
                assert(printed.deep_view() =~= spec_printed(
                    mode,
                    name@,
                    pat,
                    ci,
                    dv.take(i as int),
                ));
            }
        }
    }
    proof {
        if !stopped {
            assert(dv.take(i as int) =~= dv);
        }
        if mode is FilenameOnly && count != 0 {
            lemma_match_count_positive_prefix(pat, ci, dv, i as int);
        }
    }
    ScanResult { count, printed, lines_scanned: i }
}

/// One in-memory source: its display name and its lines in order.
pub struct SourceLines {
    /// The display name: a file's relative path, or empty for standard input.
    pub name: String,
    /// The source's lines, without trailing newlines.
    pub lines: Vec<String>,
}

/// What one source adds to the run's total: in filename-only mode its scan
/// stops at the first match, so it contributes at most one; in every other
/// mode it contributes all its matching lines.
pub open spec fn spec_source_count(
    mode: OutputMode,
    pat: Seq<char>,
    ci: bool,
    lines: Seq<Seq<char>>,
) -> nat {
    if mode is FilenameOnly {
        if spec_match_count(pat, ci, lines) > 0 {
            1
        } else {
            0
        }
    } else {
        spec_match_count(pat, ci, lines)
    }
}

/// The run's exact total over all its sources.
pub open spec fn spec_run_total(
    mode: OutputMode,
    pat: Seq<char>,
    ci: bool,
    sources: Seq<SourceLines>,
) -> nat
    decreases sources.len(),
{
    if sources.len() == 0 {
        0
    } else {
        spec_run_total(mode, pat, ci, sources.drop_last()) + spec_source_count(
            mode,
            pat,
            ci,
            sources.last().lines.deep_view(),
        )
    }
}

/// Everything the run prints for its sources, in source order.
pub open spec fn spec_run_printed(
    mode: OutputMode,
    pat: Seq<char>,
    ci: bool,
    sources: Seq<SourceLines>,
) -> Seq<Seq<char>>
    decreases sources.len(),
{
    if sources.len() == 0 {
        Seq::empty()
    } else {
        spec_run_printed(mode, pat, ci, sources.drop_last()) + spec_printed(
            mode,
            sources.last().name@,
            pat,
            ci,
            sources.last().lines.deep_view(),
        )
    }
}

/// The result of a whole run over in-memory sources.
pub struct RunResult {
    /// The accumulated total, saturated at the largest machine integer.
    pub total: usize,
    /// Every line printed, in order.
    pub printed: Vec<String>,
}

/// Scan every source in order and accumulate the totals, as one run does:
/// the output mode is picked once, a run over exactly one source prints
/// bare lines, and the total says whether anything was found at all.
#[verifier::loop_isolation(false)]
pub fn scan_sources(
    content: &ContentPattern,
    count_only: bool,
    filename_only: bool,
    sources: &Vec<SourceLines>,
) -> (r: RunResult)
    ensures
        ({
            let mode = spec_select_mode(count_only, filename_only, sources@.len() == 1);
            let pat = content.pat();
            let ci = content.ci();
            &&& r.printed.deep_view() == spec_run_printed(mode, pat, ci, sources@)
            &&& spec_run_total(mode, pat, ci, sources@) <= usize::MAX ==> r.total
                == spec_run_total(mode, pat, ci, sources@)
            &&& spec_run_total(mode, pat, ci, sources@) > usize::MAX ==> r.total == usize::MAX
            &&& (r.total > 0 <==> spec_run_total(mode, pat, ci, sources@) > 0)
        }),
{
    let ghost pat = content.pat();
    let ghost ci = content.ci();
    let mode = select_mode(count_only, filename_only, sources.len() == 1);
    let mut total: usize = 0;
    let mut printed: Vec<String> = Vec::new();
    let mut k: usize = 0;
    while k < sources.len()
        invariant
            k <= sources@.len(),
            spec_run_total(mode, pat, ci, sources@.take(k as int)) <= usize::MAX ==> total
                == spec_run_total(mode, pat, ci, sources@.take(k as int)),
            spec_run_total(mode, pat, ci, sources@.take(k as int)) > usize::MAX ==> total
                == usize::MAX,
            printed.deep_view() == spec_run_printed(mode, pat, ci, sources@.take(k as int)),
        decreases sources@.len() - k,
    {
        let source = &sources[k];
        let one = scan_lines(content, mode, source.name.as_str(), &source.lines);
        proof {
            let lv = source.lines.deep_view();
            if mode is FilenameOnly {
                if one.count == 1 {
                    assert(spec_printed(mode, source.name@, pat, ci, lv.take(
                        one.lines_scanned as int,
                    )) =~= seq![source.name@]);
                    assert(spec_printed(mode, source.name@, pat, ci, lv) =~= seq![source.name@]);
                } else {
                    assert(lv.take(one.lines_scanned as int) =~= lv);
                }
                assert(one.count == spec_source_count(mode, pat, ci, lv));
            } else {
                assert(lv.take(one.lines_scanned as int) =~= lv);
            }
        }
        total = add_count(total, one.count);
        let mut fresh = one.printed;
        let ghost prev = printed.deep_view();
        let ghost add = fresh.deep_view();
        printed.append(&mut fresh);
        proof {
            assert(printed.deep_view() =~= prev + add);
            assert(sources@.take(k + 1).drop_last() =~= sources@.take(k as int));
            assert(sources@.take(k + 1).last() == sources@[k as int]);
            assert(printed.deep_view() =~= spec_run_printed(mode, pat, ci, sources@.take(k + 1)));
        }
        k = k + 1;
    }
    proof {
        assert(sources@.take(sources@.len() as int) =~= sources@);
    }
    RunResult { total, printed }
}

/// Whether a run finds anything does not depend on the output mode: the
/// accumulated total is positive exactly when some source has a matching
/// line, in every mode.
pub proof fn lemma_found_independent_of_mode(
    mode: OutputMode,
    pat: Seq<char>,
    ci: bool,
    sources: Seq<SourceLines>,
)
    ensures
        spec_run_total(mode, pat, ci, sources) > 0 <==> exists|k: int|
            0 <= k < sources.len() && spec_match_count(
                pat,
                ci,
                #[trigger] sources[k].lines.deep_view(),
            ) > 0,
    decreases sources.len(),
{
    if sources.len() > 0 {
        lemma_found_independent_of_mode(mode, pat, ci, sources.drop_last());
        let n = sources.len() - 1;
        if spec_run_total(mode, pat, ci, sources) > 0 {
            if spec_source_count(mode, pat, ci, sources.last().lines.deep_view()) > 0 {
                assert(spec_match_count(pat, ci, sources[n].lines.deep_view()) > 0);
            } else {
                let k = choose|k: int|
                    0 <= k < sources.drop_last().len() && spec_match_count(
                        pat,
                        ci,
                        #[trigger] sources.drop_last()[k].lines.deep_view(),
                    ) > 0;
                assert(sources[k] == sources.drop_last()[k]);
                assert(spec_match_count(pat, ci, sources[k].lines.deep_view()) > 0);
            }
        }
        if exists|k: int|
            0 <= k < sources.len() && spec_match_count(
                pat,
                ci,
                #[trigger] sources[k].lines.deep_view(),
            ) > 0 {
            let k = choose|k: int|
                0 <= k < sources.len() && spec_match_count(
                    pat,
                    ci,
                    #[trigger] sources[k].lines.deep_view(),
                ) > 0;
            if k == n {
                assert(spec_source_count(mode, pat, ci, sources.last().lines.deep_view()) > 0);
            } else {
                assert(sources.drop_last()[k] == sources[k]);
                assert(spec_run_total(mode, pat, ci, sources.drop_last()) > 0);
            }
        }
    }
}

/// Add one source's match count to the running total, saturating at the
/// largest machine integer.
pub fn add_count(total: usize, c: usize) -> (t: usize)
    ensures
        total + c <= usize::MAX ==> t == total + c,
        total + c > usize::MAX ==> t == usize::MAX,
{
    if total <= usize::MAX - c {
        total + c
    } else {
        usize::MAX
    }
}

/// How a finished run ended, as reflected in the process exit status.
pub enum RunStatus {
    /// At least one match was found.
    Found,
    /// No match was found anywhere.
    NotFound,
    /// The content pattern did not compile.
    BadPattern,
    /// A file-name pattern or the extension alternation did not compile.
    BadFilePattern,
    /// A file selected for scanning could not be opened.
    OpenFileError,
}

/// The exit code each outcome maps to.
pub open spec fn spec_exit_code(s: RunStatus) -> int {
    match s {
        RunStatus::Found => 0,
        RunStatus::NotFound => 1,
        RunStatus::BadPattern => 2,
        RunStatus::BadFilePattern => 3,
        RunStatus::OpenFileError => 4,
    }
}

/// The process exit code for an outcome.
pub fn exit_code(s: &RunStatus) -> (c: i32)
    ensures
        c == spec_exit_code(*s),
{
    match s {
        RunStatus::Found => 0,
        RunStatus::NotFound => 1,
        RunStatus::BadPattern => 2,
        RunStatus::BadFilePattern => 3,
        RunStatus::OpenFileError => 4,
    }
}

/// The outcome of a finished run: found exactly when the accumulated total
/// is positive, whatever the output mode was.
pub fn run_outcome(total: usize) -> (s: RunStatus)
    ensures
        s is Found <==> total > 0,
        s is Found || s is NotFound,
{
    if total > 0 {
        RunStatus::Found
    } else {
        RunStatus::NotFound
    }
}

/// The outcome a configuration error ends the run with: a bad content
/// pattern and a bad file-name pattern exit with distinct codes.
pub fn error_status(e: &ConfigError) -> (s: RunStatus)
    ensures
        e is BadPattern <==> s is BadPattern,
        e is BadFilePattern || e is BadExtPattern <==> s is BadFilePattern,
{
    match e {
        ConfigError::BadPattern(_) => RunStatus::BadPattern,
        ConfigError::BadFilePattern(_) => RunStatus::BadFilePattern,
        ConfigError::BadExtPattern(_) => RunStatus::BadFilePattern,
    }
}

/// In the two line-printing modes, exactly the matching lines are printed:
/// the number of lines printed equals the number of lines the pattern
/// matches, and that is the same number counting mode reports as its total.
pub proof fn lemma_printed_equals_match_count(
    mode: OutputMode,
    name: Seq<char>,
    pat: Seq<char>,
    ci: bool,
    lines: Seq<Seq<char>>,
)
    requires
        mode is Bare || mode is Annotated,
    ensures
        spec_printed(mode, name, pat, ci, lines).len() == spec_match_count(pat, ci, lines),
    decreases lines.len(),
{
    if lines.len() > 0 {
        lemma_printed_equals_match_count(mode, name, pat, ci, lines.drop_last());
    }
}

/// Across a whole run in the two line-printing modes, the number of lines
/// printed equals the run's total of matching lines — the same number a
/// counting run reports.
pub proof fn lemma_run_printed_equals_run_total(
    mode: OutputMode,
    pat: Seq<char>,
    ci: bool,
    sources: Seq<SourceLines>,
)
    requires
        mode is Bare || mode is Annotated,
    ensures
        spec_run_printed(mode, pat, ci, sources).len() == spec_run_total(mode, pat, ci, sources),
    decreases sources.len(),
{
    if sources.len() > 0 {
        lemma_run_printed_equals_run_total(mode, pat, ci, sources.drop_last());
        lemma_printed_equals_match_count(
            mode,
            sources.last().name@,
            pat,
            ci,
            sources.last().lines.deep_view(),
        );
    }
}

/// Filename-only mode prints at most one line per source: nothing when no
/// line matched, and the source's name exactly once otherwise.
pub proof fn lemma_filename_mode_prints_at_most_once(
    name: Seq<char>,
    pat: Seq<char>,
    ci: bool,
    lines: Seq<Seq<char>>,
)
    ensures
        spec_printed(OutputMode::FilenameOnly, name, pat, ci, lines).len() <= 1,
        spec_match_count(pat, ci, lines) == 0 <==> spec_printed(
            OutputMode::FilenameOnly,
            name,
            pat,
            ci,
            lines,
        ).len() == 0,
        spec_match_count(pat, ci, lines) > 0 ==> spec_printed(
            OutputMode::FilenameOnly,
            name,
            pat,
            ci,
            lines,
        ) == seq![name],
{
}

/// A prefix that ends in a match makes the whole sequence's match count
/// positive.
proof fn lemma_match_count_positive_prefix(pat: Seq<char>, ci: bool, lines: Seq<Seq<char>>, i: int)
    requires
        0 < i <= lines.len(),
        regex_match(pat, ci, lines[i - 1]),
    ensures
        spec_match_count(pat, ci, lines) > 0,
    decreases lines.len(),
{
    if lines.len() == i {
        assert(lines.last() == lines[i - 1]);
    } else {
        assert(lines.drop_last()[i - 1] == lines[i - 1]);
        lemma_match_count_positive_prefix(pat, ci, lines.drop_last(), i);
    }
}

} // verus!
