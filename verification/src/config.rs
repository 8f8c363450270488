//! Configuration handed in by the command-line layer, and its compilation
//! into ready-to-use patterns. Content-pattern failure and name-pattern
//! failure are distinct errors, so the caller can exit with distinct codes.

use vstd::prelude::*;

use crate::pattern::ContentPattern;
use crate::pattern::NamePatternSet;
use crate::pattern::extension_pattern;
use crate::pattern::regex_ok;
use crate::pattern::regex_match;
use crate::pattern::spec_ext_pattern;

verus! {

/// How files are selected: explicit name patterns, bare extensions, or no
/// filtering at all (the run then reads standard input).
pub enum FileSelector {
    Patterns(Vec<String>),
    Extensions(Vec<String>),
    NoFilter,
}

/// The semantic configuration of one run, free of any flag syntax.
pub struct Config {
    /// The regular expression searched for in each line.
    pub pattern: String,
    /// How files are selected.
    pub selector: FileSelector,
    /// Case-insensitive matching; applies only to the content pattern.
    pub ignore_case: bool,
    /// Print only the total number of matching lines.
    pub count_only: bool,
    /// Print only the names of sources that match.
    pub filename_only: bool,
    /// Echo the compiled pattern and the file count to diagnostic output.
    pub verbose: bool,
}

/// A configuration error; each variant carries the compiler's error text.
pub enum ConfigError {
    /// The content pattern did not compile.
    BadPattern(String),
    /// An explicit file-name pattern did not compile.
    BadFilePattern(String),
    /// The alternation built from the extension list did not compile.
    BadExtPattern(String),
}

/// Compiled patterns and the output switches, ready for a run.
pub struct Options {
    /// The compiled content pattern.
    pub content: ContentPattern,
    /// The compiled name patterns; empty means read standard input.
    pub names: NamePatternSet,
    /// Print only the total number of matching lines.
    pub count_only: bool,
    /// Print only the names of sources that match.
    pub filename_only: bool,
    /// Echo the compiled pattern and the file count to diagnostic output.
    pub verbose: bool,
}

/// Whether every pattern text in the list compiles (case-sensitively).
pub open spec fn spec_all_patterns_ok(pats: Seq<Seq<char>>) -> bool {
    forall|i: int| 0 <= i < pats.len() ==> regex_ok(#[trigger] pats[i], false)
}

/// Whether any pattern text in the list matches the bare name.
pub open spec fn spec_patterns_accept(pats: Seq<Seq<char>>, name: Seq<char>) -> bool {
    exists|i: int| 0 <= i < pats.len() && regex_match(#[trigger] pats[i], false, name)
}

/// Whether every name pattern the selector asks for compiles.
pub open spec fn spec_selector_ok(sel: FileSelector) -> bool {
    match sel {
        FileSelector::Patterns(ps) => spec_all_patterns_ok(ps.deep_view()),
        FileSelector::Extensions(es) => regex_ok(spec_ext_pattern(es.deep_view()), false),
        FileSelector::NoFilter => true,
    }
}

/// Whether the selector, once compiled, accepts a bare file name.
pub open spec fn spec_selector_accepts(sel: FileSelector, name: Seq<char>) -> bool {
    match sel {
        FileSelector::Patterns(ps) => spec_patterns_accept(ps.deep_view(), name),
        FileSelector::Extensions(es) => regex_match(spec_ext_pattern(es.deep_view()), false, name),
        FileSelector::NoFilter => false,
    }
}

/// How many compiled name patterns the selector yields.
pub open spec fn spec_selector_size(sel: FileSelector) -> nat {
    match sel {
        FileSelector::Patterns(ps) => ps.deep_view().len(),
        FileSelector::Extensions(es) => 1,
        FileSelector::NoFilter => 0,
    }
}

/// Whether the whole configuration compiles: the name patterns and the
/// content pattern.
pub open spec fn spec_config_ok(c: Config) -> bool {
    spec_selector_ok(c.selector) && regex_ok(c.pattern@, c.ignore_case)
}

/// Compile the explicit file-name patterns, stopping at the first failure.
#[verifier::loop_isolation(false)]
fn compile_name_patterns(ps: &Vec<String>) -> (r: Result<NamePatternSet, String>)
    ensures
        r is Ok <==> spec_all_patterns_ok(ps.deep_view()),
        r matches Ok(set) ==> {
            &&& set.size() == ps.deep_view().len()
            &&& forall|name: Seq<char>|
                #[trigger] set.accepts(name) == spec_patterns_accept(ps.deep_view(), name)
        },
{
    let ghost dv = ps.deep_view();
    let mut set = NamePatternSet::empty();
    let mut i: usize = 0;
    while i < ps.len()
        invariant
            i <= ps@.len(),
            set.size() == i,
            forall|j: int| 0 <= j < i ==> regex_ok(#[trigger] dv[j], false),
            forall|name: Seq<char>|
                #[trigger] set.accepts(name) == exists|j: int|
                    0 <= j < i && regex_match(#[trigger] dv[j], false, name),
        decreases ps@.len() - i,
    {
        let ghost old_set = set;
        let p: &str = ps[i].as_str();
        assert(p@ == dv[i as int]);
        match set.push_pattern(p) {
            Ok(()) => {},
            Err(m) => {
                assert(!spec_all_patterns_ok(dv)) by {
                    assert(!regex_ok(dv[i as int], false));
                }
                return Err(m);
            },
        }
        proof {
            assert forall|name: Seq<char>|
                #[trigger] set.accepts(name) == exists|j: int|
                    0 <= j < i + 1 && regex_match(#[trigger] dv[j], false, name) by {
                if set.accepts(name) {
                    if old_set.accepts(name) {
                        let j = choose|j: int|
                            0 <= j < i && regex_match(#[trigger] dv[j], false, name);
                        assert(0 <= j < i + 1 && regex_match(dv[j], false, name));
                    } else {
                        assert(regex_match(dv[i as int], false, name));
                    }
                }
                if exists|j: int| 0 <= j < i + 1 && regex_match(#[trigger] dv[j], false, name) {
                    let j = choose|j: int|
                        0 <= j < i + 1 && regex_match(#[trigger] dv[j], false, name);
                    if j < i {
                        assert(old_set.accepts(name));
                    } else {
                        assert(regex_match(dv[i as int], false, name));
                    }
                    assert(set.accepts(name));
                }
            }
        }
        i = i + 1;
    }
    proof {
        assert forall|name: Seq<char>| #[trigger]
            set.accepts(name) == spec_patterns_accept(dv, name) by {
            if set.accepts(name) {
                let j = choose|j: int|
                    0 <= j < i && regex_match(#[trigger] dv[j], false, name);
                assert(spec_patterns_accept(dv, name));
            }
            if spec_patterns_accept(dv, name) {
                let j = choose|j: int|
                    0 <= j < dv.len() && regex_match(#[trigger] dv[j], false, name);
                assert(exists|j: int| 0 <= j < i && regex_match(#[trigger] dv[j], false, name));
            }
        }
    }
    Ok(set)
}

/// Compile the extension list into its single anchored alternation.
fn compile_extension_set(es: &Vec<String>) -> (r: Result<NamePatternSet, String>)
    ensures
        r is Ok <==> spec_selector_ok(FileSelector::Extensions(*es)),
        r matches Ok(set) ==> {
            &&& set.size() == 1
            &&& forall|name: Seq<char>|
                #[trigger] set.accepts(name) == spec_selector_accepts(
                    FileSelector::Extensions(*es),
                    name,
                )
        },
{
    let text = extension_pattern(es);
    let mut set = NamePatternSet::empty();
    match set.push_pattern(text.as_str()) {
        Ok(()) => Ok(set),
        Err(m) => Err(m),
    }
}

/// Compile the whole configuration. Name patterns are compiled first, then
/// the content pattern; the error variant says which of the two failed.
pub fn compile_config(c: &Config) -> (r: Result<Options, ConfigError>)
    ensures
        r is Ok <==> spec_config_ok(*c),
        !spec_selector_ok(c.selector) ==> match r {
            Result::Err(e) => match c.selector {
                FileSelector::Patterns(_) => e is BadFilePattern,
                FileSelector::Extensions(_) => e is BadExtPattern,
                FileSelector::NoFilter => false,
            },
            Result::Ok(_) => false,
        },
        spec_selector_ok(c.selector) && !regex_ok(c.pattern@, c.ignore_case) ==> (r matches Result::Err(e) && e is BadPattern),
        r matches Ok(o) ==> {
            &&& o.content.pat() == c.pattern@
            &&& o.content.ci() == c.ignore_case
            &&& o.names.size() == spec_selector_size(c.selector)
            &&& forall|name: Seq<char>|
                #[trigger] o.names.accepts(name) == spec_selector_accepts(c.selector, name)
            &&& o.count_only == c.count_only
            &&& o.filename_only == c.filename_only
            &&& o.verbose == c.verbose
        },
{
    let names = match &c.selector {
        FileSelector::Patterns(ps) => {
            match compile_name_patterns(ps) {
                Ok(set) => set,
                Err(m) => {
                    return Err(ConfigError::BadFilePattern(m));
                },
            }
        },
        FileSelector::Extensions(es) => {
            match compile_extension_set(es) {
                Ok(set) => set,
                Err(m) => {
                    return Err(ConfigError::BadExtPattern(m));
                },
            }
        },
        FileSelector::NoFilter => NamePatternSet::empty(),
    };
    let content = match ContentPattern::compile(c.pattern.as_str(), c.ignore_case) {
        Ok(cp) => cp,
        Err(m) => {
            return Err(ConfigError::BadPattern(m));
        },
    };
    Ok(
        Options {
            content,
            names,
            count_only: c.count_only,
            filename_only: c.filename_only,
            verbose: c.verbose,
        },
    )
}

/// What the run reads: standard input when no file filtering was asked for,
/// otherwise the files a directory walk discovers.
pub enum InputPlan {
    ReadStdin,
    SearchFiles,
}

/// Decide where the input comes from. Standard input is read exactly when
/// the compiled name-pattern set is empty, so a run given no file or
/// extension arguments never touches the filesystem.
pub fn input_plan(o: &Options) -> (p: InputPlan)
    ensures
        p is ReadStdin <==> o.names.size() == 0,
{
    if o.names.len() == 0 {
        InputPlan::ReadStdin
    } else {
        InputPlan::SearchFiles
    }
}

impl ConfigError {
    /// The full diagnostic line for this error.
    pub fn message(&self) -> (m: String)
        ensures
            self matches ConfigError::BadPattern(s) ==> m@ == "grepr: Error in pattern: "@ + s@,
            self matches ConfigError::BadFilePattern(s) ==> m@ == "grepr: Error in file pattern: "@
                + s@,
            self matches ConfigError::BadExtPattern(s) ==> m@ == "grepr: Error in ext pattern: "@
                + s@,
    {
        match self {
            ConfigError::BadPattern(s) => {
                let mut m = "grepr: Error in pattern: ".to_owned();
                m.append(s.as_str());
                m
            },
            ConfigError::BadFilePattern(s) => {
                let mut m = "grepr: Error in file pattern: ".to_owned();
                m.append(s.as_str());
                m
            },
            ConfigError::BadExtPattern(s) => {
                let mut m = "grepr: Error in ext pattern: ".to_owned();
                m.append(s.as_str());
                m
            },
        }
    }
}

} // verus!
