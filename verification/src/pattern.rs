//! Compiled search patterns: the content pattern tested against each line,
//! and the set of name patterns tested against bare file names.
//!
//! The regex crate does the compiling and the matching; everything it is
//! relied upon for is stated on the trusted items at the top of this module.

use vstd::prelude::*;

verus! {

/// Declares regex::Regex, the compiled regular expression this module holds
/// in its pattern types; its values are opaque here.
#[verifier::external_type_specification]
#[verifier::external_body]
pub struct ExRegex(regex::Regex);

/// The pattern text a compiled regex value was built from.
pub uninterp spec fn regex_pat(re: regex::Regex) -> Seq<char>;

/// The case-insensitivity flag a compiled regex value was built with.
pub uninterp spec fn regex_ci(re: regex::Regex) -> bool;

/// Whether a pattern text compiles under the given case flag.
pub uninterp spec fn regex_ok(pat: Seq<char>, ci: bool) -> bool;

/// Whether the regex compiled from `pat` under case flag `ci` finds a match
/// anywhere in `text`.
pub uninterp spec fn regex_match(pat: Seq<char>, ci: bool, text: Seq<char>) -> bool;

/// Relies on regex::RegexBuilder::{new, case_insensitive, build}: whether a
/// pattern compiles depends only on the pattern text and the case flag, and a
/// compiled value keeps that text and flag.
#[verifier::external_body]
fn build_regex(pattern: &str, case_insensitive: bool) -> (r: Result<regex::Regex, String>)
    ensures
        r is Ok <==> regex_ok(pattern@, case_insensitive),
        r matches Ok(re) ==> regex_pat(re) == pattern@ && regex_ci(re) == case_insensitive,
{
    match regex::RegexBuilder::new(pattern).case_insensitive(case_insensitive).build() {
        Ok(re) => Ok(re),
        Err(e) => Err(format!("{}", e)),
    }
}

/// Relies on regex::Regex::is_match: the result depends only on the pattern
/// text the value was compiled from, its case flag, and the haystack.
#[verifier::external_body]
fn regex_is_match(re: &regex::Regex, text: &str) -> (r: bool)
    ensures
        r == regex_match(regex_pat(*re), regex_ci(*re), text@),
{
    re.is_match(text)
}

/// The compiled expression tested against each line of a source.
pub struct ContentPattern {
    re: regex::Regex,
}

impl ContentPattern {
    /// The pattern text this value was compiled from.
    pub closed spec fn pat(self) -> Seq<char> {
        regex_pat(self.re)
    }

    /// The case-insensitivity flag this value was compiled with.
    pub closed spec fn ci(self) -> bool {
        regex_ci(self.re)
    }

    /// Compile the content pattern; on failure the error text of the regex
    /// crate is handed back.
    pub fn compile(pattern: &str, ignore_case: bool) -> (r: Result<ContentPattern, String>)
        ensures
            r is Ok <==> regex_ok(pattern@, ignore_case),
            r matches Ok(cp) ==> cp.pat() == pattern@ && cp.ci() == ignore_case,
    {
        match build_regex(pattern, ignore_case) {
            Ok(re) => Ok(ContentPattern { re }),
            Err(m) => Err(m),
        }
    }

    /// A line matches iff the expression finds a match anywhere in it.
    pub fn is_match(&self, line: &str) -> (r: bool)
        ensures
            r == regex_match(self.pat(), self.ci(), line@),
    {
        regex_is_match(&self.re, line)
    }
}

/// The compiled name patterns; a bare file name is accepted when any member
/// matches it. An empty set means no file filtering at all.
pub struct NamePatternSet {
    pats: Vec<regex::Regex>,
}

impl NamePatternSet {
    /// How many compiled name patterns the set holds.
    pub closed spec fn size(self) -> nat {
        self.pats@.len()
    }

    /// Whether some member pattern matches the bare name.
    pub closed spec fn accepts(self, name: Seq<char>) -> bool {
        exists|i: int|
            0 <= i < self.pats@.len() && #[trigger] regex_match(
                regex_pat(self.pats@[i]),
                regex_ci(self.pats@[i]),
                name,
            )
    }

    /// The set with no members: every name is refused.
    pub fn empty() -> (r: NamePatternSet)
        ensures
            r.size() == 0,
            forall|name: Seq<char>| !r.accepts(name),
    {
        NamePatternSet { pats: Vec::new() }
    }

    /// Number of members, as a machine integer.
    pub fn len(&self) -> (n: usize)
        ensures
            n == self.size(),
    {
        self.pats.len()
    }

    /// Compile one more name pattern (always case-sensitive: the ignore-case
    /// switch applies only to the content pattern) and add it to the set.
    pub fn push_pattern(&mut self, pattern: &str) -> (r: Result<(), String>)
        ensures
            r is Ok <==> regex_ok(pattern@, false),
            r is Ok ==> final(self).size() == old(self).size() + 1,
            r is Ok ==> forall|name: Seq<char>|
                #[trigger] final(self).accepts(name) == (old(self).accepts(name) || regex_match(
                    pattern@,
                    false,
                    name,
                )),
            r is Err ==> *final(self) == *old(self),
    {
        match build_regex(pattern, false) {
            Ok(re) => {
                self.pats.push(re);
                proof {
                    let ops = old(self).pats@;
                    let ps = self.pats@;
                    assert(ps =~= ops.push(re));
                    assert forall|name: Seq<char>|
                        #[trigger] self.accepts(name) == (old(self).accepts(name) || regex_match(
                            pattern@,
                            false,
                            name,
                        )) by {
                        if self.accepts(name) {
                            let i = choose|i: int|
                                0 <= i < ps.len() && #[trigger] regex_match(
                                    regex_pat(ps[i]),
                                    regex_ci(ps[i]),
                                    name,
                                );
                            if i < ops.len() {
                                assert(regex_match(regex_pat(ops[i]), regex_ci(ops[i]), name));
                            } else {
                                assert(ps[i] == re);
                            }
                        }
                        if old(self).accepts(name) {
                            let i = choose|i: int|
                                0 <= i < ops.len() && #[trigger] regex_match(
                                    regex_pat(ops[i]),
                                    regex_ci(ops[i]),
                                    name,
                                );
                            assert(regex_match(regex_pat(ps[i]), regex_ci(ps[i]), name));
                        }
                        if regex_match(pattern@, false, name) {
                            let n = ops.len() as int;
                            assert(regex_match(regex_pat(ps[n]), regex_ci(ps[n]), name));
                        }
                    }
                }
                Ok(())
            },
            Err(m) => Err(m),
        }
    }

    /// Decides whether any member pattern matches the bare name.
    #[verifier::loop_isolation(false)]
    pub fn matches_name(&self, name: &str) -> (r: bool)
        ensures
            r == self.accepts(name@),
    {
        let mut i: usize = 0;
        while i < self.pats.len()
            invariant
                i <= self.pats@.len(),
                forall|j: int|
                    0 <= j < i ==> !#[trigger] regex_match(
                        regex_pat(self.pats@[j]),
                        regex_ci(self.pats@[j]),
                        name@,
                    ),
            decreases self.pats@.len() - i,
        {
            if regex_is_match(&self.pats[i], name) {
                return true;
            }
            i = i + 1;
        }
        false
    }
}

/// The text joined from the items with `|` between them.
pub open spec fn spec_join_bar(items: Seq<Seq<char>>) -> Seq<char>
    decreases items.len(),
{
    if items.len() == 0 {
        Seq::empty()
    } else if items.len() == 1 {
        items[0]
    } else {
        spec_join_bar(items.drop_last()) + seq!['|'] + items.last()
    }
}

/// The single anchored alternation that a list of bare extensions expands to:
/// a literal period, then the alternatives, anchored at the end of the name.
pub open spec fn spec_ext_pattern(exts: Seq<Seq<char>>) -> Seq<char> {
    seq!['\\', '.', '('] + spec_join_bar(exts) + seq![')', '$']
}

/// Build the pattern text `\.(ext1|ext2|...)$` from bare extensions.
#[verifier::loop_isolation(false)]
pub fn extension_pattern(exts: &Vec<String>) -> (r: String)
    ensures
        r@ == spec_ext_pattern(exts.deep_view()),
{
    proof {
        reveal_strlit("\\.(");
        reveal_strlit("|");
        reveal_strlit(")$");
    }
    let mut s = String::new();
    s.append("\\.(");
    assert(s@ =~= seq!['\\', '.', '('] + spec_join_bar(exts.deep_view().take(0)));
    let mut i: usize = 0;
    while i < exts.len()
        invariant
            i <= exts@.len(),
            s@ == seq!['\\', '.', '('] + spec_join_bar(exts.deep_view().take(i as int)),
        decreases exts@.len() - i,
    {
        if i > 0 {
            s.append("|");
        }
        s.append(exts[i].as_str());
        proof {
            let dv = exts.deep_view();
            assert(dv.take(i + 1).drop_last() =~= dv.take(i as int));
            assert(dv.take(i + 1).last() == dv[i as int]);
            if i == 0 {
                assert(s@ =~= seq!['\\', '.', '('] + spec_join_bar(dv.take(1)));
            } else {
                assert(s@ =~= seq!['\\', '.', '('] + spec_join_bar(dv.take(i + 1)));
            }
        }
        i = i + 1;
    }
    assert(exts.deep_view().take(exts@.len() as int) =~= exts.deep_view());
    s.append(")$");
    assert(s@ =~= spec_ext_pattern(exts.deep_view()));
    s
}

} // verus!
