//! File discovery over a directory tree: walk the entries depth-first,
//! prune every hidden directory (bare name beginning with a period) before
//! descending, and collect the relative paths of the files whose bare name
//! any name pattern matches.

use vstd::prelude::*;

use crate::pattern::NamePatternSet;

verus! {

/// True when a bare file or directory name is hidden: it starts with a period.
pub open spec fn spec_is_hidden(name: Seq<char>) -> bool {
    name.len() > 0 && name[0] == '.'
}

/// Decides whether a bare name is hidden (begins with a period).
pub fn is_hidden_name(name: &str) -> (r: bool)
    ensures
        r == spec_is_hidden(name@),
{
    let n = name.unicode_len();
    n > 0 && name.get_char(0) == '.'
}

/// One entry of a directory tree: a plain file, or a directory with its
/// entries in the order a traversal yields them.
pub enum FsEntry {
    File { name: String },
    Dir { name: String, entries: Vec<FsEntry> },
}

/// The relative paths one entry contributes, in order: a file's path when
/// its bare name is accepted; everything below a directory, with the
/// directory's name added to the prefix — or nothing at all when the
/// directory is hidden.
pub open spec fn spec_discover(e: FsEntry, names: NamePatternSet, prefix: Seq<char>) -> Seq<
    Seq<char>,
>
    decreases e,
{
    match e {
        FsEntry::File { name } => if names.accepts(name@) {
            seq![prefix + name@]
        } else {
            Seq::empty()
        },
        FsEntry::Dir { name, entries } => if spec_is_hidden(name@) {
            Seq::empty()
        } else {
            spec_discover_list(entries@, names, prefix + name@ + seq!['/'])
        },
    }
}

/// The relative paths a list of sibling entries contributes, in order.
pub open spec fn spec_discover_list(
    es: Seq<FsEntry>,
    names: NamePatternSet,
    prefix: Seq<char>,
) -> Seq<Seq<char>>
    decreases es,
{
    if es.len() == 0 {
        Seq::empty()
    } else {
        spec_discover_list(es.drop_last(), names, prefix) + spec_discover(es.last(), names, prefix)
    }
}

/// Append everything one entry contributes to the accumulator.
#[verifier::loop_isolation(false)]
fn discover_entry(e: &FsEntry, names: &NamePatternSet, prefix: &str, out: &mut Vec<String>)
    ensures
        final(out).deep_view() == old(out).deep_view() + spec_discover(*e, *names, prefix@),
    decreases *e,
{
    match e {
        FsEntry::File { name } => {
            if names.matches_name(name.as_str()) {
                let mut p = prefix.to_owned();
                p.append(name.as_str());
                out.push(p);
                assert(out.deep_view() =~= old(out).deep_view() + spec_discover(
                    *e,
                    *names,
                    prefix@,
                ));
            } else {
                assert(out.deep_view() =~= old(out).deep_view() + spec_discover(
                    *e,
                    *names,
                    prefix@,
                ));
            }
        },
        FsEntry::Dir { name, entries } => {
            if !is_hidden_name(name.as_str()) {
                let mut child_prefix = prefix.to_owned();
                child_prefix.append(name.as_str());
                child_prefix.append("/");
                proof {
                    reveal_strlit("/");
                    assert(child_prefix@ =~= prefix@ + name@ + seq!['/']);
                }
                let mut j: usize = 0;
                while j < entries.len()
                    invariant
                        j <= entries@.len(),
                        out.deep_view() == old(out).deep_view() + spec_discover_list(
                            entries@.take(j as int),
                            *names,
                            child_prefix@,
                        ),
                    decreases entries@.len() - j,
                {
                    proof {
                        broadcast use vstd::std_specs::vec::group_vec_axioms;

                        assert(decreases_to!(*e => *entries));
                        assert(decreases_to!(*entries => entries@[j as int]));
                    }
                    discover_entry(&entries[j], names, child_prefix.as_str(), out);
                    proof {
                        assert(entries@.take(j + 1).drop_last() =~= entries@.take(j as int));
                        assert(entries@.take(j + 1).last() == entries@[j as int]);
                        assert(out.deep_view() =~= old(out).deep_view() + spec_discover_list(
                            entries@.take(j + 1),
                            *names,
                            child_prefix@,
                        ));
                    }
                    j = j + 1;
                }
                proof {
                    assert(entries@.take(entries@.len() as int) =~= entries@);
                    assert(out.deep_view() =~= old(out).deep_view() + spec_discover(
                        *e,
                        *names,
                        prefix@,
                    ));
                }
            } else {
                assert(out.deep_view() =~= old(out).deep_view() + spec_discover(
                    *e,
                    *names,
                    prefix@,
                ));
            }
        },
    }
}

/// Walk the tree under an unnamed root and collect, in traversal order, the
/// relative path of every file whose bare name the set accepts, never
/// descending into a hidden directory.
#[verifier::loop_isolation(false)]
pub fn discover(entries: &Vec<FsEntry>, names: &NamePatternSet) -> (r: Vec<String>)
    ensures
        r.deep_view() == spec_discover_list(entries@, *names, Seq::empty()),
{
    let mut out: Vec<String> = Vec::new();
    let mut j: usize = 0;
    while j < entries.len()
        invariant
            j <= entries@.len(),
            out.deep_view() == spec_discover_list(entries@.take(j as int), *names, Seq::empty()),
        decreases entries@.len() - j,
    {
        let ghost prev = out.deep_view();
        discover_entry(&entries[j], names, "", &mut out);
        proof {
            reveal_strlit("");
            assert(""@ =~= Seq::<char>::empty());
            assert(entries@.take(j + 1).drop_last() =~= entries@.take(j as int));
            assert(entries@.take(j + 1).last() == entries@[j as int]);
            assert(out.deep_view() =~= spec_discover_list(
                entries@.take(j + 1),
                *names,
                Seq::empty(),
            ));
        }
        j = j + 1;
    }
    proof {
        assert(entries@.take(entries@.len() as int) =~= entries@);
    }
    out
}

/// A hidden directory and its entire subtree are never present in the
/// discovered sequence: the directory contributes nothing, whatever stands
/// below it and whatever the name patterns are.
pub proof fn lemma_hidden_subtree_pruned(e: FsEntry, names: NamePatternSet, prefix: Seq<char>)
    requires
        e is Dir,
        spec_is_hidden(e->Dir_name@),
    ensures
        spec_discover(e, names, prefix) == Seq::<Seq<char>>::empty(),
{
}

/// Removing a hidden directory from a list of sibling entries leaves the
/// discovered sequence unchanged: nothing in the sequence ever came from it.
pub proof fn lemma_hidden_dir_removable(
    es: Seq<FsEntry>,
    k: int,
    names: NamePatternSet,
    prefix: Seq<char>,
)
    requires
        0 <= k < es.len(),
        es[k] is Dir,
        spec_is_hidden(es[k]->Dir_name@),
    ensures
        spec_discover_list(es, names, prefix) == spec_discover_list(es.remove(k), names, prefix),
    decreases es.len(),
{
    if k == es.len() - 1 {
        assert(es.remove(k) =~= es.drop_last());
        assert(spec_discover(es.last(), names, prefix) == Seq::<Seq<char>>::empty());
        assert(spec_discover_list(es, names, prefix) =~= spec_discover_list(
            es.drop_last(),
            names,
            prefix,
        ));
    } else {
        lemma_hidden_dir_removable(es.drop_last(), k, names, prefix);
        assert(es.remove(k).drop_last() =~= es.drop_last().remove(k));
        assert(es.remove(k).last() == es.last());
    }
}

} // verus!
