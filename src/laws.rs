//! Laws of a batch run, stated over the model of `batch` and `paths`.
use vstd::prelude::*;
use crate::batch::{selected, selects, written};
use crate::filter::is_supported;
use crate::paths::{
    base_name, has_file_name, join, last_index_of, lemma_last_index_of, output_location,
    output_name, stem,
};

verus! {

/// A file is converted exactly when some entry reports it as a regular file
/// with an accepted extension.
pub proof fn lemma_selected_contains(entries: Seq<(Seq<char>, bool)>, p: Seq<char>)
    ensures
        selected(entries).contains(p) <==> (entries.contains((p, true)) && is_supported(p)),
    decreases entries.len(),
{
    if entries.len() > 0 {
        let prev = entries.drop_last();
        let last = entries.last();
        lemma_selected_contains(prev, p);
        assert(entries =~= prev.push(last));
        assert(entries.contains((p, true)) <==> (prev.contains((p, true)) || last == (p, true)))
            by {
            if entries.contains((p, true)) {
                let i = choose|i: int| 0 <= i < entries.len() && entries[i] == (p, true);
                if i < entries.len() - 1 {
                    assert(prev[i] == (p, true));
                }
            }
            if prev.contains((p, true)) {
                let i = choose|i: int| 0 <= i < prev.len() && prev[i] == (p, true);
                assert(entries[i] == (p, true));
            }
        }
        let sp = selected(prev);
        if selects(last.0, last.1) {
            assert(selected(entries) == sp.push(last.0));
            assert(sp.push(last.0).contains(p) <==> (sp.contains(p) || last.0 == p)) by {
                if sp.push(last.0).contains(p) {
                    let i = choose|i: int|
                        0 <= i < sp.push(last.0).len() && sp.push(last.0)[i] == p;
                    if i < sp.len() {
                        assert(sp[i] == p);
                    }
                }
                if sp.contains(p) {
                    let i = choose|i: int| 0 <= i < sp.len() && sp[i] == p;
                    assert(sp.push(last.0)[i] == p);
                }
                assert(sp.push(last.0)[sp.len() as int] == last.0);
            }
        } else {
            assert(selected(entries) == sp);
        }
    }
}

/// An output file is present exactly when some converted source maps to it,
/// and it then holds the last such source.
pub proof fn lemma_written(out_dir: Seq<char>, sources: Seq<Seq<char>>, k: Seq<char>)
    ensures
        written(out_dir, sources).dom().contains(k) <==> exists|i: int|
            0 <= i < sources.len() && output_location(out_dir, #[trigger] sources[i]) == k,
        written(out_dir, sources).dom().contains(k) ==> exists|i: int|
            0 <= i < sources.len() && written(out_dir, sources)[k] == sources[i]
                && output_location(out_dir, #[trigger] sources[i]) == k && forall|j: int|
                i < j < sources.len() ==> output_location(out_dir, #[trigger] sources[j]) != k,
    decreases sources.len(),
{
    if sources.len() > 0 {
        let prev = sources.drop_last();
        let n = sources.len() - 1;
        lemma_written(out_dir, prev, k);
        if output_location(out_dir, sources[n]) == k {
            assert(0 <= n < sources.len() && output_location(out_dir, sources[n]) == k);
        } else {
            if exists|i: int| 0 <= i < sources.len() && output_location(out_dir, sources[i]) == k {
                let i = choose|i: int|
                    0 <= i < sources.len() && output_location(out_dir, #[trigger] sources[i])
                        == k;
                assert(prev[i] == sources[i]);
            }
            if written(out_dir, prev).dom().contains(k) {
                let i = choose|i: int|
                    0 <= i < prev.len() && written(out_dir, prev)[k] == prev[i] && output_location(
                        out_dir,
                        #[trigger] prev[i],
                    ) == k && forall|j: int|
                        i < j < prev.len() ==> output_location(out_dir, #[trigger] prev[j]) != k;
                assert(sources[i] == prev[i]);
                assert forall|j: int| i < j < sources.len() implies output_location(
                    out_dir,
                    #[trigger] sources[j],
                ) != k by {
                    if j < n {
                        assert(sources[j] == prev[j]);
                    }
                }
            }
        }
    }
}

/// After a run, every regular file with an accepted extension that the walk
/// reported has its WebP file in the output root.
pub proof fn every_accepted_file_has_output(
    out_dir: Seq<char>,
    entries: Seq<(Seq<char>, bool)>,
    i: int,
)
    requires
        0 <= i < entries.len(),
        entries[i].1,
        is_supported(entries[i].0),
    ensures
        written(out_dir, selected(entries)).dom().contains(output_location(out_dir, entries[i].0)),
{
    let p = entries[i].0;
    assert(entries[i] == (p, true));
    assert(entries.contains((p, true)));
    lemma_selected_contains(entries, p);
    let s = selected(entries);
    let j = choose|j: int| 0 <= j < s.len() && s[j] == p;
    lemma_written(out_dir, s, output_location(out_dir, p));
}

/// An entry that is not a regular file with an accepted extension (another
/// extension, none, or `.webp`) is not converted and writes nothing.
pub proof fn rejected_entry_writes_nothing(
    out_dir: Seq<char>,
    entries: Seq<(Seq<char>, bool)>,
    p: Seq<char>,
    is_file: bool,
)
    requires
        !selects(p, is_file),
    ensures
        selected(entries.push((p, is_file))) == selected(entries),
        written(out_dir, selected(entries.push((p, is_file)))) == written(
            out_dir,
            selected(entries),
        ),
{
    assert(entries.push((p, is_file)).drop_last() =~= entries);
}

/// Every file in the output root comes from a regular file with an accepted
/// extension that the walk reported.
pub proof fn every_output_has_accepted_source(
    out_dir: Seq<char>,
    entries: Seq<(Seq<char>, bool)>,
    k: Seq<char>,
)
    requires
        written(out_dir, selected(entries)).dom().contains(k),
    ensures
        exists|p: Seq<char>|
            entries.contains((p, true)) && is_supported(p) && #[trigger] output_location(
                out_dir,
                p,
            ) == k,
{
    let s = selected(entries);
    lemma_written(out_dir, s, k);
    let i = choose|i: int| 0 <= i < s.len() && output_location(out_dir, #[trigger] s[i]) == k;
    assert(s.contains(s[i]));
    lemma_selected_contains(entries, s[i]);
}

/// The set of output files depends only on which entries the walk reports,
/// not on their order: two runs over the same unchanged tree leave the same
/// output paths.
pub proof fn output_paths_independent_of_order(
    out_dir: Seq<char>,
    e1: Seq<(Seq<char>, bool)>,
    e2: Seq<(Seq<char>, bool)>,
)
    requires
        forall|x: (Seq<char>, bool)| e1.contains(x) <==> e2.contains(x),
    ensures
        written(out_dir, selected(e1)).dom() == written(out_dir, selected(e2)).dom(),
{
    assert forall|k: Seq<char>|
        written(out_dir, selected(e1)).dom().contains(k) implies written(
            out_dir,
            selected(e2),
        ).dom().contains(k) by {
        one_way(out_dir, e1, e2, k);
    }
    assert forall|k: Seq<char>|
        written(out_dir, selected(e2)).dom().contains(k) implies written(
            out_dir,
            selected(e1),
        ).dom().contains(k) by {
        one_way(out_dir, e2, e1, k);
    }
    assert(written(out_dir, selected(e1)).dom() =~= written(out_dir, selected(e2)).dom());
}

proof fn one_way(
    out_dir: Seq<char>,
    e1: Seq<(Seq<char>, bool)>,
    e2: Seq<(Seq<char>, bool)>,
    k: Seq<char>,
)
    requires
        forall|x: (Seq<char>, bool)| e1.contains(x) <==> e2.contains(x),
        written(out_dir, selected(e1)).dom().contains(k),
    ensures
        written(out_dir, selected(e2)).dom().contains(k),
{
    every_output_has_accepted_source(out_dir, e1, k);
    let p = choose|p: Seq<char>|
        e1.contains((p, true)) && is_supported(p) && #[trigger] output_location(out_dir, p) == k;
    assert(e2.contains((p, true)));
    let i = choose|i: int| 0 <= i < e2.len() && e2[i] == (p, true);
    every_accepted_file_has_output(out_dir, e2, i);
}

/// Two files whose base names agree but for the extension, wherever they
/// lie under the source root, map to the same output file.
pub proof fn same_stem_same_output(out_dir: Seq<char>, p1: Seq<char>, p2: Seq<char>)
    requires
        stem(base_name(p1)) == stem(base_name(p2)),
    ensures
        output_location(out_dir, p1) == output_location(out_dir, p2),
{
}

/// When two converted files map to the same output file, the one converted
/// later is what the output root holds, and the earlier leaves no trace.
pub proof fn later_file_wins(
    out_dir: Seq<char>,
    sources: Seq<Seq<char>>,
    p1: Seq<char>,
    p2: Seq<char>,
)
    requires
        output_location(out_dir, p1) == output_location(out_dir, p2),
    ensures
        written(out_dir, sources.push(p1).push(p2)) == written(out_dir, sources.push(p2)),
        written(out_dir, sources.push(p1).push(p2))[output_location(out_dir, p1)] == p2,
{
    let k = output_location(out_dir, p1);
    let s1 = sources.push(p1);
    let s12 = s1.push(p2);
    let s2 = sources.push(p2);
    assert(s12.drop_last() =~= s1);
    assert(s1.drop_last() =~= sources);
    assert(s2.drop_last() =~= sources);
    assert(written(out_dir, s12) == written(out_dir, s1).insert(k, p2));
    assert(written(out_dir, s1) == written(out_dir, sources).insert(k, p1));
    assert(written(out_dir, s2) == written(out_dir, sources).insert(k, p2));
    assert(written(out_dir, sources).insert(k, p1).insert(k, p2) =~= written(out_dir, sources).insert(
        k,
        p2,
    ));
}

/// Every output file lies directly inside the output root: its name holds
/// no `/`, so creating the root is all that a write needs.
pub proof fn output_lies_in_root(out_dir: Seq<char>, p: Seq<char>)
    requires
        has_file_name(p),
    ensures
        output_location(out_dir, p) == join(out_dir, output_name(p)),
        forall|j: int| 0 <= j < output_name(p).len() ==> output_name(p)[j] != '/',
{
    let b = base_name(p);
    lemma_last_index_of(p, '/');
    lemma_last_index_of(b, '.');
    let start = last_index_of(p, '/') + 1;
    assert forall|j: int| 0 <= j < b.len() implies b[j] != '/' by {
        assert(b[j] == p[start + j]);
    }
    let s = stem(b);
    assert forall|j: int| 0 <= j < output_name(p).len() implies output_name(p)[j] != '/' by {
        if j < s.len() {
            assert(output_name(p)[j] == s[j]);
            assert(s[j] == b[j]);
        } else {
            reveal_with_fuel(crate::paths::webp_suffix, 1);
        }
    }
}

} // verus!
