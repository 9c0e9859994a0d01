use vstd::prelude::*;
use crate::strutil::{extension, extension_of, str_eq};

verus! {

broadcast use vstd::seq_lib::group_to_multiset_ensures;

/// A candidate file as a directory listing yields it: its path and its
/// modification time, seconds since some fixed epoch. Captured once and
/// never mutated.
#[derive(Debug)]
pub struct FileHandle {
    pub path: String,
    pub mtime: u64,
}

/// The views of a list of extension strings.
pub open spec fn ext_views(exts: Seq<String>) -> Seq<Seq<char>> {
    exts.map_values(|e: String| e@)
}

/// Whether a scan keeps the file at path `p`: its extension is one of `exts`,
/// or it has none and `exts` asks for exactly that by being empty.
pub open spec fn spec_keep_path(p: Seq<char>, exts: Seq<Seq<char>>) -> bool {
    match extension_of(p) {
        Some(e) => exts.contains(e),
        None => exts.len() == 0,
    }
}

/// `spec_keep_path`, of a candidate entry.
pub open spec fn spec_keep(h: FileHandle, exts: Seq<Seq<char>>) -> bool {
    spec_keep_path(h.path@, exts)
}

/// The entries a scan keeps, in listing order.
pub open spec fn kept_of(entries: Seq<FileHandle>, exts: Seq<Seq<char>>) -> Seq<FileHandle> {
    entries.filter(|h: FileHandle| spec_keep(h, exts))
}

/// Sorted by modification time, most recent first.
pub open spec fn sorted_desc(s: Seq<FileHandle>) -> bool {
    forall|i: int, j: int| 0 <= i < j < s.len() ==> s[i].mtime >= s[j].mtime
}

fn contains_str(exts: &Vec<String>, e: &str) -> (r: bool)
    ensures
        r == ext_views(exts@).contains(e@),
{
    let n = exts.len();
    let mut i: usize = 0;
    while i < n
        invariant
            i <= n,
            n == exts@.len(),
            forall|j: int| 0 <= j < i ==> ext_views(exts@)[j] != e@,
        decreases n - i,
    {
        if str_eq(exts[i].as_str(), e) {
            assert(ext_views(exts@)[i as int] == e@);
            return true;
        }
        i = i + 1;
    }
    assert(!ext_views(exts@).contains(e@));
    false
}

fn keep_file(path: &str, exts: &Vec<String>) -> (r: bool)
    ensures
        r == spec_keep_path(path@, ext_views(exts@)),
{
    match extension(path) {
        Some(e) => contains_str(exts, e),
        None => exts.len() == 0,
    }
}

proof fn lemma_filter_push(s: Seq<FileHandle>, x: FileHandle, pred: spec_fn(FileHandle) -> bool)
    ensures
        s.push(x).filter(pred) == if pred(x) {
            s.filter(pred).push(x)
        } else {
            s.filter(pred)
        },
{
    reveal(Seq::filter);
    assert(s.push(x).drop_last() =~= s);
    assert(s.push(x).last() == x);
}

fn filter_entries(entries: Vec<FileHandle>, exts: &Vec<String>) -> (r: Vec<FileHandle>)
    ensures
        r@ == kept_of(entries@, ext_views(exts@)),
{
    let ghost orig = entries@;
    let ghost pred = |h: FileHandle| spec_keep(h, ext_views(exts@));
    let mut rest = entries;
    let mut kept: Vec<FileHandle> = Vec::new();
    proof {
        assert(orig.take(0) =~= Seq::<FileHandle>::empty());
        assert(orig.take(0).filter(pred) =~= Seq::<FileHandle>::empty());
    }
    while rest.len() > 0
        invariant
            rest@.len() <= orig.len(),
            rest@ == orig.skip(orig.len() - rest@.len()),
            kept@ == orig.take(orig.len() - rest@.len()).filter(pred),
            pred == (|h: FileHandle| spec_keep(h, ext_views(exts@))),
        decreases rest@.len(),
    {
        let ghost done = orig.len() - rest@.len();
        let h = rest.remove(0);
        proof {
            assert(h == orig[done]);
            assert(rest@ =~= orig.skip(done + 1));
            assert(orig.take(done + 1) =~= orig.take(done).push(h));
            lemma_filter_push(orig.take(done), h, pred);
        }
        if keep_file(h.path.as_str(), exts) {
            kept.push(h);
        }
    }
    proof {
        assert(orig.take(orig.len() as int) =~= orig);
    }
    kept
}

fn sort_by_mtime_desc(entries: Vec<FileHandle>) -> (r: Vec<FileHandle>)
    ensures
        sorted_desc(r@),
        r@.to_multiset() == entries@.to_multiset(),
{
    let ghost orig = entries@;
    let mut rest = entries;
    let mut out: Vec<FileHandle> = Vec::new();
    proof {
        assert(out@.to_multiset().add(rest@.to_multiset()) =~= orig.to_multiset());
    }
    while rest.len() > 0
        invariant
            sorted_desc(out@),
            forall|a: int, b: int|
                0 <= a < out@.len() && 0 <= b < rest@.len() ==> out@[a].mtime >= rest@[b].mtime,
            out@.to_multiset().add(rest@.to_multiset()) == orig.to_multiset(),
        decreases rest@.len(),
    {
        let mut mi: usize = 0;
        let mut i: usize = 1;
        while i < rest.len()
            invariant
                mi < i <= rest@.len(),
                rest@.len() > 0,
                forall|j: int| 0 <= j < i ==> rest@[j].mtime <= rest@[mi as int].mtime,
            decreases rest@.len() - i,
        {
            if rest[i].mtime > rest[mi].mtime {
                mi = i;
            }
            i = i + 1;
        }
        let ghost old_out = out@;
        let ghost old_rest = rest@;
        let h = rest.remove(mi);
        out.push(h);
        proof {
            assert(out@.to_multiset() =~= old_out.to_multiset().insert(h));
            assert(rest@.to_multiset() =~= old_rest.to_multiset().remove(h));
            assert(old_rest.to_multiset().count(h) > 0) by {
                assert(old_rest[mi as int] == h);
                assert(old_rest.contains(h));
            }
            assert(out@.to_multiset().add(rest@.to_multiset()) =~= orig.to_multiset());
            assert forall|a: int, b: int|
                0 <= a < out@.len() && 0 <= b < rest@.len() implies out@[a].mtime
                >= rest@[b].mtime by {
                assert(rest@[b] == if b < mi as int {
                    old_rest[b]
                } else {
                    old_rest[b + 1]
                });
            }
            assert(sorted_desc(out@)) by {
                assert(forall|a: int| 0 <= a < old_out.len() ==> out@[a] == old_out[a]);
            }
        }
    }
    out
}

/// One directory scan, after the listing itself: keep the candidates whose
/// extension is allowed and order them by modification time, most recent
/// first. Candidates tied on modification time keep no particular order,
/// so the result is pinned as a multiset.
pub fn scan(entries: Vec<FileHandle>, exts: &Vec<String>) -> (r: Vec<FileHandle>)
    ensures
        sorted_desc(r@),
        r@.to_multiset() == kept_of(entries@, ext_views(exts@)).to_multiset(),
{
    let kept = filter_entries(entries, exts);
    sort_by_mtime_desc(kept)
}

} // verus!
