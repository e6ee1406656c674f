//! Recursive name search over the sandbox tree.
//!
//! The embedding program reads the subtree rooted at the sandbox root
//! into `DirEntry` values (failing the whole search on the first
//! unreadable directory — no partial results); the library walks that
//! tree depth-first and collects every entry whose lower-cased name
//! holds the lower-cased query as a substring. A match is recorded with
//! the path of its parent directory, before the walk descends into the
//! matching directory itself.

use vstd::prelude::*;
use vstd::string::StringExecFns;
use crate::decimal::dec_digits;
use crate::decimal::u64_to_decimal;
use crate::nodes::SearchResultNode;
use crate::text::contains_seq;
use crate::text::lower_of;
use crate::text::str_contains;
use crate::text::to_lower;

verus! {

/// One directory entry of the in-memory copy of the sandbox subtree:
/// name, modification time in seconds since the epoch, and, for a
/// directory, its own entries.
pub enum DirEntry {
    File { name: String, modified: u64 },
    Dir { name: String, modified: u64, entries: Vec<DirEntry> },
}

/// The abstract value of one search hit.
pub ghost struct SpecMatch {
    pub name: Seq<char>,
    pub kind: Seq<char>,
    pub modified: Seq<char>,
    pub path: Seq<Seq<char>>,
}

impl DeepView for SearchResultNode {
    type V = SpecMatch;

    open spec fn deep_view(&self) -> SpecMatch {
        SpecMatch {
            name: self.name@,
            kind: self.node_type@,
            modified: self.modified@,
            path: self.path.deep_view(),
        }
    }
}

/// The name of an entry.
pub open spec fn entry_name(e: DirEntry) -> Seq<char> {
    match e {
        DirEntry::File { name, .. } => name@,
        DirEntry::Dir { name, .. } => name@,
    }
}

/// The modification time of an entry.
pub open spec fn entry_modified(e: DirEntry) -> nat {
    match e {
        DirEntry::File { modified, .. } => modified as nat,
        DirEntry::Dir { modified, .. } => modified as nat,
    }
}

/// The kind label of an entry: directories are folders, everything
/// else a file.
pub open spec fn entry_label(e: DirEntry) -> Seq<char> {
    if e is Dir {
        "folder"@
    } else {
        "file"@
    }
}

/// The hit recorded for entry `e` found in the directory at `path`.
pub open spec fn hit_of(e: DirEntry, path: Seq<Seq<char>>) -> SpecMatch {
    SpecMatch {
        name: entry_name(e),
        kind: entry_label(e),
        modified: dec_digits(entry_modified(e)),
        path: path,
    }
}

/// The entry's lower-cased name holds the (already lower-cased) query.
pub open spec fn entry_hits(e: DirEntry, lq: Seq<char>) -> bool {
    contains_seq(lower_of(entry_name(e)), lq)
}

/// The hits of the depth-first walk over `entries[i..]`, each entry
/// tested before its subtree is walked: for every entry, its own hit
/// (if its name matches), then the hits of its subtree under the
/// extended path, then those of the entries after it.
pub open spec fn hits_from(
    entries: Seq<DirEntry>,
    i: int,
    path: Seq<Seq<char>>,
    lq: Seq<char>,
) -> Seq<SpecMatch>
    decreases entries, entries.len() - i,
{
    if i < 0 || i >= entries.len() {
        Seq::empty()
    } else {
        let e = entries[i];
        let own = if entry_hits(e, lq) {
            seq![hit_of(e, path)]
        } else {
            Seq::empty()
        };
        let sub = match e {
            DirEntry::Dir { entries: children, .. } => hits_from(
                children@,
                0,
                path.push(entry_name(e)),
                lq,
            ),
            _ => Seq::empty(),
        };
        own + sub + hits_from(entries, i + 1, path, lq)
    }
}

/// The full result of a search: the walk starts at the sandbox root
/// (the empty path) with the query lower-cased.
pub open spec fn search_spec(entries: Seq<DirEntry>, query: Seq<char>) -> Seq<SpecMatch> {
    hits_from(entries, 0, Seq::empty(), lower_of(query))
}

/// Case-insensitivity: two queries with the same lower-casing yield
/// identical hit sequences over any tree.
pub proof fn lemma_search_case_insensitive(entries: Seq<DirEntry>, q1: Seq<char>, q2: Seq<char>)
    requires
        lower_of(q1) == lower_of(q2),
    ensures
        search_spec(entries, q1) == search_spec(entries, q2),
{
}

/// Copies a segment path.
pub fn clone_strings(v: &Vec<String>) -> (r: Vec<String>)
    ensures
        r.deep_view() == v.deep_view(),
{
    let mut r: Vec<String> = Vec::new();
    let mut i: usize = 0;
    while i < v.len()
        invariant
            0 <= i <= v@.len(),
            r@.len() == i,
            forall|j: int| 0 <= j < i ==> r@[j]@ == v@[j]@,
        decreases v@.len() - i,
    {
        r.push(v[i].clone());
        i += 1;
    }
    proof {
        assert(r.deep_view() =~= v.deep_view());
    }
    r
}

/// Walks `entries` depth-first under the directory path `path`,
/// appending every hit for the lower-cased query `lq` to `out`.
fn collect_hits(entries: &Vec<DirEntry>, path: &Vec<String>, lq: &str, out: &mut Vec<
    SearchResultNode,
>)
    ensures
        final(out).deep_view() == old(out).deep_view() + hits_from(
            entries@,
            0,
            path.deep_view(),
            lq@,
        ),
    decreases entries@,
{
    proof {
        reveal_strlit("folder");
        reveal_strlit("file");
    }
    let ghost pathv = path.deep_view();
    let ghost start = out.deep_view();
    let mut i: usize = 0;
    while i < entries.len()
        invariant
            0 <= i <= entries@.len(),
            pathv == path.deep_view(),
            out.deep_view() + hits_from(entries@, i as int, pathv, lq@) == start + hits_from(
                entries@,
                0,
                pathv,
                lq@,
            ),
        decreases entries@.len() - i,
    {
        let ghost pre = out.deep_view();
        let ghost e = entries@[i as int];
        match &entries[i] {
            DirEntry::File { name, modified } => {
                let low = to_lower(name.as_str());
                if str_contains(low.as_str(), lq) {
                    out.push(
                        SearchResultNode {
                            name: name.clone(),
                            node_type: String::from_str("file"),
                            modified: u64_to_decimal(*modified),
                            path: clone_strings(path),
                        },
                    );
                    proof {
                        assert(out.deep_view() =~= pre.push(hit_of(e, pathv)));
                        assert(out.deep_view() =~= pre + seq![hit_of(e, pathv)]);
                    }
                }
                proof {
                    assert(out.deep_view() + hits_from(entries@, i + 1, pathv, lq@) =~= pre
                        + hits_from(entries@, i as int, pathv, lq@));
                }
            },
            DirEntry::Dir { name, modified, entries: children } => {
                let low = to_lower(name.as_str());
                if str_contains(low.as_str(), lq) {
                    out.push(
                        SearchResultNode {
                            name: name.clone(),
                            node_type: String::from_str("folder"),
                            modified: u64_to_decimal(*modified),
                            path: clone_strings(path),
                        },
                    );
                    proof {
                        assert(out.deep_view() =~= pre.push(hit_of(e, pathv)));
                        assert(out.deep_view() =~= pre + seq![hit_of(e, pathv)]);
                    }
                }
                let mut subpath = clone_strings(path);
                subpath.push(name.clone());
                proof {
                    assert(subpath.deep_view() =~= pathv.push(entry_name(e)));
                    assert(decreases_to!(entries@ => e));
                }
                collect_hits(children, &subpath, lq, out);
                proof {
                    assert(out.deep_view() + hits_from(entries@, i + 1, pathv, lq@) =~= pre
                        + hits_from(entries@, i as int, pathv, lq@));
                }
            },
        }
        i += 1;
        proof {
            assert(out.deep_view() + hits_from(entries@, i as int, pathv, lq@) =~= start
                + hits_from(entries@, 0, pathv, lq@));
        }
    }
    proof {
        assert(hits_from(entries@, entries@.len() as int, pathv, lq@) =~= Seq::<
            SpecMatch,
        >::empty());
        assert(out.deep_view() =~= old(out).deep_view() + hits_from(entries@, 0, pathv, lq@));
    }
}

/// Searches the whole sandbox subtree for names that hold the query,
/// case-insensitively, depth-first from the root.
pub fn search_tree(entries: &Vec<DirEntry>, query: &str) -> (results: Vec<SearchResultNode>)
    ensures
        results.deep_view() == search_spec(entries@, query@),
{
    let lq = to_lower(query);
    let empty_path: Vec<String> = Vec::new();
    let mut out: Vec<SearchResultNode> = Vec::new();
    proof {
        assert(empty_path.deep_view() =~= Seq::<Seq<char>>::empty());
        assert(out.deep_view() =~= Seq::<SpecMatch>::empty());
    }
    collect_hits(entries, &empty_path, lq.as_str(), &mut out);
    proof {
        assert(out.deep_view() =~= search_spec(entries@, query@));
    }
    out
}

} // verus!
