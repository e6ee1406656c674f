//! Recursive copy planning.
//!
//! Copying a directory reproduces its full subtree at the destination:
//! destination directories are created as needed and files are
//! byte-copied, overwriting collisions silently. The embedding program
//! reads the source subtree into `DirEntry` values and performs the
//! actions this planner emits, in order; an interrupted run leaves a
//! partially populated destination (no rollback, by design).

use vstd::prelude::*;
use crate::paths::join_child;
use crate::paths::joined;
use crate::paths::joined_child;
use crate::search::DirEntry;
use crate::search::entry_name;

verus! {

/// One step of a copy: create a directory, or byte-copy one file.
pub enum CopyAction {
    MakeDir { path: String },
    CopyFile { from: String, to: String },
}

/// The abstract value of one copy step.
pub ghost enum CopyStep {
    MakeDir { path: Seq<char> },
    CopyFile { from: Seq<char>, to: Seq<char> },
}

impl DeepView for CopyAction {
    type V = CopyStep;

    open spec fn deep_view(&self) -> CopyStep {
        match self {
            CopyAction::MakeDir { path } => CopyStep::MakeDir { path: path@ },
            CopyAction::CopyFile { from, to } => CopyStep::CopyFile { from: from@, to: to@ },
        }
    }
}

/// The steps that copy the entries `entries[i..]` of the directory at
/// `src` into the directory at `dst`: a file becomes one byte-copy; a
/// directory is created at the destination and its entries follow.
pub open spec fn copy_steps(
    entries: Seq<DirEntry>,
    i: int,
    src: Seq<char>,
    dst: Seq<char>,
) -> Seq<CopyStep>
    decreases entries, entries.len() - i,
{
    if i < 0 || i >= entries.len() {
        Seq::empty()
    } else {
        let e = entries[i];
        let own = match e {
            DirEntry::File { .. } => seq![
                CopyStep::CopyFile {
                    from: joined_child(src, entry_name(e)),
                    to: joined_child(dst, entry_name(e)),
                },
            ],
            DirEntry::Dir { entries: children, .. } => seq![
                CopyStep::MakeDir { path: joined_child(dst, entry_name(e)) },
            ] + copy_steps(
                children@,
                0,
                joined_child(src, entry_name(e)),
                joined_child(dst, entry_name(e)),
            ),
        };
        own + copy_steps(entries, i + 1, src, dst)
    }
}

/// Emits the copy steps for `entries[..]` of `src` into `dst` onto
/// `out`, in order.
fn collect_copy_steps(entries: &Vec<DirEntry>, src: &str, dst: &str, out: &mut Vec<CopyAction>)
    ensures
        final(out).deep_view() == old(out).deep_view() + copy_steps(entries@, 0, src@, dst@),
    decreases entries@,
{
    let ghost start = out.deep_view();
    let mut i: usize = 0;
    while i < entries.len()
        invariant
            0 <= i <= entries@.len(),
            out.deep_view() + copy_steps(entries@, i as int, src@, dst@) == start + copy_steps(
                entries@,
                0,
                src@,
                dst@,
            ),
        decreases entries@.len() - i,
    {
        let ghost pre = out.deep_view();
        let ghost e = entries@[i as int];
        match &entries[i] {
            DirEntry::File { name, .. } => {
                out.push(
                    CopyAction::CopyFile { from: join_child(src, name), to: join_child(dst, name) },
                );
                proof {
                    assert(out.deep_view() =~= pre + seq![
                        CopyStep::CopyFile {
                            from: joined_child(src@, entry_name(e)),
                            to: joined_child(dst@, entry_name(e)),
                        },
                    ]);
                    assert(out.deep_view() + copy_steps(entries@, i + 1, src@, dst@) =~= pre
                        + copy_steps(entries@, i as int, src@, dst@));
                }
            },
            DirEntry::Dir { name, entries: children, .. } => {
                let sub_src = join_child(src, name);
                let sub_dst = join_child(dst, name);
                out.push(CopyAction::MakeDir { path: sub_dst.clone() });
                proof {
                    assert(out.deep_view() =~= pre + seq![
                        CopyStep::MakeDir { path: joined_child(dst@, entry_name(e)) },
                    ]);
                    assert(decreases_to!(entries@ => e));
                }
                collect_copy_steps(children, sub_src.as_str(), sub_dst.as_str(), out);
                proof {
                    assert(out.deep_view() + copy_steps(entries@, i + 1, src@, dst@) =~= pre
                        + copy_steps(entries@, i as int, src@, dst@));
                }
            },
        }
        i += 1;
    }
    proof {
        assert(copy_steps(entries@, entries@.len() as int, src@, dst@) =~= Seq::<
            CopyStep,
        >::empty());
        assert(out.deep_view() =~= old(out).deep_view() + copy_steps(entries@, 0, src@, dst@));
    }
}

/// Plans the copy of one directory item: the destination directory is
/// created first, then the source subtree is reproduced under it.
pub fn copy_dir_plan(entries: &Vec<DirEntry>, src: &str, dst: &str) -> (actions: Vec<CopyAction>)
    ensures
        actions.deep_view() == seq![CopyStep::MakeDir { path: dst@ }] + copy_steps(
            entries@,
            0,
            src@,
            dst@,
        ),
{
    let mut out: Vec<CopyAction> = Vec::new();
    out.push(CopyAction::MakeDir { path: dst.to_owned() });
    proof {
        assert(out.deep_view() =~= seq![CopyStep::MakeDir { path: dst@ }]);
    }
    collect_copy_steps(entries, src, dst, &mut out);
    out
}

/// The subtree holds a file at the relative segment path `rel`.
pub open spec fn tree_has_file(entries: Seq<DirEntry>, rel: Seq<Seq<char>>) -> bool
    decreases entries, rel.len(),
{
    &&& rel.len() > 0
    &&& exists|i: int|
        {
            &&& 0 <= i < entries.len()
            &&& entry_name(#[trigger] entries[i]) == rel[0]
            &&& if rel.len() == 1 {
                entries[i] is File
            } else {
                match entries[i] {
                    DirEntry::Dir { entries: children, .. } => tree_has_file(
                        children@,
                        rel.drop_first(),
                    ),
                    _ => false,
                }
            }
        }
}

/// The subtree holds a directory at the relative segment path `rel`.
pub open spec fn tree_has_dir(entries: Seq<DirEntry>, rel: Seq<Seq<char>>) -> bool
    decreases entries, rel.len(),
{
    &&& rel.len() > 0
    &&& exists|i: int|
        {
            &&& 0 <= i < entries.len()
            &&& entry_name(#[trigger] entries[i]) == rel[0]
            &&& entries[i] is Dir
            &&& if rel.len() == 1 {
                true
            } else {
                match entries[i] {
                    DirEntry::Dir { entries: children, .. } => tree_has_dir(
                        children@,
                        rel.drop_first(),
                    ),
                    _ => false,
                }
            }
        }
}

/// A one-segment relative path joins as a single child name.
proof fn lemma_joined_one(base: Seq<char>, rel: Seq<Seq<char>>)
    requires
        rel.len() == 1,
    ensures
        joined(base, rel) == joined_child(base, rel[0]),
{
    assert(rel.drop_first() =~= Seq::<Seq<char>>::empty());
    assert(joined(base + seq!['/'] + rel[0], rel.drop_first()) == base + seq!['/'] + rel[0]);
}

/// A step emitted for `entries[i]` stands in the plan of the whole
/// directory.
proof fn lemma_step_of_entry_in_plan(
    entries: Seq<DirEntry>,
    k: int,
    i: int,
    src: Seq<char>,
    dst: Seq<char>,
    x: CopyStep,
)
    requires
        0 <= k <= i < entries.len(),
        match entries[i] {
            DirEntry::File { .. } => x == CopyStep::CopyFile {
                from: joined_child(src, entry_name(entries[i])),
                to: joined_child(dst, entry_name(entries[i])),
            },
            DirEntry::Dir { entries: children, .. } => x == CopyStep::MakeDir {
                path: joined_child(dst, entry_name(entries[i])),
            } || copy_steps(
                children@,
                0,
                joined_child(src, entry_name(entries[i])),
                joined_child(dst, entry_name(entries[i])),
            ).contains(x),
        },
    ensures
        copy_steps(entries, k, src, dst).contains(x),
    decreases entries.len() - k,
{
    if k == i {
        let e = entries[i];
        let own = match e {
            DirEntry::File { .. } => seq![
                CopyStep::CopyFile {
                    from: joined_child(src, entry_name(e)),
                    to: joined_child(dst, entry_name(e)),
                },
            ],
            DirEntry::Dir { entries: children, .. } => seq![
                CopyStep::MakeDir { path: joined_child(dst, entry_name(e)) },
            ] + copy_steps(
                children@,
                0,
                joined_child(src, entry_name(e)),
                joined_child(dst, entry_name(e)),
            ),
        };
        assert(own.contains(x)) by {
            match e {
                DirEntry::File { .. } => {
                    assert(own[0] == x);
                },
                DirEntry::Dir { entries: children, .. } => {
                    let sub = copy_steps(
                        children@,
                        0,
                        joined_child(src, entry_name(e)),
                        joined_child(dst, entry_name(e)),
                    );
                    if x == (CopyStep::MakeDir { path: joined_child(dst, entry_name(e)) }) {
                        assert(own[0] == x);
                    } else {
                        let j = choose|j: int| 0 <= j < sub.len() && sub[j] == x;
                        assert(own[1 + j] == x);
                    }
                },
            }
        };
        let j = choose|j: int| 0 <= j < own.len() && own[j] == x;
        assert(copy_steps(entries, k, src, dst)[j] == x);
    } else {
        lemma_step_of_entry_in_plan(entries, k + 1, i, src, dst, x);
        let rest = copy_steps(entries, k + 1, src, dst);
        let j = choose|j: int| 0 <= j < rest.len() && rest[j] == x;
        let own_len = copy_steps(entries, k, src, dst).len() - rest.len();
        assert(copy_steps(entries, k, src, dst)[own_len + j] == x);
    }
}

/// Every file of the source subtree is byte-copied to the mirrored
/// path under the destination.
pub proof fn lemma_copy_covers_files(
    entries: Seq<DirEntry>,
    src: Seq<char>,
    dst: Seq<char>,
    rel: Seq<Seq<char>>,
)
    requires
        tree_has_file(entries, rel),
    ensures
        copy_steps(entries, 0, src, dst).contains(
            CopyStep::CopyFile { from: joined(src, rel), to: joined(dst, rel) },
        ),
    decreases rel.len(),
{
    let i = choose|i: int|
        {
            &&& 0 <= i < entries.len()
            &&& entry_name(#[trigger] entries[i]) == rel[0]
            &&& if rel.len() == 1 {
                entries[i] is File
            } else {
                match entries[i] {
                    DirEntry::Dir { entries: children, .. } => tree_has_file(
                        children@,
                        rel.drop_first(),
                    ),
                    _ => false,
                }
            }
        };
    let e = entries[i];
    let x = CopyStep::CopyFile { from: joined(src, rel), to: joined(dst, rel) };
    if rel.len() == 1 {
        lemma_joined_one(src, rel);
        lemma_joined_one(dst, rel);
        lemma_step_of_entry_in_plan(entries, 0, i, src, dst, x);
    } else {
        match e {
            DirEntry::Dir { entries: children, .. } => {
                let sub_src = joined_child(src, rel[0]);
                let sub_dst = joined_child(dst, rel[0]);
                lemma_copy_covers_files(children@, sub_src, sub_dst, rel.drop_first());
                assert(joined(src, rel) == joined(sub_src, rel.drop_first()));
                assert(joined(dst, rel) == joined(sub_dst, rel.drop_first()));
                lemma_step_of_entry_in_plan(entries, 0, i, src, dst, x);
            },
            _ => {
                assert(false);
            },
        }
    }
}

/// Every directory of the source subtree is created at the mirrored
/// path under the destination.
pub proof fn lemma_copy_covers_dirs(
    entries: Seq<DirEntry>,
    src: Seq<char>,
    dst: Seq<char>,
    rel: Seq<Seq<char>>,
)
    requires
        tree_has_dir(entries, rel),
    ensures
        copy_steps(entries, 0, src, dst).contains(CopyStep::MakeDir { path: joined(dst, rel) }),
    decreases rel.len(),
{
    let i = choose|i: int|
        {
            &&& 0 <= i < entries.len()
            &&& entry_name(#[trigger] entries[i]) == rel[0]
            &&& entries[i] is Dir
            &&& if rel.len() == 1 {
                true
            } else {
                match entries[i] {
                    DirEntry::Dir { entries: children, .. } => tree_has_dir(
                        children@,
                        rel.drop_first(),
                    ),
                    _ => false,
                }
            }
        };
    let e = entries[i];
    let x = CopyStep::MakeDir { path: joined(dst, rel) };
    if rel.len() == 1 {
        lemma_joined_one(dst, rel);
        lemma_step_of_entry_in_plan(entries, 0, i, src, dst, x);
    } else {
        match e {
            DirEntry::Dir { entries: children, .. } => {
                let sub_src = joined_child(src, rel[0]);
                let sub_dst = joined_child(dst, rel[0]);
                lemma_copy_covers_dirs(children@, sub_src, sub_dst, rel.drop_first());
                assert(joined(dst, rel) == joined(sub_dst, rel.drop_first()));
                lemma_step_of_entry_in_plan(entries, 0, i, src, dst, x);
            },
            _ => {
                assert(false);
            },
        }
    }
}

} // verus!
