//! Ghost model of the directory effects the bridge directs.
//!
//! The operating system carries the state; the library only plans the
//! calls. These spec functions state what each planned action does to
//! the set of names a directory would list afterwards, and the proof
//! functions state the laws the presentation layer relies on: a rename
//! leaves the new name present and the old one absent, a created and
//! deleted file is gone, and a batch move completes item by item up to
//! its first failure.

use vstd::prelude::*;

verus! {

/// The listing after an entry named `name` is created in a directory
/// that listed `names`.
pub open spec fn after_create(names: Set<Seq<char>>, name: Seq<char>) -> Set<Seq<char>> {
    names.insert(name)
}

/// The listing after the entry named `name` is removed.
pub open spec fn after_remove(names: Set<Seq<char>>, name: Seq<char>) -> Set<Seq<char>> {
    names.remove(name)
}

/// The listing after a rename: the old name is gone; the new one is
/// present (overwriting silently if it already was).
pub open spec fn after_rename(
    names: Set<Seq<char>>,
    old_name: Seq<char>,
    new_name: Seq<char>,
) -> Set<Seq<char>> {
    names.remove(old_name).insert(new_name)
}

/// A rename followed by a listing shows the new name present and the
/// old name absent.
pub proof fn lemma_rename_listing(names: Set<Seq<char>>, old_name: Seq<char>, new_name: Seq<char>)
    requires
        old_name != new_name,
    ensures
        after_rename(names, old_name, new_name).contains(new_name),
        !after_rename(names, old_name, new_name).contains(old_name),
{
}

/// Creating a file and then deleting it leaves a listing without it,
/// whatever else the directory holds.
pub proof fn lemma_create_delete_round_trip(names: Set<Seq<char>>, name: Seq<char>)
    ensures
        !after_remove(after_create(names, name), name).contains(name),
{
}

/// The state after a batch move has processed `items[i..]`: each item
/// in turn leaves the source listing and enters the destination
/// listing, until the first item that is not present in the source,
/// whose index is reported and after which processing halts. Prior
/// items stay moved: there is no rollback.
pub open spec fn move_batch_from(
    src: Set<Seq<char>>,
    dst: Set<Seq<char>>,
    items: Seq<Seq<char>>,
    i: int,
) -> (Set<Seq<char>>, Set<Seq<char>>, Option<int>)
    decreases items.len() - i,
{
    if i < 0 || i >= items.len() {
        (src, dst, None)
    } else if !src.contains(items[i]) {
        (src, dst, Some(i))
    } else {
        move_batch_from(src.remove(items[i]), dst.insert(items[i]), items, i + 1)
    }
}

/// The outcome of a whole batch move.
pub open spec fn move_batch(
    src: Set<Seq<char>>,
    dst: Set<Seq<char>>,
    items: Seq<Seq<char>>,
) -> (Set<Seq<char>>, Set<Seq<char>>, Option<int>) {
    move_batch_from(src, dst, items, 0)
}

/// Partial completion: in a batch of two items whose first is present
/// in the source and whose second is not, the first item is moved all
/// the same, and the failure reports the second item alone.
pub proof fn lemma_batch_partial_completion(
    src: Set<Seq<char>>,
    dst: Set<Seq<char>>,
    items: Seq<Seq<char>>,
)
    requires
        items.len() == 2,
        src.contains(items[0]),
        !src.contains(items[1]),
        items[0] != items[1],
    ensures
        move_batch(src, dst, items) == (
            src.remove(items[0]),
            dst.insert(items[0]),
            Some(1int),
        ),
{
    assert(!src.remove(items[0]).contains(items[1]));
    let r = move_batch(src, dst, items);
    assert(r == move_batch_from(src.remove(items[0]), dst.insert(items[0]), items, 1));
    assert(r.0 =~= src.remove(items[0]));
    assert(r.1 =~= dst.insert(items[0]));
    assert(r.2 == Some(1int));
}

} // verus!
