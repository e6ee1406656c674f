//! Single-level mutation: create, delete and rename under one resolved
//! directory.
//!
//! Path resolution only vets directories that already exist, so the
//! leaf name of a mutation is checked here, before it is joined onto
//! the resolved base: a name holding a separator or a traversal segment
//! would otherwise escape the sandbox through the unvalidated leaf.
//! The embedding program performs the operating-system call on the
//! paths these functions return.

use vstd::prelude::*;
use crate::errors::FsError;
use crate::errors::FsErrorKind;
use crate::names::check_name;
use crate::names::valid_name;
use crate::nodes::ItemReference;
use crate::paths::join_child;
use crate::paths::joined_child;

verus! {

/// The rejection of an unsafe leaf name.
pub open spec fn invalid_name_error(e: FsError, name: Seq<char>) -> bool {
    &&& e.kind == FsErrorKind::InvalidName
    &&& e.path@ == name
}

/// Builds the error for an unsafe leaf name.
fn reject_name(name: &str) -> (e: FsError)
    ensures
        invalid_name_error(e, name@),
{
    FsError { kind: FsErrorKind::InvalidName, path: name.to_owned(), message: String::new() }
}

/// The target path of a create, remove or delete at a single directory
/// level: the name joined onto the resolved base directory if it is
/// safe, `InvalidName` otherwise.
pub fn child_target(dir: &str, name: &str) -> (r: Result<String, FsError>)
    ensures
        valid_name(name@) ==> (r matches Ok(p) && p@ == joined_child(dir@, name@)),
        !valid_name(name@) ==> (r matches Err(e) && invalid_name_error(e, name@)),
{
    if check_name(name) {
        Ok(join_child(dir, name))
    } else {
        Err(reject_name(name))
    }
}

/// The source and destination paths of a rename within one resolved
/// directory: both leaf names must be safe; the first unsafe one is
/// reported.
pub fn rename_targets(dir: &str, old_name: &str, new_name: &str) -> (r: Result<
    (String, String),
    FsError,
>)
    ensures
        valid_name(old_name@) && valid_name(new_name@) ==> (r matches Ok(p) && p.0@
            == joined_child(dir@, old_name@) && p.1@ == joined_child(dir@, new_name@)),
        !valid_name(old_name@) ==> (r matches Err(e) && invalid_name_error(e, old_name@)),
        valid_name(old_name@) && !valid_name(new_name@) ==> (r matches Err(e)
            && invalid_name_error(e, new_name@)),
{
    if !check_name(old_name) {
        return Err(reject_name(old_name));
    }
    if !check_name(new_name) {
        return Err(reject_name(new_name));
    }
    Ok((join_child(dir, old_name), join_child(dir, new_name)))
}

/// The source and destination paths of one batch-transfer item: the
/// item's name joined onto the resolved source and destination
/// directories, if it is safe.
pub fn transfer_targets(src_dir: &str, dst_dir: &str, item: &ItemReference) -> (r: Result<
    (String, String),
    FsError,
>)
    ensures
        valid_name(item.name@) ==> (r matches Ok(p) && p.0@ == joined_child(src_dir@, item.name@)
            && p.1@ == joined_child(dst_dir@, item.name@)),
        !valid_name(item.name@) ==> (r matches Err(e) && invalid_name_error(e, item.name@)),
{
    if check_name(item.name.as_str()) {
        Ok((join_child(src_dir, item.name.as_str()), join_child(dst_dir, item.name.as_str())))
    } else {
        Err(reject_name(item.name.as_str()))
    }
}

} // verus!
