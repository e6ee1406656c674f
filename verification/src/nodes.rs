//! Transport representation of filesystem entries, and the single-level
//! directory listing.
//!
//! The embedding program reads a directory and hands the library one
//! `EntryInfo` per immediate entry; the library turns them into nodes.
//! A folder node returned by a listing is unexpanded: its children are
//! empty and `children_loaded` is false, so the presentation layer knows
//! to request expansion later.

use vstd::prelude::*;
use vstd::string::StringExecFns;
use crate::decimal::dec_digits;
use crate::decimal::u64_to_decimal;

verus! {

/// A filesystem entry for transport: its name, its kind (`"file"` or
/// `"folder"`), its modification time in seconds since the epoch as a
/// decimal string, lazily loaded children, and content only when
/// explicitly fetched.
pub struct FileSystemNode {
    pub name: String,
    pub node_type: String,
    pub modified: String,
    pub children: Option<Vec<FileSystemNode>>,
    pub children_loaded: Option<bool>,
    pub content: Option<String>,
}

/// One search hit: the entry's name, kind and modification time, and
/// the path of its parent directory relative to the sandbox root.
pub struct SearchResultNode {
    pub name: String,
    pub node_type: String,
    pub modified: String,
    pub path: Vec<String>,
}

/// Identifies one existing child of a known directory for a batch
/// transfer; the directory itself is supplied separately.
pub struct ItemReference {
    pub name: String,
    pub item_type: String,
}

/// The kind of a directory entry as the operating system reports it.
/// Entries that are neither regular files nor directories are listed as
/// files.
#[derive(Clone, Copy, PartialEq, Eq, Structural)]
pub enum EntryKind {
    File,
    Folder,
    Other,
}

/// One immediate entry of a directory, as the embedding program read
/// it: base name, kind, and modification time in seconds since the
/// epoch.
pub struct EntryInfo {
    pub name: String,
    pub kind: EntryKind,
    pub modified_secs: u64,
}

/// The `node_type` string of an entry kind: directories are folders,
/// everything else defaults to a file.
pub open spec fn type_label(kind: EntryKind) -> Seq<char> {
    if kind is Folder {
        "folder"@
    } else {
        "file"@
    }
}

/// The invariant of every node the bridge hands out: the kind is one of
/// the two labels, and an unexpanded node has no populated children.
pub open spec fn node_well_formed(n: FileSystemNode) -> bool {
    &&& (n.node_type@ == "folder"@ || n.node_type@ == "file"@)
    &&& n.children_loaded != Some(true) ==> (n.children matches Some(c) ==> c@.len() == 0)
}

/// The node a listing produces for one entry.
pub open spec fn node_of_entry(n: FileSystemNode, e: EntryInfo) -> bool {
    &&& n.name@ == e.name@
    &&& n.node_type@ == type_label(e.kind)
    &&& n.modified@ == dec_digits(e.modified_secs as nat)
    &&& if e.kind is Folder {
        n.children matches Some(c) && c@.len() == 0 && n.children_loaded == Some(false)
    } else {
        n.children is None && n.children_loaded is None
    }
    &&& n.content is None
}

/// Builds the transport node of one directory entry. Folders come back
/// unexpanded: empty children, `children_loaded` false.
pub fn entry_node(e: &EntryInfo) -> (n: FileSystemNode)
    ensures
        node_of_entry(n, *e),
        node_well_formed(n),
{
    proof {
        reveal_strlit("folder");
        reveal_strlit("file");
    }
    let is_folder = match e.kind {
        EntryKind::Folder => true,
        _ => false,
    };
    FileSystemNode {
        name: e.name.clone(),
        node_type: if is_folder {
            String::from_str("folder")
        } else {
            String::from_str("file")
        },
        modified: u64_to_decimal(e.modified_secs),
        children: if is_folder {
            Some(Vec::new())
        } else {
            None
        },
        children_loaded: if is_folder {
            Some(false)
        } else {
            None
        },
        content: None,
    }
}

/// Turns the entries of one directory into transport nodes: exactly one
/// node per entry, in the order the entries were handed in (the
/// operating system fixes no order; callers must not rely on one).
pub fn list_nodes(entries: &Vec<EntryInfo>) -> (nodes: Vec<FileSystemNode>)
    ensures
        nodes@.len() == entries@.len(),
        forall|i: int| 0 <= i < entries@.len() ==> node_of_entry(#[trigger] nodes@[i], entries@[i]),
        forall|i: int| 0 <= i < entries@.len() ==> node_well_formed(#[trigger] nodes@[i]),
{
    let mut nodes: Vec<FileSystemNode> = Vec::new();
    let mut i: usize = 0;
    while i < entries.len()
        invariant
            0 <= i <= entries@.len(),
            nodes@.len() == i,
            forall|j: int| 0 <= j < i ==> node_of_entry(#[trigger] nodes@[j], entries@[j]),
            forall|j: int| 0 <= j < i ==> node_well_formed(#[trigger] nodes@[j]),
        decreases entries@.len() - i,
    {
        nodes.push(entry_node(&entries[i]));
        i += 1;
    }
    nodes
}

/// Builds the single unexpanded node that stands for the sandbox root
/// itself, under its fixed display label; all further expansion goes
/// through the directory listing.
pub fn root_node(modified_secs: u64) -> (n: FileSystemNode)
    ensures
        n.name@ == crate::root_label(),
        n.node_type@ == "folder"@,
        n.modified@ == dec_digits(modified_secs as nat),
        n.children matches Some(c) && c@.len() == 0,
        n.children_loaded == Some(false),
        n.content is None,
        node_well_formed(n),
{
    proof {
        reveal_strlit("folder");
        reveal_strlit("My Computer");
    }
    FileSystemNode {
        name: String::from_str("My Computer"),
        node_type: String::from_str("folder"),
        modified: u64_to_decimal(modified_secs),
        children: Some(Vec::new()),
        children_loaded: Some(false),
        content: None,
    }
}

} // verus!
