//! Validation of leaf names.
//!
//! Path resolution canonicalises a path that already exists, so it cannot
//! vet a not-yet-created child name. Every operation that joins a
//! caller-supplied name onto a resolved base directory must first reject
//! any name that could escape that directory: one holding a path
//! separator, or the current- or parent-directory segment, or nothing at
//! all.

use vstd::prelude::*;

verus! {

/// A name is safe to join onto a resolved directory when it is non-empty,
/// holds no path separator, and is neither `.` nor `..`.
pub open spec fn valid_name(s: Seq<char>) -> bool {
    &&& s.len() > 0
    &&& (forall|i: int| 0 <= i < s.len() ==> s[i] != '/' && s[i] != '\\')
    &&& s != seq!['.']
    &&& s != seq!['.', '.']
}

/// Decides `valid_name` for a leaf name handed in by a caller.
pub fn check_name(name: &str) -> (r: bool)
    ensures
        r == valid_name(name@),
{
    let len = name.unicode_len();
    if len == 0 {
        return false;
    }
    if len == 1 && name.get_char(0) == '.' {
        proof {
            assert(name@ =~= seq!['.']);
        }
        return false;
    }
    if len == 2 && name.get_char(0) == '.' && name.get_char(1) == '.' {
        proof {
            assert(name@ =~= seq!['.', '.']);
        }
        return false;
    }
    let mut i: usize = 0;
    while i < len
        invariant
            len == name@.len(),
            0 <= i <= len,
            forall|j: int| 0 <= j < i ==> name@[j] != '/' && name@[j] != '\\',
        decreases len - i,
    {
        let c = name.get_char(i);
        if c == '/' || c == '\\' {
            return false;
        }
        i += 1;
    }
    proof {
        assert(seq!['.'].len() == 1 && seq!['.'][0] == '.');
        assert(seq!['.', '.'].len() == 2 && seq!['.', '.'][0] == '.' && seq!['.', '.'][1]
            == '.');
    }
    true
}

} // verus!
