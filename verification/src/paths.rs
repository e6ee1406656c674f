//! Path resolution and sandbox enforcement.
//!
//! A caller supplies a relative path as a sequence of segments. The
//! library appends the segments to the sandbox root to form the path the
//! operating system is asked to canonicalise; the embedding program
//! performs the canonicalisation (it requires the path to exist) and
//! hands the outcome back; the library then passes judgement: a path
//! whose canonical form is not the root itself, nor nested under it, is
//! rejected as a sandbox escape.

use vstd::prelude::*;
use vstd::string::StrSliceExecFns;
use vstd::string::StringExecFns;
use crate::errors::FsError;
use crate::errors::FsErrorKind;
use crate::errors::OsFailure;
use crate::errors::kind_of_os;

verus! {

/// The path string formed by appending each segment, behind a
/// separator, to `root` in order.
pub open spec fn joined(root: Seq<char>, segments: Seq<Seq<char>>) -> Seq<char>
    decreases segments.len(),
{
    if segments.len() == 0 {
        root
    } else {
        joined(root + seq!['/'] + segments[0], segments.drop_first())
    }
}

/// Builds the path the operating system will be asked to canonicalise:
/// the root with every segment appended in order.
pub fn request_path(root: &str, segments: &Vec<String>) -> (r: String)
    ensures
        r@ == joined(root@, segments.deep_view()),
{
    let mut r = root.to_owned();
    let mut i: usize = 0;
    proof {
        assert(segments.deep_view().skip(0) =~= segments.deep_view());
    }
    while i < segments.len()
        invariant
            0 <= i <= segments.len(),
            segments.deep_view().len() == segments.len(),
            joined(r@, segments.deep_view().skip(i as int)) == joined(
                root@,
                segments.deep_view(),
            ),
        decreases segments.len() - i,
    {
        proof {
            reveal_strlit("/");
        }
        let ghost before = r@;
        r.append("/");
        r.append(segments[i].as_str());
        proof {
            let segs = segments.deep_view();
            assert(segs[i as int] == segments[i as int]@);
            assert(r@ =~= before + seq!['/'] + segs[i as int]);
            assert(segs.skip(i as int).drop_first() =~= segs.skip(i as int + 1));
            assert(segs.skip(i as int).len() > 0);
            assert(joined(before, segs.skip(i as int)) == joined(
                before + seq!['/'] + segs.skip(i as int)[0],
                segs.skip(i as int).drop_first(),
            ));
        }
        i += 1;
    }
    proof {
        assert(segments.deep_view().skip(segments.len() as int) =~= Seq::<
            Seq<char>,
        >::empty());
    }
    r
}

/// The path of a named child of a directory.
pub open spec fn joined_child(dir: Seq<char>, name: Seq<char>) -> Seq<char> {
    dir + seq!['/'] + name
}

/// Joins a child name onto a resolved directory path. Callers must
/// have validated the name first: this is bare concatenation.
pub fn join_child(dir: &str, name: &str) -> (r: String)
    ensures
        r@ == joined_child(dir@, name@),
{
    proof {
        reveal_strlit("/");
    }
    let mut r = dir.to_owned();
    r.append("/");
    r.append(name);
    proof {
        assert(r@ =~= joined_child(dir@, name@));
    }
    r
}

/// The canonical path `p` lies within the sandbox rooted at the
/// canonical path `root`: it is the root itself, or extends it at a
/// component boundary (the next character is a separator, or the root
/// already ends in one, as the filesystem root does).
pub open spec fn is_within(root: Seq<char>, p: Seq<char>) -> bool {
    ||| p == root
    ||| {
        &&& p.len() > root.len()
        &&& p.subrange(0, root.len() as int) == root
        &&& (p[root.len() as int] == '/' || (root.len() > 0 && root[root.len() - 1] == '/'))
    }
}

/// Decides `is_within` for two canonical path strings.
pub fn check_within(root: &str, p: &str) -> (r: bool)
    ensures
        r == is_within(root@, p@),
{
    let rlen = root.unicode_len();
    let plen = p.unicode_len();
    if plen < rlen {
        proof {
            assert(p@ != root@);
        }
        return false;
    }
    let mut i: usize = 0;
    while i < rlen
        invariant
            rlen == root@.len(),
            plen == p@.len(),
            rlen <= plen,
            0 <= i <= rlen,
            forall|j: int| 0 <= j < i ==> p@[j] == root@[j],
        decreases rlen - i,
    {
        if p.get_char(i) != root.get_char(i) {
            proof {
                assert(p@ != root@);
                assert(p@.subrange(0, rlen as int)[i as int] != root@[i as int]);
            }
            return false;
        }
        i += 1;
    }
    if plen == rlen {
        proof {
            assert(p@ =~= root@);
        }
        return true;
    }
    proof {
        assert(p@.subrange(0, rlen as int) =~= root@);
    }
    if p.get_char(rlen) == '/' {
        return true;
    }
    if rlen > 0 && root.get_char(rlen - 1) == '/' {
        return true;
    }
    proof {
        assert(p@ != root@);
    }
    false
}

/// Passes judgement on a canonicalisation outcome: a failure keeps its
/// operating-system classification; a canonical path outside the sandbox
/// is rejected as `AccessDenied`; a canonical path within it is the
/// resolved result.
///
/// `requested` is the path that was handed to the operating system; it
/// names the subject of a failure.
pub fn resolve_verdict(root: &str, requested: &str, outcome: Result<String, OsFailure>) -> (r:
    Result<String, FsError>)
    ensures
        match outcome {
            Ok(canonical) => {
                if is_within(root@, canonical@) {
                    r matches Ok(p) && p@ == canonical@
                } else {
                    r matches Err(e) && e.kind == FsErrorKind::AccessDenied && e.path@
                        == canonical@
                }
            },
            Err(f) => r matches Err(e) && e.kind == kind_of_os(f.kind) && e.path@ == requested@
                && e.message@ == f.message@,
        },
{
    match outcome {
        Ok(canonical) => {
            if check_within(root, canonical.as_str()) {
                Ok(canonical)
            } else {
                Err(
                    FsError {
                        kind: FsErrorKind::AccessDenied,
                        path: canonical,
                        message: String::new(),
                    },
                )
            }
        },
        Err(f) => Err(crate::errors::classify_os_failure(f, requested.to_owned())),
    }
}

} // verus!
