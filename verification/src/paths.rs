//! Filesystem paths compared the way `std::path::Path` compares them on
//! Unix: by components, so repeated separators, a trailing separator and
//! `.` segments inside a path do not make two paths differ.
//!
//! A path is given by its bytes; `/` is the only separator.

use vstd::prelude::*;

verus! {

/// The path separator.
pub const SEPARATOR: u8 = 0x2f;

/// The byte of `.`.
pub const DOT: u8 = 0x2e;

/// The path starts at the root.
pub open spec fn has_root(path: Seq<u8>) -> bool {
    path.len() > 0 && path[0] == SEPARATOR
}

/// The path starts with a current-directory component: a relative path
/// that is `.` or begins with `./`.
pub open spec fn starts_at_current_dir(path: Seq<u8>) -> bool {
    &&& !has_root(path)
    &&& path.len() > 0
    &&& path[0] == DOT
    &&& (path.len() == 1 || path[1] == SEPARATOR)
}

/// The length of the first segment: the bytes before the first separator.
pub open spec fn segment_len(path: Seq<u8>) -> nat
    decreases path.len(),
{
    if path.len() == 0 || path[0] == SEPARATOR {
        0
    } else {
        1 + segment_len(path.skip(1))
    }
}

/// A segment that names a component: neither empty nor `.`.
pub open spec fn names_component(segment: Seq<u8>) -> bool {
    segment.len() > 0 && segment != seq![DOT]
}

/// The first segment lies within the path and ends at a separator or at
/// the end.
pub proof fn lemma_segment_len_bound(path: Seq<u8>)
    ensures
        segment_len(path) <= path.len(),
        segment_len(path) < path.len() ==> path[segment_len(path) as int] == SEPARATOR,
        forall|k: int| 0 <= k < segment_len(path) ==> path[k] != SEPARATOR,
    decreases path.len(),
{
    if path.len() > 0 && path[0] != SEPARATOR {
        lemma_segment_len_bound(path.skip(1));
        assert forall|k: int| 0 <= k < segment_len(path) implies path[k] != SEPARATOR by {
            if k > 0 {
                assert(path.skip(1)[k - 1] == path[k]);
            }
        }
    }
}

proof fn lemma_segment_len_is(path: Seq<u8>, m: int)
    requires
        0 <= m <= path.len(),
        forall|k: int| 0 <= k < m ==> path[k] != SEPARATOR,
        m < path.len() ==> path[m] == SEPARATOR,
    ensures
        segment_len(path) == m,
    decreases m,
{
    if m > 0 {
        assert forall|k: int| 0 <= k < m - 1 implies path.skip(1)[k] != SEPARATOR by {
            assert(path.skip(1)[k] == path[k + 1]);
        }
        if m - 1 < path.skip(1).len() {
            assert(path.skip(1)[m - 1] == path[m]);
        }
        lemma_segment_len_is(path.skip(1), m - 1);
    }
}

/// The named components of a path, in order: its segments between
/// separators that are neither empty nor `.`.
pub open spec fn path_parts(path: Seq<u8>) -> Seq<Seq<u8>>
    decreases path.len(),
{
    if path.len() == 0 {
        Seq::empty()
    } else {
        let n = segment_len(path);
        proof {
            lemma_segment_len_bound(path);
        }
        let segment = path.take(n as int);
        let rest = if n < path.len() {
            path.skip((n + 1) as int)
        } else {
            Seq::<u8>::empty()
        };
        (if names_component(segment) {
            seq![segment]
        } else {
            Seq::empty()
        }) + path_parts(rest)
    }
}

/// Two paths have the same components.
pub open spec fn same_path(a: Seq<u8>, b: Seq<u8>) -> bool {
    &&& has_root(a) == has_root(b)
    &&& starts_at_current_dir(a) == starts_at_current_dir(b)
    &&& path_parts(a) == path_parts(b)
}

/// The views of a list of byte strings.
pub open spec fn views(parts: Seq<Vec<u8>>) -> Seq<Seq<u8>> {
    parts.map_values(|p: Vec<u8>| p@)
}

fn bytes_eq(a: &[u8], b: &[u8]) -> (equal: bool)
    ensures
        equal == (a@ == b@),
{
    if a.len() != b.len() {
        return false;
    }
    let mut i: usize = 0;
    while i < a.len()
        invariant
            a@.len() == b@.len(),
            0 <= i <= a@.len(),
            forall|k: int| 0 <= k < i ==> a@[k] == b@[k],
        decreases a@.len() - i,
    {
        if a[i] != b[i] {
            return false;
        }
        i = i + 1;
    }
    assert(a@ =~= b@);
    true
}

fn keep_segment(parts: &mut Vec<Vec<u8>>, segment: Vec<u8>)
    ensures
        views(final(parts)@) == views(old(parts)@) + (if names_component(segment@) {
            seq![segment@]
        } else {
            Seq::empty()
        }),
{
    let single = segment.len() == 1 && segment[0] == DOT;
    proof {
        if segment@ == seq![DOT] {
            assert(segment@[0] == DOT);
        }
        if single {
            assert(segment@ =~= seq![DOT]);
        }
    }
    if segment.len() > 0 && !single {
        let ghost before = parts@;
        parts.push(segment);
        proof {
            assert(views(parts@) =~= views(before) + seq![segment@]);
        }
    } else {
        proof {
            assert(views(parts@) =~= views(parts@) + Seq::<Seq<u8>>::empty());
        }
    }
}

/// Splits a path into its named components.
pub fn path_components(path: &[u8]) -> (parts: Vec<Vec<u8>>)
    ensures
        views(parts@) == path_parts(path@),
{
    let mut parts: Vec<Vec<u8>> = Vec::new();
    let mut current: Vec<u8> = Vec::new();
    let mut start: usize = 0;
    let mut i: usize = 0;
    proof {
        assert(path@.skip(0) =~= path@);
        assert(views(parts@) + path_parts(path@) =~= path_parts(path@));
    }
    while i < path.len()
        invariant
            0 <= start <= i <= path@.len(),
            current@ == path@.subrange(start as int, i as int),
            forall|k: int| start <= k < i ==> path@[k] != SEPARATOR,
            path_parts(path@) == views(parts@) + path_parts(path@.skip(start as int)),
        decreases path@.len() - i,
    {
        if path[i] == SEPARATOR {
            let ghost rest = path@.skip(start as int);
            proof {
                assert forall|k: int| 0 <= k < i - start implies rest[k] != SEPARATOR by {
                    assert(rest[k] == path@[start + k]);
                }
                assert(rest[i - start] == path@[i as int]);
                lemma_segment_len_is(rest, i - start);
                assert(rest.take(i - start) =~= current@);
                assert(rest.skip(i - start + 1) =~= path@.skip(i + 1));
            }
            let segment = current;
            keep_segment(&mut parts, segment);
            current = Vec::new();
            start = i + 1;
            proof {
                assert(current@ =~= path@.subrange(start as int, (i + 1) as int));
            }
        } else {
            current.push(path[i]);
            proof {
                assert(current@ =~= path@.subrange(start as int, (i + 1) as int));
            }
        }
        i = i + 1;
    }
    let ghost rest = path@.skip(start as int);
    proof {
        if rest.len() > 0 {
            assert forall|k: int| 0 <= k < rest.len() implies rest[k] != SEPARATOR by {
                assert(rest[k] == path@[start + k]);
            }
            lemma_segment_len_is(rest, rest.len() as int);
            assert(rest.take(rest.len() as int) =~= current@);
            assert(path_parts(Seq::<u8>::empty()) =~= Seq::<Seq<u8>>::empty());
        } else {
            assert(current@ =~= Seq::<u8>::empty());
        }
    }
    keep_segment(&mut parts, current);
    proof {
        if rest.len() == 0 {
            assert(views(parts@) =~= path_parts(path@));
        } else {
            assert(views(parts@) =~= path_parts(path@));
        }
    }
    parts
}

fn same_parts(a: &Vec<Vec<u8>>, b: &Vec<Vec<u8>>) -> (same: bool)
    ensures
        same == (views(a@) == views(b@)),
{
    if a.len() != b.len() {
        proof {
            assert(views(a@).len() != views(b@).len());
        }
        return false;
    }
    let mut i: usize = 0;
    while i < a.len()
        invariant
            a@.len() == b@.len(),
            0 <= i <= a@.len(),
            forall|k: int| 0 <= k < i ==> a@[k]@ == b@[k]@,
        decreases a@.len() - i,
    {
        if !bytes_eq(a[i].as_slice(), b[i].as_slice()) {
            proof {
                assert(views(a@)[i as int] != views(b@)[i as int]);
            }
            return false;
        }
        i = i + 1;
    }
    proof {
        assert(views(a@) =~= views(b@));
    }
    true
}

/// Reports whether two paths have the same components, as
/// `std::path::Path` equality decides on Unix.
pub fn paths_equal(a: &[u8], b: &[u8]) -> (equal: bool)
    ensures
        equal == same_path(a@, b@),
{
    let root_a = a.len() > 0 && a[0] == SEPARATOR;
    let root_b = b.len() > 0 && b[0] == SEPARATOR;
    let dot_a = !root_a && a.len() > 0 && a[0] == DOT && (a.len() == 1 || a[1] == SEPARATOR);
    let dot_b = !root_b && b.len() > 0 && b[0] == DOT && (b.len() == 1 || b[1] == SEPARATOR);
    if root_a != root_b || dot_a != dot_b {
        return false;
    }
    let parts_a = path_components(a);
    let parts_b = path_components(b);
    same_parts(&parts_a, &parts_b)
}

} // verus!
