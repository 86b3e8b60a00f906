//! Paths as byte strings in which `/` separates the segments.
//!
//! Nothing here touches a file system: every function is a computation on the
//! bytes of a path.

use vstd::prelude::*;
use vstd::slice::slice_subrange;
use vstd::slice::slice_to_vec;

pub mod laws;

verus! {

/// The byte that separates the segments of a path.
pub const SEPARATOR: u8 = 47;

/// The byte that introduces an extension, and of which `.` and `..` are made.
pub const DOT: u8 = 46;

/// Whether `path` starts at the root of the file system.
pub open spec fn is_absolute(path: Seq<u8>) -> bool {
    path.len() > 0 && path[0] == SEPARATOR
}

/// `path` without the separators it starts with.
pub open spec fn without_leading_separators(path: Seq<u8>) -> Seq<u8>
    decreases path.len(),
{
    if path.len() > 0 && path[0] == SEPARATOR {
        without_leading_separators(path.skip(1))
    } else {
        path
    }
}

/// `relative` appended to `base`: an absolute `relative` replaces `base`, and
/// one separator is put between the two unless `base` is empty or already
/// ends in one.
pub open spec fn joined(base: Seq<u8>, relative: Seq<u8>) -> Seq<u8> {
    if is_absolute(relative) {
        relative
    } else if base.len() == 0 || base.last() == SEPARATOR {
        base + relative
    } else {
        base.push(SEPARATOR) + relative
    }
}

/// Where the segment that ends just before index `end` starts: after the
/// nearest separator to the left of `end`, or at the start of `path`.
pub open spec fn segment_start(path: Seq<u8>, end: int) -> int
    decreases end,
{
    if end <= 0 {
        0
    } else if path[end - 1] == SEPARATOR {
        end
    } else {
        segment_start(path, end - 1)
    }
}

/// Whether the byte before index `end` adds nothing to what `path` names: a
/// separator, or the single byte of a `.` segment.
pub open spec fn is_padding(path: Seq<u8>, end: int) -> bool {
    &&& 0 < end <= path.len()
    &&& path[end - 1] == SEPARATOR || (path[end - 1] == DOT && (end == 1 || path[end - 2]
        == SEPARATOR))
}

/// `end` moved left past trailing separators and `.` segments.
pub open spec fn trimmed_end(path: Seq<u8>, end: int) -> int
    decreases end,
{
    if is_padding(path, end) {
        trimmed_end(path, end - 1)
    } else {
        end
    }
}

/// Whether `segment` is the parent segment `..`.
pub open spec fn is_parent(segment: Seq<u8>) -> bool {
    segment.len() == 2 && segment[0] == DOT && segment[1] == DOT
}

/// Where the final name of `path` ends: the whole path less its padding.
pub open spec fn name_end(path: Seq<u8>) -> int {
    trimmed_end(path, path.len() as int)
}

/// Where the final name of `path` starts.
pub open spec fn name_start(path: Seq<u8>) -> int {
    segment_start(path, name_end(path))
}

/// The final name of `path`: its last segment, not counting empty and `.`
/// segments. A path that ends in `..`, or that has no segment left, has none.
pub open spec fn file_name(path: Seq<u8>) -> Option<Seq<u8>> {
    let name = path.subrange(name_start(path), name_end(path));
    if name.len() == 0 || is_parent(name) {
        None
    } else {
        Some(name)
    }
}

/// The index of the last dot among the first `end` bytes of `name`, or -1.
pub open spec fn last_dot(name: Seq<u8>, end: int) -> int
    decreases end,
{
    if end <= 0 {
        -1
    } else if name[end - 1] == DOT {
        end - 1
    } else {
        last_dot(name, end - 1)
    }
}

/// How many bytes of `name` come before its extension. A dot that starts the
/// name introduces no extension.
pub open spec fn stem_len(name: Seq<u8>) -> int {
    let dot = last_dot(name, name.len() as int);
    if dot <= 0 {
        name.len() as int
    } else {
        dot
    }
}

/// The extension of a file name: what follows its last dot, unless that dot
/// starts the name.
pub open spec fn name_extension(name: Seq<u8>) -> Option<Seq<u8>> {
    let dot = last_dot(name, name.len() as int);
    if dot <= 0 {
        None
    } else {
        Some(name.skip(dot + 1))
    }
}

/// The extension of the final name of `path`.
pub open spec fn extension(path: Seq<u8>) -> Option<Seq<u8>> {
    match file_name(path) {
        Some(name) => name_extension(name),
        None => None,
    }
}

/// `path` with the extension of its final name replaced by `ext`: the path is
/// cut where the stem of the name ends, and a dot and `ext` follow unless
/// `ext` is empty. A path without a final name stays as it is.
pub open spec fn extension_replaced(path: Seq<u8>, ext: Seq<u8>) -> Seq<u8> {
    match file_name(path) {
        Some(name) => {
            let kept = path.take(name_start(path) + stem_len(name));
            if ext.len() == 0 {
                kept
            } else {
                kept.push(DOT) + ext
            }
        },
        None => path,
    }
}

/// Whether a segment names something: it is neither empty nor `.`.
pub open spec fn is_name(segment: Seq<u8>) -> bool {
    segment.len() > 0 && !(segment.len() == 1 && segment[0] == DOT)
}

/// The components of the first `end` bytes of `path`.
pub open spec fn components_upto(path: Seq<u8>, end: int) -> Seq<Seq<u8>>
    decreases end,
{
    if end <= 0 {
        Seq::empty()
    } else {
        let start = segment_start(path, end);
        let last = path.subrange(start, end);
        let before = if 0 < start <= end {
            components_upto(path, start - 1)
        } else {
            Seq::empty()
        };
        if is_name(last) {
            before.push(last)
        } else {
            before
        }
    }
}

/// The components of `path`: its segments from left to right, without the
/// empty ones and the `.` ones. A `..` segment is a component like any other.
pub open spec fn components(path: Seq<u8>) -> Seq<Seq<u8>> {
    components_upto(path, path.len() as int)
}

/// Whether `path` lies within `base` component by component: both are
/// absolute or both are relative, and the components of `base` are the first
/// components of `path`.
pub open spec fn lies_within(path: Seq<u8>, base: Seq<u8>) -> bool {
    is_absolute(path) == is_absolute(base) && components(base).is_prefix_of(components(path))
}

/// Whether two byte strings hold the same bytes.
pub fn same_bytes(a: &[u8], b: &[u8]) -> (same: bool)
    ensures
        same == (a@ == b@),
{
    if a.len() != b.len() {
        return false;
    }
    let mut i: usize = 0;
    while i < a.len()
        invariant
            a@.len() == b@.len(),
            i <= a@.len(),
            a@.take(i as int) == b@.take(i as int),
        decreases a@.len() - i,
    {
        if a[i] != b[i] {
            return false;
        }
        proof {
            assert(a@.take(i + 1) =~= a@.take(i as int).push(a@[i as int]));
            assert(b@.take(i + 1) =~= b@.take(i as int).push(b@[i as int]));
        }
        i += 1;
    }
    proof {
        assert(a@ =~= a@.take(i as int));
        assert(b@ =~= b@.take(i as int));
    }
    true
}

/// Appends the bytes of `tail` to `out`.
pub fn append_bytes(out: &mut Vec<u8>, tail: &[u8])
    ensures
        final(out)@ == old(out)@ + tail@,
{
    let mut i: usize = 0;
    while i < tail.len()
        invariant
            i <= tail@.len(),
            out@ == old(out)@ + tail@.take(i as int),
        decreases tail@.len() - i,
    {
        out.push(tail[i]);
        proof {
            assert(tail@.take(i + 1) =~= tail@.take(i as int).push(tail@[i as int]));
        }
        i += 1;
    }
    proof {
        assert(tail@ =~= tail@.take(i as int));
    }
}

/// Strips the separators that `path` starts with.
pub fn trim_leading_separators(path: &[u8]) -> (rest: &[u8])
    ensures
        rest@ == without_leading_separators(path@),
{
    let mut i: usize = 0;
    proof {
        assert(path@.skip(0) =~= path@);
    }
    while i < path.len() && path[i] == SEPARATOR
        invariant
            i <= path@.len(),
            without_leading_separators(path@) == without_leading_separators(path@.skip(i as int)),
        decreases path@.len() - i,
    {
        proof {
            assert(path@.skip(i as int).skip(1) =~= path@.skip(i + 1));
        }
        i += 1;
    }
    proof {
        assert(path@.skip(i as int) =~= path@.subrange(i as int, path@.len() as int));
    }
    slice_subrange(path, i, path.len())
}

/// Joins `relative` onto `base`.
pub fn join(base: &[u8], relative: &[u8]) -> (path: Vec<u8>)
    ensures
        path@ == joined(base@, relative@),
{
    if relative.len() > 0 && relative[0] == SEPARATOR {
        return slice_to_vec(relative);
    }
    let mut path = slice_to_vec(base);
    if base.len() > 0 && base[base.len() - 1] != SEPARATOR {
        path.push(SEPARATOR);
    }
    append_bytes(&mut path, relative);
    path
}

/// Finds where the final name of `path` starts and ends.
pub fn name_span(path: &[u8]) -> (span: (usize, usize))
    ensures
        span.0 == name_start(path@),
        span.1 == name_end(path@),
        span.0 <= span.1 <= path@.len(),
{
    let mut end: usize = path.len();
    while end > 0 && (path[end - 1] == SEPARATOR || (path[end - 1] == DOT && (end == 1 || path[end
        - 2] == SEPARATOR)))
        invariant
            end <= path@.len(),
            name_end(path@) == trimmed_end(path@, end as int),
        decreases end,
    {
        end -= 1;
    }
    let mut start: usize = end;
    while start > 0 && path[start - 1] != SEPARATOR
        invariant
            start <= end <= path@.len(),
            segment_start(path@, end as int) == segment_start(path@, start as int),
        decreases start,
    {
        start -= 1;
    }
    (start, end)
}

/// The final name of `path`, if it has one.
pub fn final_name(path: &[u8]) -> (name: Option<&[u8]>)
    ensures
        (name is Some) == (file_name(path@) is Some),
        name matches Some(n) ==> file_name(path@) == Some(n@),
{
    let (start, end) = name_span(path);
    let name = slice_subrange(path, start, end);
    if name.len() == 0 || (name.len() == 2 && name[0] == DOT && name[1] == DOT) {
        None
    } else {
        Some(name)
    }
}

/// Finds how many bytes of a file name come before its extension.
pub fn stem_length(name: &[u8]) -> (len: usize)
    ensures
        len == stem_len(name@),
        len <= name@.len(),
        len < name@.len() <==> last_dot(name@, name@.len() as int) > 0,
{
    let mut end: usize = name.len();
    while end > 0 && name[end - 1] != DOT
        invariant
            end <= name@.len(),
            last_dot(name@, name@.len() as int) == last_dot(name@, end as int),
        decreases end,
    {
        end -= 1;
    }
    if end <= 1 {
        name.len()
    } else {
        end - 1
    }
}

/// The extension of the final name of `path`, if it has one.
pub fn final_extension(path: &[u8]) -> (ext: Option<&[u8]>)
    ensures
        (ext is Some) == (extension(path@) is Some),
        ext matches Some(e) ==> extension(path@) == Some(e@),
{
    match final_name(path) {
        Some(name) => {
            let stem = stem_length(name);
            if stem < name.len() {
                proof {
                    assert(name@.skip(stem + 1) =~= name@.subrange(stem + 1, name@.len() as int));
                }
                Some(slice_subrange(name, stem + 1, name.len()))
            } else {
                None
            }
        },
        None => None,
    }
}

/// Replaces the extension of the final name of `path` by `ext`.
pub fn with_extension(path: &[u8], ext: &[u8]) -> (replaced: Vec<u8>)
    ensures
        replaced@ == extension_replaced(path@, ext@),
{
    match final_name(path) {
        Some(name) => {
            let (start, _) = name_span(path);
            let stem = stem_length(name);
            proof {
                assert(path@.take(start + stem) =~= path@.subrange(0, start + stem));
            }
            let mut replaced = slice_to_vec(slice_subrange(path, 0, start + stem));
            if ext.len() > 0 {
                replaced.push(DOT);
                append_bytes(&mut replaced, ext);
            }
            replaced
        },
        None => slice_to_vec(path),
    }
}

/// Appends `segment` to `parts` if it names something.
fn push_name(parts: &mut Vec<Vec<u8>>, segment: &[u8])
    ensures
        final(parts).deep_view() == if is_name(segment@) {
            old(parts).deep_view().push(segment@)
        } else {
            old(parts).deep_view()
        },
{
    if segment.len() > 0 && !(segment.len() == 1 && segment[0] == DOT) {
        let part = slice_to_vec(segment);
        proof {
            assert(part.deep_view() =~= segment@);
        }
        parts.push(part);
        proof {
            assert(parts.deep_view() =~= old(parts).deep_view().push(segment@));
        }
    }
}

/// Splits `path` into its components.
pub fn split_components(path: &[u8]) -> (parts: Vec<Vec<u8>>)
    ensures
        parts.deep_view() == components(path@),
{
    let mut parts: Vec<Vec<u8>> = Vec::new();
    let mut start: usize = 0;
    let mut i: usize = 0;
    while i < path.len()
        invariant
            start <= i <= path@.len(),
            start == segment_start(path@, i as int),
            parts.deep_view() == if start == 0 {
                Seq::<Seq<u8>>::empty()
            } else {
                components_upto(path@, start - 1)
            },
        decreases path@.len() - i,
    {
        if path[i] == SEPARATOR {
            push_name(&mut parts, slice_subrange(path, start, i));
            start = i + 1;
        }
        i += 1;
    }
    push_name(&mut parts, slice_subrange(path, start, i));
    parts
}

/// Whether `path` lies within `base` component by component.
pub fn starts_with(path: &[u8], base: &[u8]) -> (inside: bool)
    ensures
        inside == lies_within(path@, base@),
{
    let path_absolute = path.len() > 0 && path[0] == SEPARATOR;
    let base_absolute = base.len() > 0 && base[0] == SEPARATOR;
    if path_absolute != base_absolute {
        return false;
    }
    let have = split_components(path);
    let want = split_components(base);
    if want.len() > have.len() {
        return false;
    }
    let mut i: usize = 0;
    while i < want.len()
        invariant
            i <= want@.len() <= have@.len(),
            want.deep_view() == components(base@),
            have.deep_view() == components(path@),
            forall|k: int| 0 <= k < i ==> want.deep_view()[k] == have.deep_view()[k],
        decreases want@.len() - i,
    {
        let same = same_bytes(want[i].as_slice(), have[i].as_slice());
        proof {
            assert(want.deep_view()[i as int] =~= want@[i as int]@);
            assert(have.deep_view()[i as int] =~= have@[i as int]@);
        }
        if !same {
            return false;
        }
        i += 1;
    }
    true
}

} // verus!
