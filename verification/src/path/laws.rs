//! What holds of the functions on paths.

use vstd::prelude::*;
use crate::path::components;
use crate::path::components_upto;
use crate::path::extension;
use crate::path::extension_replaced;
use crate::path::file_name;
use crate::path::is_absolute;
use crate::path::is_padding;
use crate::path::joined;
use crate::path::last_dot;
use crate::path::lies_within;
use crate::path::name_end;
use crate::path::name_start;
use crate::path::segment_start;
use crate::path::stem_len;
use crate::path::trimmed_end;
use crate::path::DOT;
use crate::path::SEPARATOR;

verus! {

/// What holds of the start of a segment: it lies at or before `end`, follows
/// a separator unless it is 0, and no separator lies between it and `end`.
pub proof fn lemma_segment_start(path: Seq<u8>, end: int)
    requires
        0 <= end <= path.len(),
    ensures
        0 <= segment_start(path, end) <= end,
        segment_start(path, end) > 0 ==> path[segment_start(path, end) - 1] == SEPARATOR,
        forall|i: int| segment_start(path, end) <= i < end ==> path[i] != SEPARATOR,
    decreases end,
{
    if end > 0 && path[end - 1] != SEPARATOR {
        lemma_segment_start(path, end - 1);
    }
}

/// What holds of a trimmed end: it lies at or before `end`, the byte before
/// it is no padding, and all that lies between it and `end` is padding.
pub proof fn lemma_trimmed_end(path: Seq<u8>, end: int)
    requires
        0 <= end <= path.len(),
    ensures
        0 <= trimmed_end(path, end) <= end,
        !is_padding(path, trimmed_end(path, end)),
        forall|i: int| trimmed_end(path, end) < i <= end ==> is_padding(path, i),
    decreases end,
{
    if is_padding(path, end) {
        lemma_trimmed_end(path, end - 1);
    }
}

/// What holds of the last dot: it is -1 or the index of a dot before `end`,
/// and no dot lies between it and `end`.
pub proof fn lemma_last_dot(name: Seq<u8>, end: int)
    requires
        0 <= end <= name.len(),
    ensures
        -1 <= last_dot(name, end) < end,
        last_dot(name, end) >= 0 ==> name[last_dot(name, end)] == DOT,
        forall|i: int| last_dot(name, end) < i < end ==> name[i] != DOT,
    decreases end,
{
    if end > 0 && name[end - 1] != DOT {
        lemma_last_dot(name, end - 1);
    }
}

/// The start of a segment depends on the bytes before its end alone.
pub proof fn lemma_segment_start_ignores_rest(a: Seq<u8>, b: Seq<u8>, end: int)
    requires
        0 <= end <= a.len(),
    ensures
        segment_start(a + b, end) == segment_start(a, end),
    decreases end,
{
    if end > 0 && a[end - 1] != SEPARATOR {
        lemma_segment_start_ignores_rest(a, b, end - 1);
    }
}

/// The components of the first bytes of a path depend on those bytes alone.
pub proof fn lemma_components_ignore_rest(a: Seq<u8>, b: Seq<u8>, end: int)
    requires
        0 <= end <= a.len(),
    ensures
        components_upto(a + b, end) == components_upto(a, end),
    decreases end,
{
    if end > 0 {
        lemma_segment_start_ignores_rest(a, b, end);
        lemma_segment_start(a, end);
        let start = segment_start(a, end);
        assert((a + b).subrange(start, end) =~= a.subrange(start, end));
        if start > 0 {
            lemma_components_ignore_rest(a, b, start - 1);
        }
    }
}

/// A separator at the end of a path adds no component.
pub proof fn lemma_trailing_separator_adds_nothing(path: Seq<u8>)
    ensures
        components(path.push(SEPARATOR)) == components(path),
{
    let longer = path.push(SEPARATOR);
    let end = longer.len() as int;
    assert(longer =~= path + seq![SEPARATOR]);
    assert(longer.subrange(end, end) =~= Seq::<u8>::empty());
    lemma_components_ignore_rest(path, seq![SEPARATOR], path.len() as int);
}

/// Behind a path that is empty or ends in a separator, a segment starts
/// where it starts in what follows.
pub proof fn lemma_segment_start_after(a: Seq<u8>, b: Seq<u8>, end: int)
    requires
        a.len() == 0 || a.last() == SEPARATOR,
        0 <= end <= b.len(),
    ensures
        segment_start(a + b, a.len() + end) == a.len() + segment_start(b, end),
    decreases end,
{
    if end > 0 {
        assert((a + b)[a.len() + end - 1] == b[end - 1]);
        if b[end - 1] != SEPARATOR {
            lemma_segment_start_after(a, b, end - 1);
        }
    } else if a.len() > 0 {
        assert((a + b)[a.len() - 1] == a.last());
    }
}

/// Behind a path that is empty or ends in a separator, the components of
/// what follows come after the components of the path.
pub proof fn lemma_components_after(a: Seq<u8>, b: Seq<u8>, end: int)
    requires
        a.len() == 0 || a.last() == SEPARATOR,
        0 <= end <= b.len(),
    ensures
        components_upto(a + b, a.len() + end) == components(a) + components_upto(b, end),
    decreases end,
{
    let whole = a + b;
    if end == 0 {
        lemma_components_ignore_rest(a, b, a.len() as int);
        assert(components(a) + Seq::<Seq<u8>>::empty() =~= components(a));
    } else {
        lemma_segment_start_after(a, b, end);
        lemma_segment_start(b, end);
        let start = segment_start(b, end);
        let last = b.subrange(start, end);
        assert(whole.subrange(a.len() + start, a.len() + end) =~= last);
        let before = if start > 0 {
            components_upto(b, start - 1)
        } else {
            Seq::<Seq<u8>>::empty()
        };
        if start > 0 {
            lemma_components_after(a, b, start - 1);
        } else if a.len() > 0 {
            // The last segment of `a` is empty, so `a` has the components of
            // what comes before its final separator.
            lemma_components_ignore_rest(a, b, a.len() - 1);
            assert(a.subrange(a.len() as int, a.len() as int) =~= Seq::<u8>::empty());
            assert(components(a) + before =~= components(a));
        } else {
            assert(components(a) + before =~= components(a));
        }
        assert((components(a) + before).push(last) =~= components(a) + before.push(last));
    }
}

/// Joining a relative path onto a base puts its components behind those of
/// the base.
pub proof fn lemma_components_of_joined(base: Seq<u8>, relative: Seq<u8>)
    requires
        !is_absolute(relative),
    ensures
        components(joined(base, relative)) == components(base) + components(relative),
{
    if base.len() == 0 || base.last() == SEPARATOR {
        lemma_components_after(base, relative, relative.len() as int);
    } else {
        lemma_trailing_separator_adds_nothing(base);
        lemma_components_after(base.push(SEPARATOR), relative, relative.len() as int);
    }
}

/// Joining a relative path onto a base gives a path that lies within the
/// base, component by component. Only a `..` component or a symlink can lead
/// such a path out of the base, and both are gone from a canonical form.
pub proof fn lemma_joined_lies_within(base: Seq<u8>, relative: Seq<u8>)
    requires
        !is_absolute(relative),
    ensures
        lies_within(joined(base, relative), base),
{
    lemma_components_of_joined(base, relative);
    let all = components(base) + components(relative);
    assert(all.subrange(0, components(base).len() as int) =~= components(base));
    if base.len() > 0 {
        assert(joined(base, relative)[0] == base[0]);
    }
}

/// Behind a path that is empty or ends in a separator, the padding at the
/// end of what follows is trimmed as it is trimmed there, as long as
/// something is left of what follows.
pub proof fn lemma_trimmed_end_after(a: Seq<u8>, b: Seq<u8>, end: int)
    requires
        a.len() == 0 || a.last() == SEPARATOR,
        0 <= end <= b.len(),
        trimmed_end(b, end) > 0,
    ensures
        trimmed_end(a + b, a.len() + end) == a.len() + trimmed_end(b, end),
    decreases end,
{
    let whole = a + b;
    if end > 0 {
        assert(whole[a.len() + end - 1] == b[end - 1]);
        if end >= 2 {
            assert(whole[a.len() + end - 2] == b[end - 2]);
        } else if a.len() > 0 {
            assert(whole[a.len() + end - 2] == a.last());
        }
        assert(is_padding(whole, a.len() + end) == is_padding(b, end));
        if is_padding(b, end) {
            lemma_trimmed_end_after(a, b, end - 1);
        }
    }
}

/// The stem of a file name is never empty, and never longer than the name.
pub proof fn lemma_stem_len(name: Seq<u8>)
    requires
        name.len() > 0,
    ensures
        0 < stem_len(name) <= name.len(),
{
    lemma_last_dot(name, name.len() as int);
}

/// Joining a relative path that has a final name onto a base leaves that
/// name and its extension as they are, and replacing the extension before
/// the join is the same as replacing it after.
pub proof fn lemma_final_name_of_joined(base: Seq<u8>, relative: Seq<u8>, ext: Seq<u8>)
    requires
        !is_absolute(relative),
        file_name(relative) is Some,
    ensures
        file_name(joined(base, relative)) == file_name(relative),
        extension(joined(base, relative)) == extension(relative),
        !is_absolute(extension_replaced(relative, ext)),
        extension_replaced(joined(base, relative), ext) == joined(
            base,
            extension_replaced(relative, ext),
        ),
{
    let a = if base.len() == 0 || base.last() == SEPARATOR {
        base
    } else {
        base.push(SEPARATOR)
    };
    let whole = a + relative;
    assert(whole == joined(base, relative));
    let end = name_end(relative);
    let start = name_start(relative);
    let name = relative.subrange(start, end);
    lemma_trimmed_end(relative, relative.len() as int);
    lemma_segment_start(relative, end);
    lemma_trimmed_end_after(a, relative, relative.len() as int);
    lemma_segment_start_after(a, relative, end);
    assert(whole.subrange(a.len() + start, a.len() + end) =~= name);
    lemma_stem_len(name);
    let cut = start + stem_len(name);
    assert(whole.take(a.len() + cut) =~= a + relative.take(cut));
    let replaced = extension_replaced(relative, ext);
    assert(replaced[0] == relative[0]);
    if ext.len() == 0 {
        assert(joined(base, replaced) == a + relative.take(cut));
    } else {
        assert(whole.take(a.len() + cut).push(DOT) + ext =~= a + (relative.take(cut).push(DOT)
            + ext));
    }
}

} // verus!
