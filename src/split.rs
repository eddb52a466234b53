//! Splitting one mutable sequence into a low and a high view that share its storage.
use vstd::prelude::*;

verus! {

/// The low part of `s`: the elements at indices `[0, mid)`.
pub open spec fn low_part<T>(s: Seq<T>, mid: int) -> Seq<T> {
    s.subrange(0, mid)
}

/// The high part of `s`: the elements at indices `[mid, s.len())`.
pub open spec fn high_part<T>(s: Seq<T>, mid: int) -> Seq<T> {
    s.subrange(mid, s.len() as int)
}

/// Splits `values` at `mid` into two disjoint mutable views: the low one covers
/// `[0, mid)`, the high one `[mid, len)`. Both views borrow the storage of
/// `values`, so whatever is written through them is what `values` holds once
/// they are dropped. An index past the end is a caller error, ruled out here.
pub fn split_at_mut<T>(values: &mut [T], mid: usize) -> (views: (&mut [T], &mut [T]))
    requires
        mid <= old(values)@.len(),
    ensures
        views.0@ == low_part(old(values)@, mid as int),
        views.1@ == high_part(old(values)@, mid as int),
        views.0@.len() == mid,
        views.1@.len() == old(values)@.len() - mid,
        views.0@ + views.1@ == old(values)@,
        final(values)@ == final(views.0)@ + final(views.1)@,
{
    let ghost s = values@;
    let views = values.split_at_mut(mid);
    proof {
        assert(views.0@ + views.1@ =~= s);
    }
    views
}

/// Like `split_at_mut`, but an index past the end is answered with `None`
/// instead of being ruled out: no view, and `values` left as it was.
pub fn split_at_mut_checked<T>(values: &mut [T], mid: usize) -> (views: Option<
    (&mut [T], &mut [T]),
>)
    ensures
        views is None <==> mid > old(values)@.len(),
        views is None ==> final(values)@ == old(values)@,
        views is Some ==> {
            let (low, high) = views.unwrap();
            &&& low@ == low_part(old(values)@, mid as int)
            &&& high@ == high_part(old(values)@, mid as int)
            &&& final(values)@ == final(low)@ + final(high)@
        },
{
    if mid <= values.len() {
        Some(split_at_mut(values, mid))
    } else {
        None
    }
}

/// The two parts of a split have lengths `mid` and `s.len() - mid`, and the
/// low part followed by the high part is `s` again, in its order.
pub proof fn lemma_parts_rebuild<T>(s: Seq<T>, mid: int)
    requires
        0 <= mid <= s.len(),
    ensures
        low_part(s, mid).len() == mid,
        high_part(s, mid).len() == s.len() - mid,
        low_part(s, mid) + high_part(s, mid) == s,
{
    assert(low_part(s, mid) + high_part(s, mid) =~= s);
}

/// Writing `x` at index `j` of the low view, with the high view untouched,
/// leaves the original reading `x` at index `j` and nothing else changed.
pub proof fn lemma_low_write_reaches_original<T>(s: Seq<T>, mid: int, j: int, x: T)
    requires
        0 <= j < mid <= s.len(),
    ensures
        low_part(s, mid).update(j, x) + high_part(s, mid) == s.update(j, x),
{
    assert(low_part(s, mid).update(j, x) + high_part(s, mid) =~= s.update(j, x));
}

/// Writing `x` at index `j` of the high view, with the low view untouched,
/// leaves the original reading `x` at index `mid + j` and nothing else changed.
pub proof fn lemma_high_write_reaches_original<T>(s: Seq<T>, mid: int, j: int, x: T)
    requires
        0 <= mid <= s.len(),
        0 <= j < s.len() - mid,
    ensures
        low_part(s, mid) + high_part(s, mid).update(j, x) == s.update(mid + j, x),
{
    assert(low_part(s, mid) + high_part(s, mid).update(j, x) =~= s.update(mid + j, x));
}

} // verus!
