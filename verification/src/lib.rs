//! Fallible, non-panicking bounds-checked access to slices.
//!
//! The [`GetChecked`] and [`GetCheckedSliceIndex`] traits provide
//! `get_checked` and `get_checked_mut` methods for slices. These methods
//! behave like `get` and `get_mut` but return a [`Result`] instead of an
//! [`Option`]: on an invalid index or range the caller receives an
//! [`IndexError`] that classifies the failure and renders, through
//! [`IndexError::message`], the exact message the native panicking indexing
//! operation would have printed for the same access.

use vstd::prelude::*;

mod decimal;
mod error;

pub use error::IndexError;
pub use error::IndexErrorKind;

verus! {

/// Type definition of [`IndexError`].
pub type Error = IndexError;

/// Type definition of [`IndexErrorKind`].
pub type ErrorKind = IndexErrorKind;

/// Validates a single position against a sequence length: the selected
/// one-element range, or the error the native indexing panic would classify.
pub open spec fn check_position(index: usize, len: usize) -> Result<(int, int), IndexErrorKind> {
    if index < len {
        Ok((index as int, index as int + 1))
    } else {
        Err(IndexErrorKind::Bounds(index, len))
    }
}

/// Validates a half-open range against a sequence length. Order is checked
/// before the end bound, so a backwards range is reported as `Order` even
/// when its end also lies past the sequence.
pub open spec fn check_range(start: usize, end: usize, len: usize) -> Result<
    (int, int),
    IndexErrorKind,
> {
    if start > end {
        Err(IndexErrorKind::Order(start, end))
    } else if end > len {
        Err(IndexErrorKind::EndRange(end, len))
    } else {
        Ok((start as int, end as int))
    }
}

/// Validates a range that is only bounded below.
pub open spec fn check_range_from(start: usize, len: usize) -> Result<(int, int), IndexErrorKind> {
    if start > len {
        Err(IndexErrorKind::StartRange(start, len))
    } else {
        Ok((start as int, len as int))
    }
}

/// Validates a range that is only bounded above, exclusively.
pub open spec fn check_range_to(end: usize, len: usize) -> Result<(int, int), IndexErrorKind> {
    if end > len {
        Err(IndexErrorKind::EndRange(end, len))
    } else {
        Ok((0, end as int))
    }
}

/// Validates a range with an inclusive end bound. The end bound is first
/// normalized to an exclusive one; when that addition overflows `usize` the
/// overflow is reported before any order or length comparison, because the
/// normalization itself cannot proceed.
pub open spec fn check_range_inclusive(start: usize, end: usize, len: usize) -> Result<
    (int, int),
    IndexErrorKind,
> {
    if end == usize::MAX {
        Err(IndexErrorKind::EndOverflow())
    } else {
        check_range(start, (end + 1) as usize, len)
    }
}

/// Relies on `core::ops::RangeTo`: a plain record whose public `end` field
/// is the exclusive upper bound that a `..end` expression carries.
#[verifier::external_type_specification]
#[verifier::reject_recursive_types(Idx)]
pub struct ExRangeTo<Idx>(core::ops::RangeTo<Idx>);

/// Relies on `core::ops::RangeFrom`: a plain record whose public `start`
/// field is the inclusive lower bound that a `start..` expression carries.
#[verifier::external_type_specification]
#[verifier::reject_recursive_types(Idx)]
pub struct ExRangeFrom<Idx>(core::ops::RangeFrom<Idx>);

/// Relies on `core::ops::RangeFull`: the field-less record that a `..`
/// expression carries.
#[verifier::external_type_specification]
pub struct ExRangeFull(core::ops::RangeFull);

/// Relies on `core::ops::RangeToInclusive`: a plain record whose public
/// `end` field is the inclusive upper bound that a `..=end` expression
/// carries.
#[verifier::external_type_specification]
#[verifier::reject_recursive_types(Idx)]
pub struct ExRangeToInclusive<Idx>(core::ops::RangeToInclusive<Idx>);

/// Relies on `core::ops::RangeInclusive::start`: it returns a reference to
/// the inclusive lower bound the range was created with, regardless of any
/// iteration state.
pub assume_specification<Idx>[ core::ops::RangeInclusive::<Idx>::start ](
    r: &core::ops::RangeInclusive<Idx>,
) -> (s: &Idx)
    ensures
        *s == r@.start,
;

/// Relies on `core::ops::RangeInclusive::end`: it returns a reference to the
/// inclusive upper bound the range was created with, regardless of any
/// iteration state.
pub assume_specification<Idx>[ core::ops::RangeInclusive::<Idx>::end ](
    r: &core::ops::RangeInclusive<Idx>,
) -> (e: &Idx)
    ensures
        *e == r@.end,
;

/// A helper trait used for adding `get_checked` and `get_checked_mut`
/// indexing operations to `usize`, `Range`, `RangeTo`, `RangeFrom`,
/// `RangeFull`, `RangeInclusive`, and `RangeToInclusive`.
///
/// Each implementing index shape contributes its validation rule as the spec
/// function [`outcome`](GetCheckedSliceIndex::outcome), and the two methods
/// promise to return a view exactly when that rule accepts the index, and the
/// matching [`IndexError`] exactly when it rejects it.
pub trait GetCheckedSliceIndex<T>: Sized {
    /// The output type returned by methods: a single element for a position,
    /// a subslice for every range shape.
    type Output: ?Sized;

    /// The normalized half-open element range this index selects from a
    /// sequence of length `len`, or the error classification when the index
    /// is invalid for that length.
    spec fn outcome(self, len: usize) -> Result<(int, int), IndexErrorKind>;

    /// Whether `out` is the view of `s` that this index selects.
    spec fn selects(self, s: Seq<T>, out: &Self::Output) -> bool;

    /// The sequence left behind once a mutable view returned for this index
    /// holds `fin`: the selected part is replaced, the rest is untouched.
    spec fn spliced(self, s: Seq<T>, fin: &Self::Output) -> Seq<T>;

    /// Accepts a slice and returns a `Result` containing a reference to the
    /// element or subslice corresponding to the index upon which the method
    /// is called, or an [`IndexError`] classifying why the index is invalid
    /// for the slice's length.
    fn get_checked<'a>(self, slice: &'a [T]) -> (r: Result<&'a Self::Output, IndexError>)
        ensures
            r is Ok ==> self.outcome(slice@.len() as usize) is Ok && self.selects(
                slice@,
                r->Ok_0,
            ),
            r is Err ==> self.outcome(slice@.len() as usize) is Err && r->Err_0@ == self.outcome(
                slice@.len() as usize,
            )->Err_0,
    ;

    /// Accepts a mutable slice and returns a `Result` containing a mutable
    /// reference to the element or subslice corresponding to the index upon
    /// which the method is called, or an [`IndexError`] classifying why the
    /// index is invalid for the slice's length. Writes through the returned
    /// view land in the selected part of the slice and nowhere else.
    fn get_checked_mut<'a>(self, slice: &'a mut [T]) -> (r: Result<
        &'a mut Self::Output,
        IndexError,
    >)
        ensures
            r is Ok ==> self.outcome(old(slice)@.len() as usize) is Ok && self.selects(
                old(slice)@,
                r->Ok_0,
            ) && final(slice)@ == self.spliced(old(slice)@, final(r->Ok_0)),
            r is Err ==> self.outcome(old(slice)@.len() as usize) is Err && r->Err_0@
                == self.outcome(old(slice)@.len() as usize)->Err_0 && final(slice)@ == old(
                slice,
            )@,
    ;
}

impl<T> GetCheckedSliceIndex<T> for usize {
    type Output = T;

    open spec fn outcome(self, len: usize) -> Result<(int, int), IndexErrorKind> {
        check_position(self, len)
    }

    open spec fn selects(self, s: Seq<T>, out: &T) -> bool {
        *out == s[self as int]
    }

    open spec fn spliced(self, s: Seq<T>, fin: &T) -> Seq<T> {
        s.update(self as int, *fin)
    }

    fn get_checked<'a>(self, slice: &'a [T]) -> (r: Result<&'a T, IndexError>) {
        if self < slice.len() {
            Ok(vstd::slice::slice_index_get(slice, self))
        } else {
            Err(IndexError::new(IndexErrorKind::Bounds(self, slice.len())))
        }
    }

    fn get_checked_mut<'a>(self, slice: &'a mut [T]) -> (r: Result<&'a mut T, IndexError>) {
        let len = slice.len();
        if self < len {
            Ok(&mut slice[self])
        } else {
            Err(IndexError::new(IndexErrorKind::Bounds(self, len)))
        }
    }
}

impl<T> GetCheckedSliceIndex<T> for core::ops::Range<usize> {
    type Output = [T];

    open spec fn outcome(self, len: usize) -> Result<(int, int), IndexErrorKind> {
        check_range(self.start, self.end, len)
    }

    open spec fn selects(self, s: Seq<T>, out: &[T]) -> bool {
        out@ == s.subrange(self.start as int, self.end as int)
    }

    open spec fn spliced(self, s: Seq<T>, fin: &[T]) -> Seq<T> {
        s.subrange(0, self.start as int) + fin@ + s.subrange(self.end as int, s.len() as int)
    }

    fn get_checked<'a>(self, slice: &'a [T]) -> (r: Result<&'a [T], IndexError>) {
        let len = slice.len();
        if self.start > self.end {
            Err(IndexError::new(IndexErrorKind::Order(self.start, self.end)))
        } else if self.end > len {
            Err(IndexError::new(IndexErrorKind::EndRange(self.end, len)))
        } else {
            Ok(&slice[self])
        }
    }

    fn get_checked_mut<'a>(self, slice: &'a mut [T]) -> (r: Result<&'a mut [T], IndexError>) {
        let len = slice.len();
        let start = self.start;
        let end = self.end;
        if start > end {
            Err(IndexError::new(IndexErrorKind::Order(start, end)))
        } else if end > len {
            Err(IndexError::new(IndexErrorKind::EndRange(end, len)))
        } else {
            let ghost s0 = slice@;
            let (front, rest) = slice.split_at_mut(start);
            let (mid, back) = rest.split_at_mut(end - start);
            proof {
                assert(mid@ =~= s0.subrange(start as int, end as int));
                assert(back@ =~= s0.subrange(end as int, s0.len() as int));
                assert(final(front)@ + (final(mid)@ + final(back)@) =~= s0.subrange(
                    0,
                    start as int,
                ) + final(mid)@ + s0.subrange(end as int, s0.len() as int));
            }
            Ok(mid)
        }
    }
}

impl<T> GetCheckedSliceIndex<T> for core::ops::RangeTo<usize> {
    type Output = [T];

    open spec fn outcome(self, len: usize) -> Result<(int, int), IndexErrorKind> {
        check_range_to(self.end, len)
    }

    open spec fn selects(self, s: Seq<T>, out: &[T]) -> bool {
        out@ == s.subrange(0, self.end as int)
    }

    open spec fn spliced(self, s: Seq<T>, fin: &[T]) -> Seq<T> {
        fin@ + s.subrange(self.end as int, s.len() as int)
    }

    fn get_checked<'a>(self, slice: &'a [T]) -> (r: Result<&'a [T], IndexError>) {
        let len = slice.len();
        if self.end > len {
            Err(IndexError::new(IndexErrorKind::EndRange(self.end, len)))
        } else {
            Ok(&slice[0..self.end])
        }
    }

    fn get_checked_mut<'a>(self, slice: &'a mut [T]) -> (r: Result<&'a mut [T], IndexError>) {
        let len = slice.len();
        let end = self.end;
        if end > len {
            Err(IndexError::new(IndexErrorKind::EndRange(end, len)))
        } else {
            let (mid, _back) = slice.split_at_mut(end);
            Ok(mid)
        }
    }
}

impl<T> GetCheckedSliceIndex<T> for core::ops::RangeFrom<usize> {
    type Output = [T];

    open spec fn outcome(self, len: usize) -> Result<(int, int), IndexErrorKind> {
        check_range_from(self.start, len)
    }

    open spec fn selects(self, s: Seq<T>, out: &[T]) -> bool {
        out@ == s.subrange(self.start as int, s.len() as int)
    }

    open spec fn spliced(self, s: Seq<T>, fin: &[T]) -> Seq<T> {
        s.subrange(0, self.start as int) + fin@
    }

    fn get_checked<'a>(self, slice: &'a [T]) -> (r: Result<&'a [T], IndexError>) {
        let len = slice.len();
        if self.start > len {
            Err(IndexError::new(IndexErrorKind::StartRange(self.start, len)))
        } else {
            Ok(&slice[self.start..len])
        }
    }

    fn get_checked_mut<'a>(self, slice: &'a mut [T]) -> (r: Result<&'a mut [T], IndexError>) {
        let len = slice.len();
        let start = self.start;
        if start > len {
            Err(IndexError::new(IndexErrorKind::StartRange(start, len)))
        } else {
            let (_front, mid) = slice.split_at_mut(start);
            Ok(mid)
        }
    }
}

impl<T> GetCheckedSliceIndex<T> for core::ops::RangeFull {
    type Output = [T];

    open spec fn outcome(self, len: usize) -> Result<(int, int), IndexErrorKind> {
        Ok((0, len as int))
    }

    open spec fn selects(self, s: Seq<T>, out: &[T]) -> bool {
        out@ == s
    }

    open spec fn spliced(self, s: Seq<T>, fin: &[T]) -> Seq<T> {
        fin@
    }

    fn get_checked<'a>(self, slice: &'a [T]) -> (r: Result<&'a [T], IndexError>) {
        Ok(slice)
    }

    fn get_checked_mut<'a>(self, slice: &'a mut [T]) -> (r: Result<&'a mut [T], IndexError>) {
        Ok(slice)
    }
}

impl<T> GetCheckedSliceIndex<T> for core::ops::RangeInclusive<usize> {
    type Output = [T];

    open spec fn outcome(self, len: usize) -> Result<(int, int), IndexErrorKind> {
        check_range_inclusive(self@.start, self@.end, len)
    }

    open spec fn selects(self, s: Seq<T>, out: &[T]) -> bool {
        out@ == s.subrange(self@.start as int, self@.end as int + 1)
    }

    open spec fn spliced(self, s: Seq<T>, fin: &[T]) -> Seq<T> {
        s.subrange(0, self@.start as int) + fin@ + s.subrange(
            self@.end as int + 1,
            s.len() as int,
        )
    }

    fn get_checked<'a>(self, slice: &'a [T]) -> (r: Result<&'a [T], IndexError>) {
        let start = *self.start();
        let end_inclusive = *self.end();
        let len = slice.len();
        match end_inclusive.checked_add(1) {
            None => Err(IndexError::new(IndexErrorKind::EndOverflow())),
            Some(end) => {
                if start > end {
                    Err(IndexError::new(IndexErrorKind::Order(start, end)))
                } else if end > len {
                    Err(IndexError::new(IndexErrorKind::EndRange(end, len)))
                } else {
                    Ok(&slice[start..end])
                }
            },
        }
    }

    fn get_checked_mut<'a>(self, slice: &'a mut [T]) -> (r: Result<&'a mut [T], IndexError>) {
        let start = *self.start();
        let end_inclusive = *self.end();
        let len = slice.len();
        match end_inclusive.checked_add(1) {
            None => Err(IndexError::new(IndexErrorKind::EndOverflow())),
            Some(end) => {
                if start > end {
                    Err(IndexError::new(IndexErrorKind::Order(start, end)))
                } else if end > len {
                    Err(IndexError::new(IndexErrorKind::EndRange(end, len)))
                } else {
                    let ghost s0 = slice@;
                    let (front, rest) = slice.split_at_mut(start);
                    let (mid, back) = rest.split_at_mut(end - start);
                    proof {
                        assert(mid@ =~= s0.subrange(start as int, end as int));
                        assert(back@ =~= s0.subrange(end as int, s0.len() as int));
                        assert(final(front)@ + (final(mid)@ + final(back)@) =~= s0.subrange(
                            0,
                            start as int,
                        ) + final(mid)@ + s0.subrange(end as int, s0.len() as int));
                    }
                    Ok(mid)
                }
            },
        }
    }
}

impl<T> GetCheckedSliceIndex<T> for core::ops::RangeToInclusive<usize> {
    type Output = [T];

    open spec fn outcome(self, len: usize) -> Result<(int, int), IndexErrorKind> {
        check_range_inclusive(0, self.end, len)
    }

    open spec fn selects(self, s: Seq<T>, out: &[T]) -> bool {
        out@ == s.subrange(0, self.end as int + 1)
    }

    open spec fn spliced(self, s: Seq<T>, fin: &[T]) -> Seq<T> {
        fin@ + s.subrange(self.end as int + 1, s.len() as int)
    }

    fn get_checked<'a>(self, slice: &'a [T]) -> (r: Result<&'a [T], IndexError>) {
        core::ops::RangeInclusive::new(0, self.end).get_checked(slice)
    }

    fn get_checked_mut<'a>(self, slice: &'a mut [T]) -> (r: Result<&'a mut [T], IndexError>) {
        core::ops::RangeInclusive::new(0, self.end).get_checked_mut(slice)
    }
}

/// Trait adding `get_checked` and `get_checked_mut` indexing implementations
/// to `[T]`.
pub trait GetChecked<T>: View<V = Seq<T>> {
    /// Accepts a `usize` or range and returns a `Result` containing a
    /// reference to the element or subslice corresponding to the index, or an
    /// [`IndexError`] classifying why the index is invalid for this slice's
    /// length.
    fn get_checked<'a, I: GetCheckedSliceIndex<T>>(&'a self, index: I) -> (r: Result<
        &'a I::Output,
        IndexError,
    >)
        ensures
            r is Ok ==> index.outcome(self@.len() as usize) is Ok && index.selects(
                self@,
                r->Ok_0,
            ),
            r is Err ==> index.outcome(self@.len() as usize) is Err && r->Err_0@ == index.outcome(
                self@.len() as usize,
            )->Err_0,
    ;

    /// Accepts a `usize` or range and returns a `Result` containing a mutable
    /// reference to the element or subslice corresponding to the index, or an
    /// [`IndexError`] classifying why the index is invalid for this slice's
    /// length. Writes through the returned view land in the selected part of
    /// the slice and nowhere else.
    fn get_checked_mut<'a, I: GetCheckedSliceIndex<T>>(&'a mut self, index: I) -> (r: Result<
        &'a mut I::Output,
        IndexError,
    >)
        ensures
            r is Ok ==> index.outcome(old(self)@.len() as usize) is Ok && index.selects(
                old(self)@,
                r->Ok_0,
            ) && final(self)@ == index.spliced(old(self)@, final(r->Ok_0)),
            r is Err ==> index.outcome(old(self)@.len() as usize) is Err && r->Err_0@
                == index.outcome(old(self)@.len() as usize)->Err_0 && final(self)@ == old(
                self,
            )@,
    ;
}

impl<T> GetChecked<T> for [T] {
    fn get_checked<'a, I: GetCheckedSliceIndex<T>>(&'a self, index: I) -> (r: Result<
        &'a I::Output,
        IndexError,
    >) {
        index.get_checked(self)
    }

    fn get_checked_mut<'a, I: GetCheckedSliceIndex<T>>(&'a mut self, index: I) -> (r: Result<
        &'a mut I::Output,
        IndexError,
    >) {
        index.get_checked_mut(self)
    }
}

/// For every position and sequence length: validation accepts the position
/// exactly when it lies below the length, selecting the one-element range at
/// that position; otherwise it reports `Bounds` carrying the position and
/// the length.
pub proof fn lemma_position_classifies(index: usize, len: usize)
    ensures
        index < len <==> check_position(index, len) is Ok,
        index < len ==> check_position(index, len)->Ok_0 == (index as int, index as int + 1),
        index >= len ==> check_position(index, len)->Err_0 == IndexErrorKind::Bounds(index, len),
{
}

/// For all `start <= end <= len`: the half-open range `start..end` is
/// accepted, and the subrange it selects has length `end - start`.
pub proof fn lemma_in_bounds_range_accepted<T>(start: usize, end: usize, s: Seq<T>)
    requires
        start <= end,
        end <= s.len(),
        s.len() <= usize::MAX,
    ensures
        check_range(start, end, s.len() as usize) == Ok::<(int, int), IndexErrorKind>(
            (start as int, end as int),
        ),
        s.subrange(start as int, end as int).len() == end - start,
{
}

/// Order priority: a range whose start lies after its end is reported as
/// `Order` for every sequence length, even when its end bound also lies past
/// the sequence.
pub proof fn lemma_order_before_end_range(start: usize, end: usize, len: usize)
    requires
        start > end,
    ensures
        check_range(start, end, len) == Err::<(int, int), IndexErrorKind>(
            IndexErrorKind::Order(start, end),
        ),
{
}

/// Overflow priority: a range with an inclusive end bound at the maximum
/// representable index is reported as `EndOverflow` for every start bound
/// and every sequence length.
pub proof fn lemma_end_overflow_first(start: usize, len: usize)
    ensures
        check_range_inclusive(start, usize::MAX, len) == Err::<(int, int), IndexErrorKind>(
            IndexErrorKind::EndOverflow(),
        ),
{
}

/// Round trip: a view accepted and selected for `start..end` equals, element
/// for element, every result the native panicking indexing operation may
/// return for the same range on the same slice.
pub proof fn lemma_checked_view_matches_native<T>(
    range: core::ops::Range<usize>,
    slice: &[T],
    checked: &[T],
    native: &[T],
)
    requires
        <core::ops::Range<usize> as GetCheckedSliceIndex<T>>::outcome(
            range,
            slice@.len() as usize,
        ) is Ok,
        <core::ops::Range<usize> as GetCheckedSliceIndex<T>>::selects(range, slice@, checked),
        call_ensures(
            <core::ops::Range<usize> as core::slice::SliceIndex<[T]>>::index,
            (range, slice),
            native,
        ),
    ensures
        checked@ == native@,
{
}

/// Full-range access is accepted for every sequence length, including zero,
/// and the view it selects is the whole sequence.
pub proof fn lemma_full_range_always_accepted<T>(
    full: core::ops::RangeFull,
    len: usize,
    s: Seq<T>,
    out: &[T],
)
    ensures
        <core::ops::RangeFull as GetCheckedSliceIndex<T>>::outcome(full, len) == Ok::<
            (int, int),
            IndexErrorKind,
        >((0int, len as int)),
        <core::ops::RangeFull as GetCheckedSliceIndex<T>>::selects(full, s, out) <==> out@ == s,
{
}

} // verus!
