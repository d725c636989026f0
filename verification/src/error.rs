use vstd::prelude::*;

use crate::decimal::to_decimal;
use crate::decimal::decimal;

verus! {

/// The classification of a failed indexing operation, carrying the numeric
/// operands that the matching native panic message would have printed.
///
/// Each variant corresponds one-to-one to a panic condition of the native
/// indexing operator; the message text of each is produced by
/// [`IndexError::message`].
#[derive(Debug, Clone, Copy, PartialEq, Eq, Structural)]
#[non_exhaustive]
pub enum IndexErrorKind {
    /// A single position was out of bounds.
    /// * `0` - the requested index.
    /// * `1` - the length of the sequence.
    Bounds(usize, usize),
    /// A range started after its own end.
    /// * `0` - the start of the range.
    /// * `1` - the (exclusive) end of the range.
    Order(usize, usize),
    /// A range started past the end of the sequence.
    /// * `0` - the start of the range.
    /// * `1` - the length of the sequence.
    StartRange(usize, usize),
    /// A range ended past the end of the sequence.
    /// * `0` - the (exclusive) end of the range.
    /// * `1` - the length of the sequence.
    EndRange(usize, usize),
    /// Normalizing an exclusive start bound to an inclusive one overflowed
    /// `usize`.
    StartOverflow(),
    /// Normalizing an inclusive end bound to an exclusive one overflowed
    /// `usize`.
    EndOverflow(),
}

impl IndexErrorKind {
    /// The text of the message that the native indexing operation prints when
    /// it aborts for this reason, as a sequence of characters.
    pub open spec fn text(self) -> Seq<char> {
        match self {
            IndexErrorKind::Bounds(index, len) =>
                "index out of bounds: the len is "@ + decimal(index as nat)
                    + " but the index is "@ + decimal(len as nat),
            IndexErrorKind::Order(start, end) =>
                "slice index starts at "@ + decimal(start as nat)
                    + " but ends at "@ + decimal(end as nat),
            IndexErrorKind::StartRange(start, len) =>
                "range start index "@ + decimal(start as nat)
                    + " out of range for slice of length "@ + decimal(len as nat),
            IndexErrorKind::EndRange(end, len) =>
                "range end index "@ + decimal(end as nat)
                    + " out of range for slice of length "@ + decimal(len as nat),
            IndexErrorKind::StartOverflow() =>
                "attempted to index slice from after maximum usize"@,
            IndexErrorKind::EndOverflow() =>
                "attempted to index slice up to maximum usize"@,
        }
    }
}

/// An error returned when `get_checked` or `get_checked_mut` rejects an index
/// or range.
///
/// An `IndexError` is produced exactly when indexing the same sequence with
/// the same index through `core::ops::Index` would have panicked, and
/// [`IndexError::message`] renders the very message that panic would have
/// printed. The cause can be inspected programmatically through
/// [`IndexError::kind`].
#[derive(Debug, Clone, Copy, PartialEq, Eq, Structural)]
pub struct IndexError {
    kind: IndexErrorKind,
}

impl View for IndexError {
    type V = IndexErrorKind;

    closed spec fn view(&self) -> IndexErrorKind {
        self.kind
    }
}

impl IndexError {
    /// Builds an error of the given kind; only the checked-access operations
    /// construct errors.
    pub(crate) fn new(kind: IndexErrorKind) -> (e: IndexError)
        ensures
            e@ == kind,
    {
        IndexError { kind }
    }

    /// Outputs the detailed cause of an index error.
    pub fn kind(&self) -> (k: &IndexErrorKind)
        ensures
            *k == self@,
    {
        &self.kind
    }

    /// Renders the error message: the exact text of the panic that the native
    /// indexing operation would have raised.
    pub fn message(&self) -> (s: String)
        ensures
            s@ == self@.text(),
    {
        let (part_a, part_b): (&'static str, &'static str) = match &self.kind {
            IndexErrorKind::Bounds(..) => (
                "index out of bounds: the len is ",
                " but the index is ",
            ),
            IndexErrorKind::Order(..) => ("slice index starts at ", " but ends at "),
            IndexErrorKind::StartRange(..) => (
                "range start index ",
                " out of range for slice of length ",
            ),
            IndexErrorKind::EndRange(..) => (
                "range end index ",
                " out of range for slice of length ",
            ),
            IndexErrorKind::StartOverflow() => (
                "attempted to index slice from after maximum usize",
                "",
            ),
            IndexErrorKind::EndOverflow() => (
                "attempted to index slice up to maximum usize",
                "",
            ),
        };
        match &self.kind {
            IndexErrorKind::Bounds(a, b)
            | IndexErrorKind::Order(a, b)
            | IndexErrorKind::StartRange(a, b)
            | IndexErrorKind::EndRange(a, b) => {
                let mut s = part_a.to_owned();
                let num_a = to_decimal(*a);
                s.append(num_a.as_str());
                s.append(part_b);
                let num_b = to_decimal(*b);
                s.append(num_b.as_str());
                s
            },
            IndexErrorKind::StartOverflow() | IndexErrorKind::EndOverflow() => {
                part_a.to_owned()
            },
        }
    }
}

} // verus!
