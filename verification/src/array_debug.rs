//! Showing a long array without filling the screen: its first elements, two
//! dots, and perhaps its last elements.

use vstd::prelude::*;
use vstd::slice::slice_subrange;

verus! {

/// What to show of an array: a first part, whether something was left out
/// after it, and perhaps a last part, before which something was left out
/// in any case.
pub struct DebugArray<'a, T>(&'a [T], bool, Option<&'a [T]>);

/// A [`DebugArray`] that is to be shown on one line.
pub struct DebugArrayDebugger<'a, T>(DebugArray<'a, T>);

/// A [`DebugArray`] as a mathematical value.
pub struct DebugArrayView<T> {
    /// The first part.
    pub first: Seq<T>,
    /// Whether something was left out after the first part.
    pub non_exhaustive: bool,
    /// The last part, if there is one.
    pub continuation: Option<Seq<T>>,
}

impl<T> DebugArrayView<T> {
    /// What is shown: the elements of the first part, then `None`, which
    /// stands for the two dots, if something was left out, then the elements
    /// of the last part.
    pub open spec fn entries(self) -> Seq<Option<T>> {
        let first = Seq::new(self.first.len(), |k: int| Some(self.first[k]));
        match self.continuation {
            Some(last) => first.push(None) + Seq::new(last.len(), |k: int| Some(last[k])),
            None => if self.non_exhaustive {
                first.push(None)
            } else {
                first
            },
        }
    }
}

/// What is shown of `array` where its first `first_elems` and its last
/// `last_elems` elements are asked for. An array that is no longer than
/// `first_elems` is shown whole. A longer one is shown in part: its first
/// `first_elems` elements, and its last `last_elems` elements unless they are
/// none or more than it has.
pub open spec fn shown<T>(array: Seq<T>, first_elems: nat, last_elems: nat) -> DebugArrayView<T> {
    if first_elems >= array.len() {
        DebugArrayView { first: array, non_exhaustive: false, continuation: None }
    } else {
        DebugArrayView {
            first: array.take(first_elems as int),
            non_exhaustive: true,
            continuation: if 0 < last_elems <= array.len() {
                Some(array.skip(array.len() - last_elems))
            } else {
                None
            },
        }
    }
}

impl<'a, T> View for DebugArray<'a, T> {
    type V = DebugArrayView<T>;

    closed spec fn view(&self) -> DebugArrayView<T> {
        DebugArrayView {
            first: self.0@,
            non_exhaustive: self.1,
            continuation: match self.2 {
                Some(last) => Some(last@),
                None => None,
            },
        }
    }
}

impl<'a, T> View for DebugArrayDebugger<'a, T> {
    type V = DebugArrayView<T>;

    closed spec fn view(&self) -> DebugArrayView<T> {
        self.0@
    }
}

impl<'a, T> DebugArray<'a, T> {
    /// Puts together what to show: `array` is the first part,
    /// `non_exhaustive` says whether something was left out after it, and
    /// `continuation` is the last part, if there is one.
    pub fn debug(array: &'a [T], non_exhaustive: bool, continuation: Option<&'a [T]>) -> (shown:
        DebugArrayDebugger<'a, T>)
        ensures
            shown@ == (DebugArrayView {
                first: array@,
                non_exhaustive,
                continuation: match continuation {
                    Some(last) => Some(last@),
                    None => None,
                },
            }),
    {
        DebugArrayDebugger(DebugArray(array, non_exhaustive, continuation))
    }

    /// The first part.
    pub fn first(&self) -> (first: &'a [T])
        ensures
            first@ == self@.first,
    {
        self.0
    }

    /// Whether something was left out after the first part.
    pub fn non_exhaustive(&self) -> (non_exhaustive: bool)
        ensures
            non_exhaustive == self@.non_exhaustive,
    {
        self.1
    }

    /// The last part, if there is one.
    pub fn continuation(&self) -> (continuation: Option<&'a [T]>)
        ensures
            match continuation {
                Some(last) => self@.continuation == Some(last@),
                None => self@.continuation is None,
            },
    {
        self.2
    }

    /// What is shown, in order: the elements, and `None` where the two dots
    /// go.
    pub fn entries(&self) -> (entries: Vec<Option<&'a T>>)
        ensures
            entries@.len() == self@.entries().len(),
            forall|k: int|
                0 <= k < entries@.len() ==> (match #[trigger] entries@[k] {
                    Some(element) => self@.entries()[k] == Some(*element),
                    None => self@.entries()[k] is None,
                }),
    {
        let mut entries: Vec<Option<&'a T>> = Vec::new();
        let first: &'a [T] = self.0;
        let mut k: usize = 0;
        while k < first.len()
            invariant
                k <= first.len(),
                first@ == self@.first,
                entries@.len() == k,
                forall|j: int|
                    0 <= j < k ==> (#[trigger] entries@[j] matches Some(element) && *element
                        == first@[j]),
            decreases first.len() - k,
        {
            entries.push(Some(&first[k]));
            k += 1;
        }
        match self.2 {
            Some(last) => {
                entries.push(None);
                let mut j: usize = 0;
                while j < last.len()
                    invariant
                        j <= last.len(),
                        self@.continuation == Some(last@),
                        first@ == self@.first,
                        entries@.len() == first@.len() + 1 + j,
                        forall|i: int|
                            0 <= i < first@.len() ==> (#[trigger] entries@[i] matches Some(element)
                                && *element == first@[i]),
                        entries@[first@.len() as int] is None,
                        forall|i: int|
                            0 <= i < j ==> (#[trigger] entries@[first@.len() + 1 + i] matches Some(
                                element,
                            ) && *element == last@[i]),
                    decreases last.len() - j,
                {
                    entries.push(Some(&last[j]));
                    j += 1;
                }
                assert forall|i: int| 0 <= i < entries@.len() implies (match #[trigger] entries@[i] {
                    Some(element) => self@.entries()[i] == Some(*element),
                    None => self@.entries()[i] is None,
                }) by {
                    if i > first@.len() {
                        let at = i - first@.len() - 1;
                        assert(entries@[first@.len() + 1 + at] is Some);
                    }
                }
            },
            None => {
                if self.1 {
                    entries.push(None);
                }
            },
        }
        entries
    }
}

impl<'a, T> DebugArrayDebugger<'a, T> {
    /// What is to be shown on one line.
    pub fn inner(&self) -> (inner: &DebugArray<'a, T>)
        ensures
            inner@ == self@,
    {
        &self.0
    }
}

/// Arrays that can be shown in part.
pub trait ArrayDebug<'a, T>: Sized {
    /// What is shown of the array where its first `first_elems` and its last
    /// `last_elems` elements are asked for.
    fn into_debug_array(self, first_elems: usize, last_elems: usize) -> DebugArray<'a, T>;

    /// What is shown of the array, on one line, where its first
    /// `first_elems` and its last `last_elems` elements are asked for.
    fn array_debug(self, first_elems: usize, last_elems: usize) -> DebugArrayDebugger<'a, T>;
}

impl<'a, T> ArrayDebug<'a, T> for &'a [T] {
    fn into_debug_array(self, first_elems: usize, last_elems: usize) -> (shown_part: DebugArray<
        'a,
        T,
    >)
        ensures
            shown_part@ == shown(self@, first_elems as nat, last_elems as nat),
    {
        let len: usize = self.len();
        if first_elems >= len {
            return DebugArray(self, false, None);
        }
        let first: &'a [T] = slice_subrange(self, 0, first_elems);
        let continuation: Option<&'a [T]> = if 0 < last_elems && last_elems <= len {
            Some(slice_subrange(self, len - last_elems, len))
        } else {
            None
        };
        DebugArray(first, true, continuation)
    }

    fn array_debug(self, first_elems: usize, last_elems: usize) -> (shown_part: DebugArrayDebugger<
        'a,
        T,
    >)
        ensures
            shown_part@ == shown(self@, first_elems as nat, last_elems as nat),
    {
        DebugArrayDebugger(self.into_debug_array(first_elems, last_elems))
    }
}

} // verus!
