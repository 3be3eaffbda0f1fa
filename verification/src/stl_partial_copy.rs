//! A span of items, as the game's C++ `span` collections hold them.
use vstd::prelude::*;
use vstd::std_specs::iter::IteratorSpec;

verus! {

/// A dynamically sized span of items. The game keeps such spans as a pointer
/// and a length; here the span owns its items, which stand for the memory that
/// the extenders allocate and never release.
pub struct DynamicSizeSpan<T> {
    data: Vec<T>,
}

impl<T> View for DynamicSizeSpan<T> {
    type V = Seq<T>;

    closed spec fn view(&self) -> Seq<T> {
        self.data@
    }
}

impl<T> DynamicSizeSpan<T> {
    /// The items of the span as a slice.
    pub fn as_slice(&self) -> (r: &[T])
        ensures
            r@ == self@,
    {
        self.data.as_slice()
    }

    /// An iterator over the items of the span, front to back.
    pub fn iter(&self) -> (r: std::slice::Iter<'_, T>)
        ensures
            r.remaining().unref() == self@,
    {
        broadcast use vstd::std_specs::slice::axiom_spec_slice_iter;
        let it = self.data.as_slice().iter();
        it
    }

    /// The number of items in the span.
    pub fn len(&self) -> (r: usize)
        ensures
            r == self@.len(),
    {
        self.data.len()
    }

    /// Whether the span holds no item.
    pub fn is_empty(&self) -> (r: bool)
        ensures
            r == (self@.len() == 0),
    {
        self.data.len() == 0
    }

    /// The items of the span as a slice that can be written through; what is
    /// written there is what the span holds afterwards.
    pub fn as_mut(&mut self) -> (r: &mut [T])
        ensures
            r@ == old(self)@,
            final(r)@ == final(self)@,
    {
        self.data.as_mut_slice()
    }

    /// A span over the given items, in their order.
    pub fn from_static_slice(items: Vec<T>) -> (r: Self)
        ensures
            r@ == items@,
    {
        Self { data: items }
    }

    /// The empty span.
    pub fn empty() -> (r: Self)
        ensures
            r@ == Seq::<T>::empty(),
    {
        Self { data: Vec::new() }
    }

    /// Takes the items out of the span.
    pub fn into_vec(self) -> (r: Vec<T>)
        ensures
            r@ == self@,
    {
        self.data
    }
}

impl<T> Default for DynamicSizeSpan<T> {
    fn default() -> (r: Self)
        ensures
            r@ == Seq::<T>::empty(),
    {
        Self::empty()
    }
}

} // verus!
