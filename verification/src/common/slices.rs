//! Iteration over the cells of a container.
use vstd::prelude::*;
use vstd::std_specs::iter::IteratorSpec;

verus! {

/// `std::slice::IterMut`, the iterator of `<[T]>::iter_mut`: carried through
/// as it comes.
#[verifier::external_type_specification]
#[verifier::external_body]
#[verifier::reject_recursive_types(T)]
pub struct ExIterMut<'a, T: 'a>(core::slice::IterMut<'a, T>);

/// `<[T]>::iter_mut`: an iterator that hands out each element of the slice
/// for writing. The slice keeps its length, whatever is written.
#[verifier::external_body]
pub(crate) fn iter_mut<'a, T>(slice: &'a mut [T]) -> (iter: core::slice::IterMut<'a, T>)
    ensures
        final(slice)@.len() == old(slice)@.len(),
{
    slice.iter_mut()
}

/// `Iterator::next` of `std::slice::IterMut`: the next element of the slice,
/// for writing, or nothing once all were handed out.
#[verifier::external_body]
pub(crate) fn next_mut<'a, T>(iter: &mut core::slice::IterMut<'a, T>) -> (item: Option<&'a mut T>) {
    iter.next()
}

/// `Iterator::next` of `std::slice::Iter`: the first of the elements still
/// to come, which then is no longer to come, or nothing once all were
/// handed out.
#[verifier::external_body]
pub(crate) fn next_ref<'a, T>(iter: &mut core::slice::Iter<'a, T>) -> (item: Option<&'a T>)
    ensures
        (*old(iter)).remaining().len() > 0 ==> item == Some((*old(iter)).remaining()[0]) && (*final(
            iter
        )).remaining() == (*old(iter)).remaining().drop_first(),
        (*old(iter)).remaining().len() == 0 ==> item is None && (*final(iter)).remaining() == (*old(
            iter
        )).remaining(),
{
    iter.next()
}

} // verus!
