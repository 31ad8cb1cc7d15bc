//! The radix heap of event times that orders the events of a runtime.
//!
//! The heap is a max-heap of `radix_heap`; keyed by reversed times, it hands out
//! the earliest time first. Each entry pairs a time with the slot that holds the
//! event, so the heap only holds plain values.
use radix_heap::RadixHeapMap;
use std::cmp::Reverse;
use vstd::multiset::Multiset;
use vstd::prelude::*;

verus! {

/// The radix heap of the `radix_heap` crate.
#[verifier::external_type_specification]
#[verifier::external_body]
#[verifier::reject_recursive_types(K)]
#[verifier::reject_recursive_types(V)]
pub struct ExRadixHeapMap<K, V>(RadixHeapMap<K, V>);

/// The wrapper of std that reverses the order of its value.
#[verifier::external_type_specification]
#[verifier::external_body]
#[verifier::reject_recursive_types(T)]
pub struct ExReverse<T>(Reverse<T>);

/// What a heap of event times holds: pairs of a time and the slot of an event.
pub uninterp spec fn heap_events(heap: RadixHeapMap<Reverse<u32>, usize>) -> Multiset<(u32, usize)>;

/// The top key of a heap of event times, as a time: no earlier time may be
/// pushed, and a pop moves it to the time popped.
pub uninterp spec fn heap_top(heap: RadixHeapMap<Reverse<u32>, usize>) -> Option<u32>;

/// The slots of the entries of a heap of event times at the time `time`, in the
/// order they were pushed. All entries of one key sit in one bucket of the heap,
/// which keeps them in that order.
pub uninterp spec fn heap_order(heap: RadixHeapMap<Reverse<u32>, usize>, time: u32) -> Seq<usize>;

/// Calls `RadixHeapMap::new`, which makes a heap with no entries and no top key.
#[verifier::external_body]
pub(crate) fn heap_new() -> (r: RadixHeapMap<Reverse<u32>, usize>)
    ensures
        heap_events(r) == Multiset::<(u32, usize)>::empty(),
        heap_top(r) is None,
        forall|t: u32| #[trigger] heap_order(r, t) == Seq::<usize>::empty(),
{
    RadixHeapMap::new()
}

/// Calls `RadixHeapMap::push` with the key `Reverse(time)`: the entry joins the
/// heap and the top key stays. The crate panics when the key is larger than the
/// top key, that is, when `time` is before the top time.
#[verifier::external_body]
pub(crate) fn heap_push(heap: &mut RadixHeapMap<Reverse<u32>, usize>, time: u32, slot: usize)
    requires
        heap_top(*old(heap)) matches Some(top) ==> top <= time,
    ensures
        heap_events(*final(heap)) == heap_events(*old(heap)).insert((time, slot)),
        heap_top(*final(heap)) == heap_top(*old(heap)),
        heap_order(*final(heap), time) == heap_order(*old(heap), time).push(slot),
        forall|t: u32| t != time ==> #[trigger] heap_order(*final(heap), t) == heap_order(*old(heap), t),
{
    heap.push(Reverse(time), slot);
}

/// Calls `RadixHeapMap::pop`, which removes an entry of the greatest key and
/// makes that key the top key; with reversed keys, an entry of the earliest time.
/// As the crate documents, of several entries of that time the one pushed last
/// comes out. An empty heap gives `None` and is left as it was.
#[verifier::external_body]
pub(crate) fn heap_pop(heap: &mut RadixHeapMap<Reverse<u32>, usize>) -> (r: Option<(u32, usize)>)
    ensures
        heap_events(*old(heap)).len() == 0 ==> {
            &&& r is None
            &&& heap_events(*final(heap)) == heap_events(*old(heap))
            &&& heap_top(*final(heap)) == heap_top(*old(heap))
            &&& forall|t: u32| #[trigger] heap_order(*final(heap), t) == heap_order(*old(heap), t)
        },
        heap_events(*old(heap)).len() > 0 ==> (r matches Some(e) && {
            &&& heap_events(*old(heap)).contains(e)
            &&& forall|x: (u32, usize)| #[trigger] heap_events(*old(heap)).contains(x) ==> e.0 <= x.0
            &&& heap_events(*final(heap)) == heap_events(*old(heap)).remove(e)
            &&& heap_top(*final(heap)) == Some(e.0)
            &&& heap_order(*old(heap), e.0).len() > 0
            &&& e.1 == heap_order(*old(heap), e.0).last()
            &&& heap_order(*final(heap), e.0) == heap_order(*old(heap), e.0).drop_last()
            &&& forall|t: u32| t != e.0 ==> #[trigger] heap_order(*final(heap), t) == heap_order(*old(heap), t)
        }),
{
    match heap.pop() {
        Some((Reverse(time), slot)) => Some((time, slot)),
        None => None,
    }
}

/// Calls `RadixHeapMap::len`, the number of entries in the heap.
#[verifier::external_body]
pub(crate) fn heap_len(heap: &RadixHeapMap<Reverse<u32>, usize>) -> (r: usize)
    ensures
        r == heap_events(*heap).len(),
{
    heap.len()
}

} // verus!
