//! Fixed-capacity collections of the `heapless` crate: the types and, for each
//! instance the logic uses, what its operations do to the contents.

use crate::apps::loop_de_cay::NoteEvent;
use crate::panel::Value;
use max11300::config::Port;
use vstd::prelude::*;

verus! {

#[verifier::external_type_specification]
#[verifier::external_body]
#[verifier::reject_recursive_types(T)]
pub struct ExBoundedVec<T, const N: usize>(heapless::Vec<T, N>);

#[verifier::external_type_specification]
#[verifier::external_body]
#[verifier::reject_recursive_types(T)]
pub struct ExBoundedDeque<T, const N: usize>(heapless::Deque<T, N>);

#[verifier::external_type_specification]
#[verifier::external_body]
pub struct ExPort(Port);

// ---------------------------------------------------------------------------
// Queue of scheduled emissions: due time and whether MIDI goes along
// ---------------------------------------------------------------------------

/// Contents of an emission queue, front first.
pub uninterp spec fn emissions(q: heapless::Deque<(u64, bool), 64>) -> Seq<(u64, bool)>;

/// `heapless::Deque::new`: the queue starts empty.
#[verifier::external_body]
pub(crate) fn emissions_new() -> (q: heapless::Deque<(u64, bool), 64>)
    ensures
        emissions(q) == Seq::<(u64, bool)>::empty(),
{
    heapless::Deque::new()
}

/// `heapless::Deque::len`: the number of items, at most the capacity.
#[verifier::external_body]
pub(crate) fn emissions_len(q: &heapless::Deque<(u64, bool), 64>) -> (n: usize)
    ensures
        n == emissions(*q).len(),
        n <= 64,
{
    q.len()
}

/// `heapless::Deque::clear`: nothing is left.
#[verifier::external_body]
pub(crate) fn emissions_clear(q: &mut heapless::Deque<(u64, bool), 64>)
    ensures
        emissions(*final(q)) == Seq::<(u64, bool)>::empty(),
{
    q.clear();
}

/// `heapless::Deque::front`: the first item, if there is one.
#[verifier::external_body]
pub(crate) fn emissions_front(q: &heapless::Deque<(u64, bool), 64>) -> (r: Option<(u64, bool)>)
    ensures
        r == if emissions(*q).len() == 0 { None } else { Some(emissions(*q)[0]) },
{
    q.front().copied()
}

/// `heapless::Deque::back`: the last item, if there is one.
#[verifier::external_body]
pub(crate) fn emissions_back(q: &heapless::Deque<(u64, bool), 64>) -> (r: Option<(u64, bool)>)
    ensures
        r == if emissions(*q).len() == 0 { None } else { Some(emissions(*q).last()) },
{
    q.back().copied()
}

/// `heapless::Deque::pop_front`: takes the first item out, if there is one.
#[verifier::external_body]
pub(crate) fn emissions_pop(q: &mut heapless::Deque<(u64, bool), 64>) -> (r: Option<(u64, bool)>)
    ensures
        emissions(*old(q)).len() == 0 ==> r is None && emissions(*final(q)) == emissions(*old(q)),
        emissions(*old(q)).len() > 0 ==> r == Some(emissions(*old(q))[0]) && emissions(*final(q))
            == emissions(*old(q)).subrange(1, emissions(*old(q)).len() as int),
{
    q.pop_front()
}

/// `heapless::Deque::push_back`: appends while there is room, and tells
/// whether it did; a full queue keeps its contents.
#[verifier::external_body]
pub(crate) fn emissions_push(q: &mut heapless::Deque<(u64, bool), 64>, at: u64, midi: bool) -> (ok:
    bool)
    ensures
        ok == (emissions(*old(q)).len() < 64),
        emissions(*final(q)) == if ok {
            emissions(*old(q)).push((at, midi))
        } else {
            emissions(*old(q))
        },
{
    q.push_back((at, midi)).is_ok()
}

// ---------------------------------------------------------------------------
// List of converter ports
// ---------------------------------------------------------------------------

/// Numbers of the ports in a list, in order.
pub uninterp spec fn port_numbers(v: heapless::Vec<Port, 4>) -> Seq<int>;

/// `heapless::Vec::new`: the list starts empty.
#[verifier::external_body]
pub(crate) fn ports_new() -> (v: heapless::Vec<Port, 4>)
    ensures
        port_numbers(v) == Seq::<int>::empty(),
{
    heapless::Vec::new()
}

/// `heapless::Vec::push` of the port that `Port::try_from` makes of a number:
/// the ports are numbered 0 to 19. A full list keeps its contents.
#[verifier::external_body]
pub(crate) fn ports_push(v: &mut heapless::Vec<Port, 4>, number: usize)
    requires
        number < 20,
    ensures
        port_numbers(*final(v)) == if port_numbers(*old(v)).len() < 4 {
            port_numbers(*old(v)).push(number as int)
        } else {
            port_numbers(*old(v))
        },
{
    let _ = v.push(Port::try_from(number).unwrap());
}

// ---------------------------------------------------------------------------
// Jack names: string index and text
// ---------------------------------------------------------------------------

/// Contents of a list of jack names, in order.
pub uninterp spec fn named_jacks(v: heapless::Vec<(u8, &'static str), 16>) -> Seq<(u8, Seq<char>)>;

/// `heapless::Vec::new`: the list starts empty.
#[verifier::external_body]
pub(crate) fn named_jacks_new() -> (v: heapless::Vec<(u8, &'static str), 16>)
    ensures
        named_jacks(v) == Seq::<(u8, Seq<char>)>::empty(),
{
    heapless::Vec::new()
}

/// `heapless::Vec::push`: appends while there is room; a full list keeps its
/// contents.
#[verifier::external_body]
pub(crate) fn named_jacks_push(
    v: &mut heapless::Vec<(u8, &'static str), 16>,
    index: u8,
    name: &'static str,
) -> (ok: bool)
    ensures
        ok == (named_jacks(*old(v)).len() < 16),
        named_jacks(*final(v)) == if ok {
            named_jacks(*old(v)).push((index, name@))
        } else {
            named_jacks(*old(v))
        },
{
    v.push((index, name)).is_ok()
}

/// The length of a `heapless::Vec` as a slice, at most its capacity.
#[verifier::external_body]
pub(crate) fn named_jacks_len(v: &heapless::Vec<(u8, &'static str), 16>) -> (n: usize)
    ensures
        n == named_jacks(*v).len(),
        n <= 16,
{
    v.len()
}

/// Indexing a `heapless::Vec` as a slice.
#[verifier::external_body]
pub(crate) fn named_jacks_at(v: &heapless::Vec<(u8, &'static str), 16>, i: usize) -> (r: (
    u8,
    &'static str,
))
    requires
        i < named_jacks(*v).len(),
    ensures
        (r.0, r.1@) == named_jacks(*v)[i as int],
{
    v[i]
}

// ---------------------------------------------------------------------------
// List of parameter values
// ---------------------------------------------------------------------------

/// Contents of a list of parameter values, in order.
pub uninterp spec fn param_values(v: heapless::Vec<Value, 16>) -> Seq<Value>;

/// `heapless::Vec::new`: the list starts empty.
#[verifier::external_body]
pub(crate) fn values_new() -> (v: heapless::Vec<Value, 16>)
    ensures
        param_values(v) == Seq::<Value>::empty(),
{
    heapless::Vec::new()
}

/// `heapless::Vec::push`: appends while there is room, and tells whether it
/// did; a full list keeps its contents.
#[verifier::external_body]
pub(crate) fn values_push(v: &mut heapless::Vec<Value, 16>, value: Value) -> (ok: bool)
    ensures
        ok == (param_values(*old(v)).len() < 16),
        param_values(*final(v)) == if ok {
            param_values(*old(v)).push(value)
        } else {
            param_values(*old(v))
        },
{
    v.push(value).is_ok()
}

/// The list that holds the given values, of which there are at most sixteen.
pub(crate) fn values_of(items: &[Value]) -> (v: heapless::Vec<Value, 16>)
    requires
        items@.len() <= 16,
    ensures
        param_values(v) == items@,
{
    let mut v = values_new();
    let mut i: usize = 0;
    assert(param_values(v) =~= items@.subrange(0, 0));
    while i < items.len()
        invariant
            i <= items@.len() <= 16,
            param_values(v) == items@.subrange(0, i as int),
        decreases items@.len() - i,
    {
        let _ = values_push(&mut v, items[i]);
        i = i + 1;
        assert(param_values(v) =~= items@.subrange(0, i as int));
    }
    assert(items@.subrange(0, i as int) =~= items@);
    v
}

// ---------------------------------------------------------------------------
// List of loop events
// ---------------------------------------------------------------------------

/// Contents of a list of loop events, in order.
pub uninterp spec fn loop_events(v: heapless::Vec<NoteEvent, 32>) -> Seq<NoteEvent>;

/// `heapless::Vec::new`: the list starts empty.
#[verifier::external_body]
pub(crate) fn loop_events_new() -> (v: heapless::Vec<NoteEvent, 32>)
    ensures
        loop_events(v) == Seq::<NoteEvent>::empty(),
{
    heapless::Vec::new()
}

/// `heapless::Vec::push`: appends while there is room; a full list keeps its
/// contents.
#[verifier::external_body]
pub(crate) fn loop_events_push(v: &mut heapless::Vec<NoteEvent, 32>, e: NoteEvent)
    ensures
        loop_events(*final(v)) == if loop_events(*old(v)).len() < 32 {
            loop_events(*old(v)).push(e)
        } else {
            loop_events(*old(v))
        },
{
    let _ = v.push(e);
}

/// The length of a `heapless::Vec` as a slice, at most its capacity.
#[verifier::external_body]
pub(crate) fn loop_events_len(v: &heapless::Vec<NoteEvent, 32>) -> (n: usize)
    ensures
        n == loop_events(*v).len(),
        n <= 32,
{
    v.len()
}

/// Indexing a `heapless::Vec` as a slice.
#[verifier::external_body]
pub(crate) fn loop_events_at(v: &heapless::Vec<NoteEvent, 32>, i: usize) -> (e: NoteEvent)
    requires
        i < loop_events(*v).len(),
    ensures
        e == loop_events(*v)[i as int],
{
    v[i]
}

// ---------------------------------------------------------------------------
// List of scale degrees
// ---------------------------------------------------------------------------

/// Contents of a list of scale degrees, in order.
pub uninterp spec fn degree_list(v: heapless::Vec<u8, 12>) -> Seq<u8>;

/// `heapless::Vec::new`: the list starts empty.
#[verifier::external_body]
pub(crate) fn degree_list_new() -> (v: heapless::Vec<u8, 12>)
    ensures
        degree_list(v) == Seq::<u8>::empty(),
{
    heapless::Vec::new()
}

/// `heapless::Vec::push`: appends while there is room; a full list keeps its
/// contents.
#[verifier::external_body]
pub(crate) fn degree_list_push(v: &mut heapless::Vec<u8, 12>, d: u8)
    ensures
        degree_list(*final(v)) == if degree_list(*old(v)).len() < 12 {
            degree_list(*old(v)).push(d)
        } else {
            degree_list(*old(v))
        },
{
    let _ = v.push(d);
}

/// The length of a `heapless::Vec` as a slice, at most its capacity.
#[verifier::external_body]
pub(crate) fn degree_list_len(v: &heapless::Vec<u8, 12>) -> (n: usize)
    ensures
        n == degree_list(*v).len(),
        n <= 12,
{
    v.len()
}

/// Indexing a `heapless::Vec` as a slice.
#[verifier::external_body]
pub(crate) fn degree_list_at(v: &heapless::Vec<u8, 12>, i: usize) -> (d: u8)
    requires
        i < degree_list(*v).len(),
    ensures
        d == degree_list(*v)[i as int],
{
    v[i]
}

// ---------------------------------------------------------------------------
// List of chord notes
// ---------------------------------------------------------------------------

/// Contents of a list of chord notes, in order.
pub uninterp spec fn chord_notes(v: heapless::Vec<u8, 8>) -> Seq<u8>;

/// `heapless::Vec::new`: the list starts empty.
#[verifier::external_body]
pub(crate) fn chord_notes_new() -> (v: heapless::Vec<u8, 8>)
    ensures
        chord_notes(v) == Seq::<u8>::empty(),
{
    heapless::Vec::new()
}

/// `heapless::Vec::push`: appends while there is room; a full list keeps its
/// contents.
#[verifier::external_body]
pub(crate) fn chord_notes_push(v: &mut heapless::Vec<u8, 8>, note: u8)
    ensures
        chord_notes(*final(v)) == if chord_notes(*old(v)).len() < 8 {
            chord_notes(*old(v)).push(note)
        } else {
            chord_notes(*old(v))
        },
{
    let _ = v.push(note);
}

/// `heapless::Vec::clear`: nothing is left.
#[verifier::external_body]
pub(crate) fn chord_notes_clear(v: &mut heapless::Vec<u8, 8>)
    ensures
        chord_notes(*final(v)) == Seq::<u8>::empty(),
{
    v.clear();
}

/// The length of a `heapless::Vec` as a slice, at most its capacity.
#[verifier::external_body]
pub(crate) fn chord_notes_len(v: &heapless::Vec<u8, 8>) -> (n: usize)
    ensures
        n == chord_notes(*v).len(),
        n <= 8,
{
    v.len()
}

/// Indexing a `heapless::Vec` as a slice.
#[verifier::external_body]
pub(crate) fn chord_notes_at(v: &heapless::Vec<u8, 8>, i: usize) -> (note: u8)
    requires
        i < chord_notes(*v).len(),
    ensures
        note == chord_notes(*v)[i as int],
{
    v[i]
}

} // verus!
