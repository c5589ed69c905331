use vstd::prelude::*;

verus! {

/// What befalls one `ComPtr`.
#[derive(Clone, Copy, Debug, PartialEq, Eq, Structural)]
pub enum Event {
    /// The pointer is duplicated.
    Clone,
    /// The pointer goes out of scope.
    Drop,
    /// The pointer is given up for its address, which keeps its reference.
    IntoRaw,
}

/// The counting operation of the foreign object that an event calls for.
#[derive(Clone, Copy, Debug, PartialEq, Eq, Structural)]
pub enum CountCall {
    /// `AddRef`: the object counts one more reference.
    AddRef,
    /// `Release`: the object counts one reference less.
    Release,
    /// No call is made.
    NoCall,
}

/// The call owed for `e`: a duplicate asks for a reference of its own, a
/// pointer that goes away releases its reference exactly once, and one that
/// is given up hands its reference to the caller without a call.
pub open spec fn call_of(e: Event) -> CountCall {
    match e {
        Event::Clone => CountCall::AddRef,
        Event::Drop => CountCall::Release,
        Event::IntoRaw => CountCall::NoCall,
    }
}

/// The counting call that the pointer must make on its object for `e`.
pub fn call_for(e: Event) -> (c: CountCall)
    ensures
        c == call_of(e),
{
    match e {
        Event::Clone => CountCall::AddRef,
        Event::Drop => CountCall::Release,
        Event::IntoRaw => CountCall::NoCall,
    }
}

/// One foreign object as the pointers over it see it: the pointers alive, the
/// references handed out by `IntoRaw`, and the counting calls made on it.
pub struct Ledger {
    pub live: nat,
    pub extracted: nat,
    pub add_refs: nat,
    pub releases: nat,
}

/// The ledger of an object that a single pointer has just taken over: its
/// first reference came with the address, and no call has been made.
pub open spec fn fresh() -> Ledger {
    Ledger { live: 1, extracted: 0, add_refs: 0, releases: 0 }
}

/// The references that the object counts on behalf of the pointers: the one
/// that came with the first address, and one per `AddRef` not yet released.
pub open spec fn count(l: Ledger) -> int {
    1 + l.add_refs - l.releases
}

/// The ledger after `e` befalls one of the live pointers, with the call of
/// `call_of(e)` made.
pub open spec fn step(l: Ledger, e: Event) -> Ledger {
    Ledger {
        live: if e == Event::Clone { l.live + 1 } else { (l.live - 1) as nat },
        extracted: if e == Event::IntoRaw { l.extracted + 1 } else { l.extracted },
        add_refs: if call_of(e) == CountCall::AddRef { l.add_refs + 1 } else { l.add_refs },
        releases: if call_of(e) == CountCall::Release { l.releases + 1 } else { l.releases },
    }
}

/// The ledger after the events, in order.
pub open spec fn run(l: Ledger, events: Seq<Event>) -> Ledger
    decreases events.len(),
{
    if events.len() == 0 {
        l
    } else {
        run(step(l, events[0]), events.drop_first())
    }
}

/// Every event befalls a live pointer.
pub open spec fn allowed(l: Ledger, events: Seq<Event>) -> bool
    decreases events.len(),
{
    events.len() == 0 || (l.live > 0 && allowed(step(l, events[0]), events.drop_first()))
}

/// How many of the events are `e`.
pub open spec fn occurrences(events: Seq<Event>, e: Event) -> nat
    decreases events.len(),
{
    if events.len() == 0 {
        0
    } else {
        (if events[0] == e { 1nat } else { 0nat }) + occurrences(events.drop_first(), e)
    }
}

/// Over any run of events, the object is asked for one `AddRef` per
/// duplicate and one `Release` per pointer that goes out of scope; a pointer
/// given up for its address triggers no `Release`.
pub proof fn lemma_calls_match_events(l: Ledger, events: Seq<Event>)
    requires
        allowed(l, events),
    ensures
        run(l, events).add_refs == l.add_refs + occurrences(events, Event::Clone),
        run(l, events).releases == l.releases + occurrences(events, Event::Drop),
    decreases events.len(),
{
    if events.len() > 0 {
        lemma_calls_match_events(step(l, events[0]), events.drop_first());
    }
}

/// The object always counts exactly one reference per live pointer and per
/// address handed out: so while any pointer lives, in particular while one
/// of a pointer and its duplicate lives, the object is alive.
pub proof fn lemma_count_covers_holders(events: Seq<Event>)
    requires
        allowed(fresh(), events),
    ensures
        count(run(fresh(), events)) == run(fresh(), events).live + run(fresh(), events).extracted,
        run(fresh(), events).live > 0 ==> count(run(fresh(), events)) >= 1,
{
    lemma_count_invariant(fresh(), events);
}

proof fn lemma_count_invariant(l: Ledger, events: Seq<Event>)
    requires
        allowed(l, events),
        count(l) == l.live + l.extracted,
    ensures
        count(run(l, events)) == run(l, events).live + run(l, events).extracted,
    decreases events.len(),
{
    if events.len() > 0 {
        lemma_count_invariant(step(l, events[0]), events.drop_first());
    }
}

} // verus!
