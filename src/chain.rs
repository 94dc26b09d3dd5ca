use vstd::prelude::*;

verus! {

/// The events that drive the relay.
#[derive(Clone, Copy, Debug, PartialEq, Eq, Structural)]
pub enum Event {
    /// Start of the chain: copy the current selection.
    Copy,
    /// Delete the selection that was just copied.
    Delete,
    /// Read the clipboard and report its text.
    Print,
    /// Bring the window to the front; outside the chain.
    Window,
}

/// The side effect that the handler of an event performs.
#[derive(Clone, Copy, Debug, PartialEq, Eq, Structural)]
pub enum Effect {
    InjectCopy,
    InjectDelete,
    ReadClipboard,
    ShowWindow,
}

pub open spec fn tag_text(e: Event) -> Seq<char> {
    match e {
        Event::Copy => "copy-event"@,
        Event::Delete => "delete-event"@,
        Event::Print => "print-event"@,
        Event::Window => "window-event"@,
    }
}

pub open spec fn effect_of(e: Event) -> Effect {
    match e {
        Event::Copy => Effect::InjectCopy,
        Event::Delete => Effect::InjectDelete,
        Event::Print => Effect::ReadClipboard,
        Event::Window => Effect::ShowWindow,
    }
}

/// The event that a handler publishes once its effect has succeeded.
pub open spec fn next_event(e: Event) -> Option<Event> {
    match e {
        Event::Copy => Some(Event::Delete),
        Event::Delete => Some(Event::Print),
        Event::Print => None,
        Event::Window => None,
    }
}

/// The effects performed, in order, from the publication of `e` until the
/// chain ends, when every step succeeds.
pub open spec fn chain(e: Event) -> Seq<Effect> {
    match e {
        Event::Copy => seq![Effect::InjectCopy, Effect::InjectDelete, Effect::ReadClipboard],
        Event::Delete => seq![Effect::InjectDelete, Effect::ReadClipboard],
        Event::Print => seq![Effect::ReadClipboard],
        Event::Window => seq![Effect::ShowWindow],
    }
}

/// What is left of a chain once `pending` is the event still to be handled.
pub open spec fn rest_of(pending: Option<Event>) -> Seq<Effect> {
    match pending {
        Some(e) => chain(e),
        None => Seq::empty(),
    }
}

/// The number of clipboard reads among `s`.
pub open spec fn reads(s: Seq<Effect>) -> nat
    decreases s.len(),
{
    if s.len() == 0 {
        0
    } else {
        reads(s.drop_last()) + if s.last() == Effect::ReadClipboard {
            1nat
        } else {
            0nat
        }
    }
}

/// How many events at most are still to come after `pending`.
pub open spec fn remaining_steps(pending: Option<Event>) -> nat {
    rest_of(pending).len()
}

/// The tag under which an event is published on the application's bus.
pub fn event_tag(e: Event) -> (r: &'static str)
    ensures
        r@ == tag_text(e),
{
    match e {
        Event::Copy => "copy-event",
        Event::Delete => "delete-event",
        Event::Print => "print-event",
        Event::Window => "window-event",
    }
}

/// The effect that the handler of `e` performs.
pub fn effect_for(e: Event) -> (r: Effect)
    ensures
        r == effect_of(e),
{
    match e {
        Event::Copy => Effect::InjectCopy,
        Event::Delete => Effect::InjectDelete,
        Event::Print => Effect::ReadClipboard,
        Event::Window => Effect::ShowWindow,
    }
}

/// The event that the handler of `e` publishes after its effect.
///
/// A failed effect ends that invocation without a follow-up, so a broken
/// keystroke injection stops the chain instead of crashing the application.
pub fn follow_up(e: Event, succeeded: bool) -> (r: Option<Event>)
    ensures
        r == (if succeeded {
            next_event(e)
        } else {
            None
        }),
        succeeded && e == Event::Copy ==> r == Some(Event::Delete),
        succeeded && e == Event::Delete ==> r == Some(Event::Print),
        e == Event::Print || e == Event::Window ==> r.is_none(),
{
    if !succeeded {
        return None;
    }
    match e {
        Event::Copy => Some(Event::Delete),
        Event::Delete => Some(Event::Print),
        Event::Print => None,
        Event::Window => None,
    }
}

/// One step of the chain: the effect of `e` followed by the rest.
pub proof fn lemma_chain_step(e: Event)
    ensures
        chain(e) == seq![effect_of(e)] + rest_of(next_event(e)),
{
    assert(chain(e) =~= seq![effect_of(e)] + rest_of(next_event(e)));
}

/// Follows the chain from `entry`, every step succeeding, and lists the
/// effects performed in order.
pub fn chain_effects(entry: Event) -> (r: Vec<Effect>)
    ensures
        r@ == chain(entry),
{
    let mut out: Vec<Effect> = Vec::new();
    let mut pending: Option<Event> = Some(entry);
    while pending.is_some()
        invariant
            out@ + rest_of(pending) == chain(entry),
        decreases remaining_steps(pending),
    {
        let e = pending.unwrap();
        proof {
            lemma_chain_step(e);
        }
        out.push(effect_for(e));
        pending = follow_up(e, true);
        assert(out@ + rest_of(pending) =~= chain(entry));
    }
    assert(out@ =~= out@ + rest_of(pending));
    out
}

/// Publishing `copy-event` leads, once the chain has run to its end, to
/// exactly one clipboard read, which is the chain's last effect; the same
/// holds of every event that enters the chain later (`delete-event`,
/// `print-event`), and the window event reads nothing.
pub proof fn lemma_one_read_per_chain(e: Event)
    ensures
        e != Event::Window ==> reads(chain(e)) == 1,
        e != Event::Window ==> chain(e).last() == Effect::ReadClipboard,
        e == Event::Window ==> reads(chain(e)) == 0,
{
    let s = chain(e);
    reveal_with_fuel(reads, 4);
    match e {
        Event::Copy => {
            assert(s.drop_last() =~= seq![Effect::InjectCopy, Effect::InjectDelete]);
            assert(s.drop_last().drop_last() =~= seq![Effect::InjectCopy]);
            assert(s.drop_last().drop_last().drop_last() =~= Seq::<Effect>::empty());
        },
        Event::Delete => {
            assert(s.drop_last() =~= seq![Effect::InjectDelete]);
            assert(s.drop_last().drop_last() =~= Seq::<Effect>::empty());
        },
        _ => {
            assert(s.drop_last() =~= Seq::<Effect>::empty());
        },
    }
}

/// `m` is an interleaving of `a` and `b`: it holds the effects of both, each
/// in its own order.
pub open spec fn is_merge(m: Seq<Effect>, a: Seq<Effect>, b: Seq<Effect>) -> bool
    decreases m.len(),
{
    if m.len() == 0 {
        a.len() == 0 && b.len() == 0
    } else {
        (a.len() > 0 && a.last() == m.last() && is_merge(m.drop_last(), a.drop_last(), b)) || (
        b.len() > 0 && b.last() == m.last() && is_merge(m.drop_last(), a, b.drop_last()))
    }
}

/// An interleaving reads the clipboard as often as its two parts together.
pub proof fn lemma_merge_reads(m: Seq<Effect>, a: Seq<Effect>, b: Seq<Effect>)
    requires
        is_merge(m, a, b),
    ensures
        reads(m) == reads(a) + reads(b),
    decreases m.len(),
{
    if m.len() > 0 {
        if a.len() > 0 && a.last() == m.last() && is_merge(m.drop_last(), a.drop_last(), b) {
            lemma_merge_reads(m.drop_last(), a.drop_last(), b);
        } else {
            lemma_merge_reads(m.drop_last(), a, b.drop_last());
        }
    }
}

/// Handlers keep no state, so when `copy-event` is published twice and the
/// two chains interleave in any way, both run to their end and the clipboard
/// is read exactly twice.
pub proof fn lemma_two_interleaved_chains(m: Seq<Effect>)
    requires
        is_merge(m, chain(Event::Copy), chain(Event::Copy)),
    ensures
        reads(m) == 2,
        m.len() == 2 * chain(Event::Copy).len(),
{
    lemma_merge_reads(m, chain(Event::Copy), chain(Event::Copy));
    lemma_one_read_per_chain(Event::Copy);
    lemma_merge_len(m, chain(Event::Copy), chain(Event::Copy));
}

/// An interleaving is as long as its two parts together.
pub proof fn lemma_merge_len(m: Seq<Effect>, a: Seq<Effect>, b: Seq<Effect>)
    requires
        is_merge(m, a, b),
    ensures
        m.len() == a.len() + b.len(),
    decreases m.len(),
{
    if m.len() > 0 {
        if a.len() > 0 && a.last() == m.last() && is_merge(m.drop_last(), a.drop_last(), b) {
            lemma_merge_len(m.drop_last(), a.drop_last(), b);
        } else {
            lemma_merge_len(m.drop_last(), a, b.drop_last());
        }
    }
}

} // verus!
