//! Laws that relate several steps of the monitor core: what the modifier
//! tracker holds after a whole event sequence, and what a recording holds
//! after a whole run of deliveries.

use crate::events::InputEvent;
use crate::events::RawEvent;
use crate::modifiers::label_piece;
use crate::modifiers::labels_of;
use crate::modifiers::modifier_label;
use crate::modifiers::Modifier;
use crate::monitor::deliver_step;
use crate::monitor::step_mods;
use vstd::prelude::*;

verus! {

/// Whether a raw event is a press of a key in modifier class `m`.
pub open spec fn presses(raw: RawEvent, m: Modifier) -> bool {
    raw matches RawEvent::KeyPress(k) && crate::modifiers::spec_modifier_of(k) == Some(m)
}

/// Whether a raw event is a release of a key in modifier class `m`.
pub open spec fn releases(raw: RawEvent, m: Modifier) -> bool {
    raw matches RawEvent::KeyRelease(k) && crate::modifiers::spec_modifier_of(k) == Some(m)
}

/// The held-modifier set after a whole event sequence, starting from `s`.
pub open spec fn run_mods(s: Set<Modifier>, events: Seq<RawEvent>) -> Set<Modifier>
    decreases events.len(),
{
    if events.len() == 0 {
        s
    } else {
        run_mods(step_mods(s, events[0]), events.drop_first())
    }
}

/// A recording slot after a whole run of deliveries, starting from `slot`.
pub open spec fn deliver_run(
    slot: Option<(Seq<char>, Seq<InputEvent>)>,
    records: Seq<InputEvent>,
) -> Option<(Seq<char>, Seq<InputEvent>)>
    decreases records.len(),
{
    if records.len() == 0 {
        slot
    } else {
        deliver_run(deliver_step(slot, records[0]), records.drop_first())
    }
}

/// The held-set characterization behind the tracker law, generalized over
/// the starting set: after a run, `m` is held exactly when some press of it
/// has no later release, or it was held at the start and never released.
proof fn lemma_run_mods_history(s: Set<Modifier>, events: Seq<RawEvent>, m: Modifier)
    ensures
        run_mods(s, events).contains(m) <==> ((exists|i: int|
            0 <= i < events.len() && #[trigger] presses(events[i], m) && (forall|j: int|
                i < j < events.len() ==> !releases(#[trigger] events[j], m))) || (s.contains(m)
            && (forall|j: int| 0 <= j < events.len() ==> !releases(#[trigger] events[j], m)))),
    decreases events.len(),
{
    if events.len() == 0 {
    } else {
        let first = events[0];
        let rest = events.drop_first();
        let s1 = step_mods(s, first);
        lemma_run_mods_history(s1, rest, m);
        assert(forall|k: int| 0 <= k < rest.len() ==> rest[k] == events[k + 1]);
        if run_mods(s, events).contains(m) {
            if exists|i: int|
                0 <= i < rest.len() && #[trigger] presses(rest[i], m) && (forall|j: int|
                    i < j < rest.len() ==> !releases(#[trigger] rest[j], m)) {
                let i = choose|i: int|
                    0 <= i < rest.len() && #[trigger] presses(rest[i], m) && (forall|j: int|
                        i < j < rest.len() ==> !releases(#[trigger] rest[j], m));
                assert(presses(events[i + 1], m));
                assert forall|j: int| i + 1 < j < events.len() implies !releases(
                    #[trigger] events[j],
                    m,
                ) by {
                    assert(events[j] == rest[j - 1]);
                    assert(!releases(rest[j - 1], m));
                }
            } else {
                assert(s1.contains(m));
                assert(forall|j: int| 0 <= j < rest.len() ==> !releases(#[trigger] rest[j], m));
                if presses(first, m) {
                    assert(presses(events[0], m));
                    assert forall|j: int| 0 < j < events.len() implies !releases(
                        #[trigger] events[j],
                        m,
                    ) by {
                        assert(events[j] == rest[j - 1]);
                        assert(!releases(rest[j - 1], m));
                    }
                } else {
                    assert(!releases(first, m));
                    assert(s.contains(m));
                    assert forall|j: int| 0 <= j < events.len() implies !releases(
                        #[trigger] events[j],
                        m,
                    ) by {
                        if j > 0 {
                            assert(events[j] == rest[j - 1]);
                            assert(!releases(rest[j - 1], m));
                        }
                    }
                }
            }
        }
        if exists|i: int|
            0 <= i < events.len() && #[trigger] presses(events[i], m) && (forall|j: int|
                i < j < events.len() ==> !releases(#[trigger] events[j], m)) {
            let i = choose|i: int|
                0 <= i < events.len() && #[trigger] presses(events[i], m) && (forall|j: int|
                    i < j < events.len() ==> !releases(#[trigger] events[j], m));
            if i == 0 {
                assert(s1.contains(m));
                assert forall|j: int| 0 <= j < rest.len() implies !releases(
                    #[trigger] rest[j],
                    m,
                ) by {
                    assert(rest[j] == events[j + 1]);
                    assert(!releases(events[j + 1], m));
                }
            } else {
                assert(rest[i - 1] == events[i]);
                assert(presses(rest[i - 1], m));
                assert forall|j: int| i - 1 < j < rest.len() implies !releases(
                    #[trigger] rest[j],
                    m,
                ) by {
                    assert(rest[j] == events[j + 1]);
                    assert(!releases(events[j + 1], m));
                }
            }
            assert(run_mods(s1, rest).contains(m));
            assert(run_mods(s, events).contains(m));
        }
        if s.contains(m) && (forall|j: int| 0 <= j < events.len() ==> !releases(#[trigger] events[j], m)) {
            assert(!releases(events[0], m));
            assert(s1.contains(m));
            assert forall|j: int| 0 <= j < rest.len() implies !releases(#[trigger] rest[j], m) by {
                assert(rest[j] == events[j + 1]);
                assert(!releases(events[j + 1], m));
            }
            assert(run_mods(s1, rest).contains(m));
            assert(run_mods(s, events).contains(m));
        }
    }
}

/// Law: after any sequence of key transitions, starting with nothing held,
/// the tracker holds a modifier class exactly when the operating-system
/// history says the class is down: some press of it happened and no release
/// of it came later. Repeated presses and releases are absorbed along the
/// way.
pub proof fn lemma_tracker_matches_key_history(events: Seq<RawEvent>, m: Modifier)
    ensures
        run_mods(Set::<Modifier>::empty(), events).contains(m) <==> (exists|i: int|
            0 <= i < events.len() && #[trigger] presses(events[i], m) && (forall|j: int|
                i < j < events.len() ==> !releases(#[trigger] events[j], m))),
{
    lemma_run_mods_history(Set::<Modifier>::empty(), events, m);
}

/// Law: a run of deliveries into an active recording appends exactly the
/// delivered records, in order, and never touches the session name.
pub proof fn lemma_recording_appends_run(
    name: Seq<char>,
    data: Seq<InputEvent>,
    records: Seq<InputEvent>,
)
    ensures
        deliver_run(Some((name, data)), records) == Some((name, data + records)),
    decreases records.len(),
{
    if records.len() == 0 {
        assert(data + records =~= data);
    } else {
        lemma_recording_appends_run(name, data.push(records[0]), records.drop_first());
        assert(data.push(records[0]) + records.drop_first() =~= data + records);
    }
}

/// Law: a recording started fresh under `name` and then fed `records` holds
/// exactly `records`, in delivery order — as many entries as deliveries.
pub proof fn lemma_recording_collects_exactly(name: Seq<char>, records: Seq<InputEvent>)
    ensures
        deliver_run(Some((name, Seq::<InputEvent>::empty())), records) == Some((name, records)),
{
    lemma_recording_appends_run(name, Seq::empty(), records);
    assert(Seq::<InputEvent>::empty() + records =~= records);
}

/// Membership in a concatenation is membership in one of the parts.
proof fn lemma_concat_contains(a: Seq<Seq<char>>, b: Seq<Seq<char>>, x: Seq<char>)
    ensures
        (a + b).contains(x) <==> a.contains(x) || b.contains(x),
{
    if a.contains(x) {
        let i = choose|i: int| 0 <= i < a.len() && a[i] == x;
        assert((a + b)[i] == x);
    }
    if b.contains(x) {
        let i = choose|i: int| 0 <= i < b.len() && b[i] == x;
        assert((a + b)[a.len() + i] == x);
    }
    if (a + b).contains(x) {
        let i = choose|i: int| 0 <= i < (a + b).len() && (a + b)[i] == x;
        if i < a.len() {
            assert(a[i] == x);
        } else {
            assert(b[i - a.len()] == x);
        }
    }
}

/// Law: no two modifier classes share a label.
pub proof fn lemma_labels_distinct(a: Modifier, b: Modifier)
    ensures
        a != b ==> modifier_label(a) != modifier_label(b),
{
    reveal_strlit("Ctrl");
    reveal_strlit("Alt");
    reveal_strlit("Shift");
    reveal_strlit("Meta");
    reveal_strlit("Fn");
    assert("Ctrl"@.len() == 4);
    assert("Alt"@.len() == 3);
    assert("Shift"@.len() == 5);
    assert("Meta"@.len() == 4);
    assert("Fn"@.len() == 2);
    assert("Ctrl"@[0] == 'C');
    assert("Meta"@[0] == 'M');
}

/// A single snapshot piece holds a label exactly when its class is held and
/// carries that very label.
proof fn lemma_piece_contains(held: bool, class: Modifier, m: Modifier)
    ensures
        label_piece(held, class).contains(modifier_label(m)) <==> (held && modifier_label(class)
            == modifier_label(m)),
{
    let p = label_piece(held, class);
    if held {
        assert(p[0] == modifier_label(class));
        if modifier_label(class) == modifier_label(m) {
            assert(p.contains(modifier_label(m)));
        }
        if p.contains(modifier_label(m)) {
            let i = choose|i: int| 0 <= i < p.len() && p[i] == modifier_label(m);
            assert(i == 0);
        }
    } else {
        assert(p.len() == 0);
    }
}

/// Law: the snapshot encoding is faithful — a class's label stands in the
/// snapshot of a held set exactly when the class is held.
pub proof fn lemma_snapshot_labels_faithful(s: Set<Modifier>, m: Modifier)
    ensures
        labels_of(s).contains(modifier_label(m)) <==> s.contains(m),
{
    let x = modifier_label(m);
    let p1 = label_piece(s.contains(Modifier::Ctrl), Modifier::Ctrl);
    let p2 = label_piece(s.contains(Modifier::Alt), Modifier::Alt);
    let p3 = label_piece(s.contains(Modifier::Shift), Modifier::Shift);
    let p4 = label_piece(s.contains(Modifier::Meta), Modifier::Meta);
    let p5 = label_piece(s.contains(Modifier::FnKey), Modifier::FnKey);
    lemma_concat_contains(p1 + p2 + p3 + p4, p5, x);
    lemma_concat_contains(p1 + p2 + p3, p4, x);
    lemma_concat_contains(p1 + p2, p3, x);
    lemma_concat_contains(p1, p2, x);
    lemma_piece_contains(s.contains(Modifier::Ctrl), Modifier::Ctrl, m);
    lemma_piece_contains(s.contains(Modifier::Alt), Modifier::Alt, m);
    lemma_piece_contains(s.contains(Modifier::Shift), Modifier::Shift, m);
    lemma_piece_contains(s.contains(Modifier::Meta), Modifier::Meta, m);
    lemma_piece_contains(s.contains(Modifier::FnKey), Modifier::FnKey, m);
    lemma_labels_distinct(Modifier::Ctrl, m);
    lemma_labels_distinct(Modifier::Alt, m);
    lemma_labels_distinct(Modifier::Shift, m);
    lemma_labels_distinct(Modifier::Meta, m);
    lemma_labels_distinct(Modifier::FnKey, m);
}

/// Law: with no active recording, a run of deliveries records nothing; the
/// slot stays absent however many records pass through.
pub proof fn lemma_no_recording_stays_absent(records: Seq<InputEvent>)
    ensures
        deliver_run(None, records) is None,
    decreases records.len(),
{
    if records.len() == 0 {
    } else {
        lemma_no_recording_stays_absent(records.drop_first());
    }
}

} // verus!
