//! The order in which a session announces its candidates.
//!
//! Whatever happens to a session, the candidate lines it sends are the lines
//! of the candidates that the local ICE agent produced, in the order of their
//! production, and none of them goes out before the peer connection holds a
//! remote description.

use vstd::prelude::*;
use crate::candidate::line_for;
use crate::sdp::{answer_payload, SdpKind, SessionDescriptionView};
use crate::session::{
    candidate_message, candidate_messages, fresh, run, step, ActionView, Event, SessionView,
    TrackPlan,
};
use crate::signal::WSMessageView;

verus! {

/// Whether an action sends a `candidate` message.
pub open spec fn announces(action: ActionView) -> bool {
    action matches ActionView::Send(m) && m.event == "candidate"@
}

/// The candidate lines that a list of actions sends to the client, in order.
pub open spec fn announced_lines(actions: Seq<ActionView>) -> Seq<Seq<char>>
    decreases actions.len(),
{
    if actions.len() == 0 {
        Seq::empty()
    } else {
        let earlier = announced_lines(actions.drop_last());
        match actions.last() {
            ActionView::Send(m) => if m.event == "candidate"@ {
                earlier.push(m.payload)
            } else {
                earlier
            },
            _ => earlier,
        }
    }
}

/// The lines that an event adds to those produced: the line of the candidate
/// if the event is a local candidate that has one.
pub open spec fn produced_by(event: Event) -> Seq<Seq<char>> {
    match event {
        Event::LocalCandidate(c) => match line_for(c@) {
            Some(line) => seq![line],
            None => Seq::empty(),
        },
        _ => Seq::empty(),
    }
}

/// The lines of the candidates that the local ICE agent produced in the
/// course of `events`, in the order of their production.
pub open spec fn produced_lines(events: Seq<Event>) -> Seq<Seq<char>>
    decreases events.len(),
{
    if events.len() == 0 {
        Seq::empty()
    } else {
        produced_lines(events.drop_last()) + produced_by(events.last())
    }
}

/// What holds of a session, of the lines it has sent and of the lines that
/// were produced, at every moment of its life.
pub open spec fn in_step(s: SessionView, sent: Seq<Seq<char>>, produced: Seq<Seq<char>>) -> bool {
    &&& s.flushed ==> s.remote_set && s.pending.len() == 0
    &&& s.awaiting_answer ==> s.remote_set
    &&& !s.flushed ==> sent.len() == 0
    &&& !s.closed ==> sent + s.pending == produced
    &&& sent.is_prefix_of(produced)
}

/// The lines of one list of actions followed by another are the lines of the
/// one followed by the lines of the other.
proof fn lemma_announced_concat(a: Seq<ActionView>, b: Seq<ActionView>)
    ensures
        announced_lines(a + b) == announced_lines(a) + announced_lines(b),
    decreases b.len(),
{
    if b.len() == 0 {
        assert(a + b =~= a);
        assert(announced_lines(a) + announced_lines(b) =~= announced_lines(a));
    } else {
        assert((a + b).drop_last() =~= a + b.drop_last());
        assert((a + b).last() == b.last());
        lemma_announced_concat(a, b.drop_last());
        assert(announced_lines(a + b) =~= announced_lines(a) + announced_lines(b));
    }
}

/// The `candidate` messages for some lines announce those lines.
proof fn lemma_announced_candidates(lines: Seq<Seq<char>>)
    ensures
        announced_lines(candidate_messages(lines)) == lines,
    decreases lines.len(),
{
    if lines.len() == 0 {
        assert(announced_lines(candidate_messages(lines)) =~= lines);
    } else {
        assert(candidate_messages(lines).drop_last() =~= candidate_messages(lines.drop_last()));
        lemma_announced_candidates(lines.drop_last());
        assert(announced_lines(candidate_messages(lines)) =~= lines);
    }
}

/// Actions of which none sends a `candidate` message announce no line.
proof fn lemma_announced_none(actions: Seq<ActionView>)
    requires
        forall|i: int| 0 <= i < actions.len() ==> !announces(#[trigger] actions[i]),
    ensures
        announced_lines(actions) == Seq::<Seq<char>>::empty(),
    decreases actions.len(),
{
    if actions.len() > 0 {
        lemma_announced_none(actions.drop_last());
        assert(!announces(actions[actions.len() - 1]));
    }
}

/// No other event name of a message that a session sends is `candidate`.
proof fn lemma_other_words()
    ensures
        "answer"@ != "candidate"@,
        "offer"@ != "candidate"@,
        "pong"@ != "candidate"@,
{
    reveal_strlit("answer");
    reveal_strlit("offer");
    reveal_strlit("pong");
    reveal_strlit("candidate");
    assert("answer"@.len() == 6);
    assert("offer"@.len() == 5);
    assert("pong"@.len() == 4);
    assert("candidate"@.len() == 9);
}

/// What a step sends of candidate lines, case by case: the line of the
/// candidate when it goes out at once, the lines held back when they are
/// flushed, nothing otherwise.
proof fn lemma_step_announces(s: SessionView, event: Event)
    requires
        s.flushed ==> s.pending.len() == 0,
    ensures
        ({
            let after = step(s, event);
            let sent = announced_lines(after.1);
            let flushes = !s.closed && !after.0.closed && !s.flushed && after.0.flushed;
            &&& flushes ==> sent == s.pending && after.0.pending.len() == 0
            &&& !flushes && !s.closed && s.flushed ==> sent == produced_by(event) && after.0.pending
                == s.pending
            &&& !flushes && !s.closed && !s.flushed && !after.0.closed ==> sent.len() == 0
                && after.0.pending == s.pending + produced_by(event)
            &&& (s.closed || after.0.closed) ==> sent.len() == 0
            &&& after.0.flushed ==> s.flushed || s.awaiting_answer || after.0.remote_set
            &&& s.flushed ==> after.0.flushed
            &&& s.remote_set ==> after.0.remote_set
            &&& after.0.awaiting_answer ==> s.awaiting_answer || after.0.remote_set
            &&& s.closed ==> after.0.closed
        }),
{
    lemma_other_words();
    let after = step(s, event);
    if s.closed {
    } else {
        match event {
            Event::LocalCandidate(c) => {
                match line_for(c@) {
                    Some(line) => {
                        if s.flushed {
                            assert(after.1 =~= seq![ActionView::Send(candidate_message(line))]);
                            assert(after.1.drop_last() =~= Seq::<ActionView>::empty());
                            assert(announced_lines(after.1.drop_last()) =~= Seq::<
                                Seq<char>,
                            >::empty());
                            assert(announced_lines(after.1) =~= seq![line]);
                        } else {
                            assert(after.0.pending =~= s.pending + seq![line]);
                        }
                    },
                    None => {
                        assert(s.pending + Seq::<Seq<char>>::empty() =~= s.pending);
                    },
                }
            },
            Event::RemoteDescriptionSet => {
                assert(s.pending + Seq::<Seq<char>>::empty() =~= s.pending);
                lemma_announced_candidates(s.pending);
                if after.1 != candidate_messages(s.pending) {
                    lemma_announced_none(after.1);
                }
            },
            Event::AnswerCreated(sdp) => {
                assert(s.pending + Seq::<Seq<char>>::empty() =~= s.pending);
                if s.awaiting_answer && answer_payload(sdp@) is Some {
                    let payload = answer_payload(sdp@).unwrap();
                    let first = seq![ActionView::Send(WSMessageView { event: "answer"@, payload })];
                    let last = seq![
                        ActionView::SetLocalDescription(
                            SessionDescriptionView { kind: SdpKind::Answer, sdp: sdp@ },
                        ),
                    ];
                    assert(after.1 == first + candidate_messages(s.pending) + last);
                    lemma_announced_concat(first + candidate_messages(s.pending), last);
                    lemma_announced_concat(first, candidate_messages(s.pending));
                    lemma_announced_candidates(s.pending);
                    lemma_announced_none(first);
                    lemma_announced_none(last);
                    assert(announced_lines(after.1) =~= s.pending);
                } else {
                    lemma_announced_none(after.1);
                }
            },
            _ => {
                assert(s.pending + Seq::<Seq<char>>::empty() =~= s.pending);
                lemma_announced_none(after.1);
            },
        }
    }
}

/// A step keeps a session in step with what was produced.
proof fn lemma_step_in_step(
    s: SessionView,
    event: Event,
    sent: Seq<Seq<char>>,
    produced: Seq<Seq<char>>,
)
    requires
        in_step(s, sent, produced),
    ensures
        in_step(
            step(s, event).0,
            sent + announced_lines(step(s, event).1),
            produced + produced_by(event),
        ),
{
    lemma_step_announces(s, event);
    let after = step(s, event);
    let more = announced_lines(after.1);
    let sent_after = sent + more;
    let produced_after = produced + produced_by(event);
    if more.len() == 0 {
        assert(sent_after =~= sent);
    }
    if !after.0.closed {
        assert(sent_after + after.0.pending =~= produced_after);
    }
    assert(sent_after.is_prefix_of(produced_after)) by {
        if s.closed || after.0.closed {
            assert(sent_after =~= sent);
        } else {
            assert(sent_after + after.0.pending =~= produced_after);
        }
    }
}

/// A session is in step with what was produced after every run from its
/// creation.
proof fn lemma_run_in_step(plan: TrackPlan, events: Seq<Event>)
    ensures
        in_step(
            run(fresh(plan), events).0,
            announced_lines(run(fresh(plan), events).1),
            produced_lines(events),
        ),
    decreases events.len(),
{
    if events.len() == 0 {
        assert(announced_lines(Seq::<ActionView>::empty()) + fresh(plan).pending
            =~= produced_lines(events));
    } else {
        let before = run(fresh(plan), events.drop_last());
        lemma_run_in_step(plan, events.drop_last());
        lemma_step_in_step(
            before.0,
            events.last(),
            announced_lines(before.1),
            produced_lines(events.drop_last()),
        );
        lemma_announced_concat(before.1, step(before.0, events.last()).1);
    }
}

/// The candidate lines that a session sends are the lines that the local ICE
/// agent produced, in the order of their production: at any moment what was
/// sent is a beginning of what was produced, and while the session is open
/// what was sent, followed by what is held back, is all that was produced.
/// So a candidate that came before the remote description is sent before
/// every candidate that came after it.
pub proof fn lemma_candidates_in_order(plan: TrackPlan, events: Seq<Event>)
    ensures
        announced_lines(run(fresh(plan), events).1).is_prefix_of(produced_lines(events)),
        !run(fresh(plan), events).0.closed ==> announced_lines(run(fresh(plan), events).1) + run(
            fresh(plan),
            events,
        ).0.pending == produced_lines(events),
{
    lemma_run_in_step(plan, events);
}

/// As long as the peer connection holds no remote description, a session
/// sends no candidate: what the local ICE agent produces until then is held
/// back.
pub proof fn lemma_candidates_deferred(plan: TrackPlan, events: Seq<Event>)
    ensures
        !run(fresh(plan), events).0.remote_set ==> announced_lines(run(fresh(plan), events).1)
            == Seq::<Seq<char>>::empty() && (!run(fresh(plan), events).0.closed ==> run(
            fresh(plan),
            events,
        ).0.pending == produced_lines(events)),
{
    lemma_run_in_step(plan, events);
    let end = run(fresh(plan), events);
    if !end.0.remote_set {
        assert(announced_lines(end.1) =~= Seq::<Seq<char>>::empty());
        if !end.0.closed {
            assert(announced_lines(end.1) + end.0.pending =~= end.0.pending);
        }
    }
}

/// Once a session has sent what it held back, it holds nothing back any
/// more: the buffer is empty then and stays empty, and what was sent stays
/// sent.
pub proof fn lemma_buffer_not_reused(plan: TrackPlan, events: Seq<Event>, next: Event)
    ensures
        run(fresh(plan), events).0.flushed ==> run(fresh(plan), events).0.pending.len() == 0,
        run(fresh(plan), events).0.flushed ==> step(run(fresh(plan), events).0, next).0.flushed
            && step(run(fresh(plan), events).0, next).0.pending.len() == 0,
{
    lemma_run_in_step(plan, events);
    lemma_step_announces(run(fresh(plan), events).0, next);
}

} // verus!
