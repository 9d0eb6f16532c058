//! Properties of the connection state machine over whole runs of events.

use vstd::prelude::*;
use crate::envelope::{err_frame, ok_frame};
use crate::session::{initial, next, run, well_formed, ActionView, ConnView, EventView, Phase};

verus! {

/// The source fragments handed to the frontend, in order.
pub open spec fn parses(acts: Seq<ActionView>) -> Seq<Seq<char>>
    decreases acts.len(),
{
    if acts.len() == 0 {
        Seq::empty()
    } else {
        let rest = parses(acts.drop_last());
        match acts.last() {
            ActionView::Parse(src) => rest.push(src),
            _ => rest,
        }
    }
}

/// The frames handed to the transport, in order.
pub open spec fn sends(acts: Seq<ActionView>) -> Seq<Seq<char>>
    decreases acts.len(),
{
    if acts.len() == 0 {
        Seq::empty()
    } else {
        let rest = sends(acts.drop_last());
        match acts.last() {
            ActionView::Send(frame) => rest.push(frame),
            _ => rest,
        }
    }
}

/// The sources of the recorded exchanges.
pub open spec fn sources(h: Seq<(Seq<char>, Seq<char>)>) -> Seq<Seq<char>> {
    h.map_values(|x: (Seq<char>, Seq<char>)| x.0)
}

/// The reply frames of the recorded exchanges.
pub open spec fn frames(h: Seq<(Seq<char>, Seq<char>)>) -> Seq<Seq<char>> {
    h.map_values(|x: (Seq<char>, Seq<char>)| x.1)
}

/// Every fragment received: those answered, then the one in flight.
pub open spec fn requests(s: ConnView) -> Seq<Seq<char>> {
    match s.pending {
        Some(src) => sources(s.history).push(src),
        None => sources(s.history),
    }
}

proof fn lemma_step_pairs(s: ConnView, e: EventView)
    requires
        well_formed(s),
    ensures
        ({
            let (t, a) = next(s, e);
            &&& well_formed(t)
            &&& requests(t) == requests(s) + parses(seq![a])
            &&& frames(t.history) == frames(s.history) + sends(seq![a])
        }),
{
    let (t, a) = next(s, e);
    let one = seq![a];
    assert(one.drop_last() =~= Seq::<ActionView>::empty());
    assert(one.last() == a);
    assert(parses(one.drop_last()) =~= Seq::<Seq<char>>::empty());
    assert(sends(one.drop_last()) =~= Seq::<Seq<char>>::empty());
    match a {
        ActionView::Parse(src) => {
            assert(t.history == s.history);
            assert(requests(t) =~= requests(s) + seq![src]);
            assert(frames(t.history) =~= frames(s.history) + Seq::<Seq<char>>::empty());
        },
        ActionView::Send(frame) => {
            assert(t.history == s.history.push((s.pending->0, frame)));
            assert(sources(t.history) =~= sources(s.history).push(s.pending->0));
            assert(requests(t) =~= requests(s) + Seq::<Seq<char>>::empty());
            assert(frames(t.history) =~= frames(s.history) + seq![frame]);
        },
        _ => {
            assert(t.history == s.history);
            assert(t.pending == s.pending);
            assert(requests(t) =~= requests(s) + Seq::<Seq<char>>::empty());
            assert(frames(t.history) =~= frames(s.history) + Seq::<Seq<char>>::empty());
        },
    }
}

proof fn lemma_run_push(s: ConnView, events: Seq<EventView>, e: EventView)
    ensures
        run(s, events.push(e)) == ({
            let (mid, acts) = run(s, events);
            let (t, a) = next(mid, e);
            (t, acts.push(a))
        }),
{
    assert(events.push(e).drop_last() =~= events);
}

proof fn lemma_run_pairs(s: ConnView, events: Seq<EventView>)
    requires
        well_formed(s),
    ensures
        ({
            let (t, acts) = run(s, events);
            &&& well_formed(t)
            &&& requests(t) == requests(s) + parses(acts)
            &&& frames(t.history) == frames(s.history) + sends(acts)
        }),
    decreases events.len(),
{
    if events.len() == 0 {
        let (t, acts) = run(s, events);
        assert(requests(t) =~= requests(s) + parses(acts));
        assert(frames(t.history) =~= frames(s.history) + sends(acts));
    } else {
        let (mid, acts) = run(s, events.drop_last());
        lemma_run_pairs(s, events.drop_last());
        let (t, a) = next(mid, events.last());
        lemma_step_pairs(mid, events.last());
        let all = acts.push(a);
        assert(all.drop_last() =~= acts);
        assert(seq![a].drop_last() =~= Seq::<ActionView>::empty());
        assert(requests(t) =~= requests(s) + parses(all));
        assert(frames(t.history) =~= frames(s.history) + sends(all));
    }
}

/// Strict request/response pairing: from a freshly opened connection,
/// whatever events arrive, the frames sent correspond one to one, in order,
/// to the fragments received: the i-th frame sent is the reply recorded for
/// the i-th fragment, at most one fragment is ever without its reply, and
/// none is when the next frame is awaited.
pub proof fn lemma_one_reply_per_request(events: Seq<EventView>)
    ensures
        ({
            let (t, acts) = run(initial(), events);
            &&& sends(acts).len() <= parses(acts).len() <= sends(acts).len() + 1
            &&& sends(acts).len() == t.history.len()
            &&& forall|i: int|
                0 <= i < sends(acts).len() ==> t.history[i] == (
                    #[trigger] parses(acts)[i],
                    sends(acts)[i],
                )
            &&& (t.phase == Phase::Awaiting || t.phase == Phase::Sending) ==> parses(acts).len()
                == sends(acts).len()
        }),
{
    let s = initial();
    let (t, acts) = run(s, events);
    lemma_run_pairs(s, events);
    assert(requests(s) =~= Seq::<Seq<char>>::empty());
    assert(frames(s.history) =~= Seq::<Seq<char>>::empty());
    assert(requests(t) =~= parses(acts));
    assert(frames(t.history) =~= sends(acts));
    assert forall|i: int| 0 <= i < sends(acts).len() implies t.history[i] == (
        #[trigger] parses(acts)[i],
        sends(acts)[i],
    ) by {
        assert(sources(t.history)[i] == t.history[i].0);
        assert(requests(t)[i] == sources(t.history)[i]);
    }
}

/// A fragment with syntax errors is answered with those errors, in order,
/// and the runtime is never invoked for it, so the session's environment is
/// left as it was; the connection then awaits the next frame.
pub proof fn lemma_syntax_errors_rejected(s: ConnView, src: Seq<char>, errs: Seq<Seq<char>>)
    requires
        s.phase == Phase::Awaiting,
        errs.len() > 0,
    ensures
        run(s, seq![EventView::Text(src), EventView::Parsed(errs), EventView::Sent]) == (
            ConnView {
                phase: Phase::Awaiting,
                pending: None,
                history: s.history.push((src, err_frame(errs))),
            },
            seq![ActionView::Parse(src), ActionView::Send(err_frame(errs)), ActionView::Receive],
        ),
{
    let e0 = Seq::<EventView>::empty();
    let e1 = e0.push(EventView::Text(src));
    let e2 = e1.push(EventView::Parsed(errs));
    let e3 = e2.push(EventView::Sent);
    lemma_run_push(s, e0, EventView::Text(src));
    lemma_run_push(s, e1, EventView::Parsed(errs));
    lemma_run_push(s, e2, EventView::Sent);
    assert(e3 =~= seq![EventView::Text(src), EventView::Parsed(errs), EventView::Sent]);
    let (_t, acts) = run(s, e3);
    assert(acts =~= seq![
        ActionView::Parse(src),
        ActionView::Send(err_frame(errs)),
        ActionView::Receive,
    ]);
}

/// A syntactically valid fragment is evaluated once, and answered with the
/// display string of the result; the connection then awaits the next frame.
pub proof fn lemma_valid_input_evaluated(s: ConnView, src: Seq<char>, display: Seq<char>)
    requires
        s.phase == Phase::Awaiting,
    ensures
        run(
            s,
            seq![
                EventView::Text(src),
                EventView::Parsed(Seq::empty()),
                EventView::Evaluated(display),
                EventView::Sent,
            ],
        ) == (
            ConnView {
                phase: Phase::Awaiting,
                pending: None,
                history: s.history.push((src, ok_frame(display))),
            },
            seq![
                ActionView::Parse(src),
                ActionView::Evaluate,
                ActionView::Send(ok_frame(display)),
                ActionView::Receive,
            ],
        ),
{
    let e0 = Seq::<EventView>::empty();
    let e1 = e0.push(EventView::Text(src));
    let e2 = e1.push(EventView::Parsed(Seq::empty()));
    let e3 = e2.push(EventView::Evaluated(display));
    let e4 = e3.push(EventView::Sent);
    lemma_run_push(s, e0, EventView::Text(src));
    lemma_run_push(s, e1, EventView::Parsed(Seq::empty()));
    lemma_run_push(s, e2, EventView::Evaluated(display));
    lemma_run_push(s, e3, EventView::Sent);
    assert(e4 =~= seq![
        EventView::Text(src),
        EventView::Parsed(Seq::empty()),
        EventView::Evaluated(display),
        EventView::Sent,
    ]);
    let (_t, acts) = run(s, e4);
    assert(acts =~= seq![
        ActionView::Parse(src),
        ActionView::Evaluate,
        ActionView::Send(ok_frame(display)),
        ActionView::Receive,
    ]);
}

/// Closing is final: once closed, a connection ignores every further event,
/// answering each with `Close` and recording nothing.
pub proof fn lemma_closed_is_terminal(s: ConnView, events: Seq<EventView>)
    requires
        s.phase == Phase::Closed,
    ensures
        ({
            let (t, acts) = run(s, events);
            &&& t == s
            &&& acts.len() == events.len()
            &&& forall|i: int| 0 <= i < acts.len() ==> acts[i] == ActionView::Close
        }),
    decreases events.len(),
{
    if events.len() > 0 {
        lemma_closed_is_terminal(s, events.drop_last());
        lemma_run_push(s, events.drop_last(), events.last());
        assert(events.drop_last().push(events.last()) =~= events);
    }
}

/// A non-text or undecodable frame ends the connection at once: no frame is
/// sent for it or after it, and nothing more is recorded.
pub proof fn lemma_malformed_frame_ends_connection(s: ConnView, events: Seq<EventView>)
    requires
        s.phase == Phase::Awaiting,
    ensures
        ({
            let (t, acts) = run(s, seq![EventView::Malformed] + events);
            &&& t == ConnView { phase: Phase::Closed, ..s }
            &&& acts.len() == events.len() + 1
            &&& forall|i: int| 0 <= i < acts.len() ==> acts[i] == ActionView::Close
        }),
    decreases events.len(),
{
    let first = seq![EventView::Malformed];
    if events.len() == 0 {
        lemma_run_push(s, Seq::empty(), EventView::Malformed);
        assert(first + events =~= Seq::<EventView>::empty().push(EventView::Malformed));
    } else {
        lemma_malformed_frame_ends_connection(s, events.drop_last());
        lemma_run_push(s, first + events.drop_last(), events.last());
        assert((first + events.drop_last()).push(events.last()) =~= first + events);
    }
}

} // verus!
