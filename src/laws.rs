//! Properties that relate several operations or hold of every input,
//! stated over the specifications of the operations and proved.

use vstd::prelude::*;
use crate::frame::{
    data_payload, data_prefix, delim_at, feed, first_delim_from, payloads, split_frames,
    split_from,
};
use crate::record::StatusRecordView;
use crate::rules::{
    ActivityFlags, RulesView, derived_visible, flag_or_false, record_flags, record_status,
    record_text,
};
use crate::state::{
    OverlayView, Reaction, idled, no_requests, overridden, reconciled, status_updated, toggled,
    window_ok,
};
use crate::text::has_any_infix;
use crate::transport::{Action, Outcome, Phase, TransportView, next_other, stepped};

verus! {

/// Reconciling the same record twice in a row: the second time changes
/// nothing and asks the window for nothing, at whatever time it comes.
pub proof fn lemma_reconcile_idempotent(
    s: OverlayView,
    r: StatusRecordView,
    rules: RulesView,
    now1: u64,
    now2: u64,
)
    ensures
        reconciled(reconciled(s, r, rules, now1).0, r, rules, now2).0 == reconciled(
            s,
            r,
            rules,
            now1,
        ).0,
        match reconciled(reconciled(s, r, rules, now1).0, r, rules, now2).1 {
            Reaction::Window(w) => w == no_requests(),
            _ => true,
        },
{
}

/// A record with no activity, no explicit request and no highlight word,
/// whose text is empty or a placeholder, does not ask for the window; a
/// record that reports the wake word always does.
pub proof fn lemma_visibility_formula(r: StatusRecordView, rules: RulesView)
    ensures
        !record_flags(r, rules).any() && !flag_or_false(r.overlay_visible) && !has_any_infix(
            record_status(r),
            rules.highlight_words,
        ) && !has_any_infix(record_text(r), rules.highlight_words) && (record_text(r).len() == 0
            || rules.placeholder_texts.contains(record_text(r))) ==> !derived_visible(r, rules),
        r.wake_word_detected == Some(true) ==> derived_visible(r, rules),
{
}

/// One input to the overlay's state.
pub enum Input {
    /// A status record, at a time.
    Record(StatusRecordView, u64),
    /// An explicit show (`true`) or hide, at a time.
    Override(bool, u64),
    /// An idle check at a time, with a threshold.
    Idle(u64, u64),
    /// A status update from the presentation layer.
    Update(Seq<char>, Seq<char>, ActivityFlags),
    /// Switching the overlay display.
    Toggle,
}

pub open spec fn apply_input(s: OverlayView, i: Input, rules: RulesView) -> OverlayView {
    match i {
        Input::Record(r, now) => reconciled(s, r, rules, now).0,
        Input::Override(show, now) => overridden(s, show, now).0,
        Input::Idle(now, threshold) => idled(s, now, threshold).0,
        Input::Update(status, text, flags) => status_updated(s, status, text, flags),
        Input::Toggle => toggled(s),
    }
}

/// The state after a sequence of inputs.
pub open spec fn run_inputs(s: OverlayView, inputs: Seq<Input>, rules: RulesView) -> OverlayView
    decreases inputs.len(),
{
    if inputs.len() == 0 {
        s
    } else {
        run_inputs(apply_input(s, inputs[0], rules), inputs.drop_first(), rules)
    }
}

/// No sequence of inputs makes a hidden window interactive.
pub proof fn lemma_never_interactive_while_hidden(
    s: OverlayView,
    inputs: Seq<Input>,
    rules: RulesView,
)
    requires
        window_ok(s),
    ensures
        window_ok(run_inputs(s, inputs, rules)),
    decreases inputs.len(),
{
    if inputs.len() > 0 {
        lemma_never_interactive_while_hidden(
            apply_input(s, inputs[0], rules),
            inputs.drop_first(),
            rules,
        );
    }
}

/// A shown window that is quiet, empty and not pinned, with no change for
/// at least the threshold, is hidden by the idle check and made
/// click-through; a later check asks for nothing more.
pub proof fn lemma_auto_hide_once(s: OverlayView, now: u64, later_now: u64, threshold: u64)
    requires
        s.visible,
        !s.flags.any(),
        s.text.len() == 0,
        !s.pinned,
        now >= s.last_activity_ms + threshold,
    ensures
        idled(s, now, threshold).1.visibility == Some(false),
        !idled(s, now, threshold).0.visible,
        !idled(s, now, threshold).0.interactive,
        idled(idled(s, now, threshold).0, later_now, threshold).1 == no_requests(),
        idled(idled(s, now, threshold).0, later_now, threshold).0 == idled(s, now, threshold).0,
{
}

/// A record that asks to hide the window hides it, whatever else it reports,
/// unless it carries an action or also asks to show it.
pub proof fn lemma_hide_override_wins(
    s: OverlayView,
    r: StatusRecordView,
    rules: RulesView,
    now: u64,
)
    requires
        r.action is None,
        !flag_or_false(r.show_overlay),
        r.hide_overlay == Some(true),
    ensures
        !reconciled(s, r, rules, now).0.visible,
        !reconciled(s, r, rules, now).0.interactive,
{
}

/// When a poll finds its port unreachable, the first other candidate is
/// probed; if it answers it becomes the port, and the next poll goes to it.
pub proof fn lemma_failover_next_tick(t: TransportView, q: int)
    requires
        t.phase == Phase::Polling,
        t.ports.len() <= usize::MAX,
        next_other(t.ports, t.current, 0) == Some(q),
    ensures
        stepped(t, Outcome::Unreachable).1 == Action::Probe(t.ports[q]),
        stepped(stepped(t, Outcome::Unreachable).0, Outcome::Success).0.current == t.ports[q],
        stepped(stepped(t, Outcome::Unreachable).0, Outcome::Success).1 == Action::Wait(
            t.poll_ms,
        ),
        stepped(
            stepped(stepped(t, Outcome::Unreachable).0, Outcome::Success).0,
            Outcome::Done,
        ).1 == Action::Poll(t.ports[q]),
{
    lemma_next_other_bounds(t.ports, t.current, 0);
}

proof fn lemma_next_other_bounds(ports: Seq<u16>, port: u16, from: int)
    ensures
        match next_other(ports, port, from) {
            Some(j) => from <= j < ports.len() && ports[j] != port,
            None => true,
        },
    decreases ports.len() - from,
{
    if 0 <= from < ports.len() && ports[from] == port {
        lemma_next_other_bounds(ports, port, from + 1);
    }
}

/// One data message: the prefix, the payload and a blank line.
pub open spec fn data_frame(p: Seq<u8>) -> Seq<u8> {
    data_prefix() + p + seq![10u8, 10u8]
}

proof fn lemma_no_delim_from(s: Seq<u8>, k: int)
    requires
        0 <= k,
        forall|i: int| k <= i ==> !delim_at(s, i),
    ensures
        first_delim_from(s, k) is None,
    decreases s.len() - k,
{
    if k + 1 < s.len() {
        lemma_no_delim_from(s, k + 1);
    }
}

proof fn lemma_delim_found(s: Seq<u8>, k: int, j: int)
    requires
        0 <= k <= j,
        delim_at(s, j),
        forall|i: int| k <= i < j ==> !delim_at(s, i),
    ensures
        first_delim_from(s, k) == Some(j),
    decreases j - k,
{
    if k < j {
        lemma_delim_found(s, k + 1, j);
    }
}

/// How a prefix of one data frame splits: nothing complete until the whole
/// frame is there, then exactly the frame's message.
proof fn lemma_frame_prefix(p: Seq<u8>, q: Seq<u8>)
    requires
        forall|i: int| 0 <= i < p.len() ==> p[i] != 10u8,
        q.len() <= data_frame(p).len(),
        q == data_frame(p).subrange(0, q.len() as int),
    ensures
        q.len() < data_frame(p).len() ==> split_frames(q) == (Seq::<Seq<u8>>::empty(), q),
        q.len() == data_frame(p).len() ==> split_frames(q) == (
            seq![data_frame(p).subrange(0, q.len() - 2)],
            Seq::<u8>::empty(),
        ),
        q.len() == data_frame(p).len() ==> data_payload(data_frame(p).subrange(0, q.len() - 2))
            == Some(p),
{
    let m = data_frame(p);
    let n = m.len() as int;
    assert forall|i: int| 0 <= i < n - 2 implies m[i] != 10u8 by {
        if i < 6 {
            assert(m[i] == data_prefix()[i]);
        } else {
            assert(m[i] == p[i - 6]);
        }
    }
    if q.len() < n {
        assert forall|i: int| 0 <= i implies !delim_at(q, i) by {
            if delim_at(q, i) {
                assert(q[i] == m[i]);
            }
        }
        lemma_no_delim_from(q, 0);
        assert(q.subrange(0, q.len() as int) =~= q);
    }
    if q.len() == n {
        assert(q =~= m);
        assert forall|i: int| 0 <= i < n - 2 implies !delim_at(q, i) by {
            assert(q[i] == m[i]);
        }
        assert(m[n - 2] == 10u8 && m[n - 1] == 10u8);
        lemma_delim_found(q, 0, n - 2);
        assert(first_delim_from(q, n) is None);
        assert(split_from(q, n) == (Seq::<Seq<u8>>::empty(), q.subrange(n, n)));
        assert(q.subrange(n, n) =~= Seq::<u8>::empty());
        assert(seq![q.subrange(0, n - 2)] + Seq::<Seq<u8>>::empty() =~= seq![
            q.subrange(0, n - 2),
        ]);
        let msg = m.subrange(0, n - 2);
        assert(msg.subrange(0, 6) =~= data_prefix());
        assert(msg.subrange(6, msg.len() as int) =~= p);
    }
}

proof fn lemma_feed_nothing(buf: Seq<u8>, chunks: Seq<Seq<u8>>)
    requires
        buf.len() == 0,
        forall|i: int| 0 <= i < chunks.len() ==> #[trigger] chunks[i].len() == 0,
    ensures
        feed(buf, chunks) == (Seq::<Seq<u8>>::empty(), Seq::<u8>::empty()),
    decreases chunks.len(),
{
    if chunks.len() > 0 {
        assert(buf + chunks[0] =~= Seq::<u8>::empty());
        lemma_no_delim_from(buf + chunks[0], 0);
        assert((buf + chunks[0]).subrange(0, 0) =~= Seq::<u8>::empty());
        lemma_feed_nothing(buf, chunks.drop_first());
        assert(payloads(Seq::<Seq<u8>>::empty()) == Seq::<Seq<u8>>::empty());
        assert(Seq::<Seq<u8>>::empty() + Seq::<Seq<u8>>::empty() =~= Seq::<Seq<u8>>::empty());
    }
}

/// A data message whose payload holds no newline, cut into three chunks
/// anywhere, decodes into exactly that payload and leaves nothing behind.
pub proof fn lemma_split_frame_decodes_once(p: Seq<u8>, a: Seq<u8>, b: Seq<u8>, c: Seq<u8>)
    requires
        forall|i: int| 0 <= i < p.len() ==> p[i] != 10u8,
        a + b + c == data_frame(p),
    ensures
        feed(Seq::<u8>::empty(), seq![a, b, c]) == (seq![p], Seq::<u8>::empty()),
{
    let m = data_frame(p);
    let n = m.len() as int;
    let e = Seq::<u8>::empty();
    let none = Seq::<Seq<u8>>::empty();
    let chunks = seq![a, b, c];
    assert(chunks.drop_first() =~= seq![b, c]);
    assert(seq![b, c].drop_first() =~= seq![c]);
    assert(seq![c].drop_first() =~= Seq::<Seq<u8>>::empty());
    assert(e + a =~= a);
    assert(a =~= m.subrange(0, a.len() as int));
    assert(a + b =~= m.subrange(0, (a.len() + b.len()) as int));
    assert(m.subrange(0, n) =~= m);
    let frame = m.subrange(0, n - 2);
    assert(payloads(seq![frame]) == payloads(seq![frame].drop_last()).push(p)) by {
        lemma_frame_prefix(p, m);
    }
    assert(seq![frame].drop_last() =~= none);
    assert(none.push(p) =~= seq![p]);
    assert(payloads(none) == none);
    assert(seq![p] + none =~= seq![p]);
    assert(none + seq![p] =~= seq![p]);
    if a.len() < n {
        lemma_frame_prefix(p, a);
        if a.len() + b.len() < n {
            lemma_frame_prefix(p, a + b);
            lemma_frame_prefix(p, m);
            assert(a + b + c =~= m);
            assert(feed(e, Seq::<Seq<u8>>::empty()) == (none, e));
            assert(feed(a + b, seq![c]) == (seq![p], e));
            assert(feed(a, seq![b, c]) == (seq![p], e));
        } else {
            assert(a + b =~= m);
            assert(c.len() == 0);
            lemma_frame_prefix(p, m);
            lemma_feed_nothing(e, seq![c]);
            assert(feed(a, seq![b, c]) == (seq![p], e));
        }
    } else {
        assert(a =~= m);
        assert(b.len() == 0 && c.len() == 0);
        lemma_frame_prefix(p, m);
        lemma_feed_nothing(e, seq![b, c]);
    }
}

} // verus!
