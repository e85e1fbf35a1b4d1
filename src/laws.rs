//! Properties of the element that span several calls.

use vstd::prelude::*;

use crate::element::{
    accepts_items, arriving, end_of_stream_spec, flush_start_spec, flush_stop_spec,
    prepared_spec, pull_spec, pulls_item, push_buffer_ok, push_buffer_spec, start_spec,
    stop_spec, valid_max_buffers, AppSrcModel, AppSrcState,
};
use crate::items::{Buffer, ClockReading, Event, StartIds, StreamItem};
use crate::prelude::{after_prelude, caps_view, is_caps_event, is_prelude, is_start_event, prelude_len};

verus! {

/// The element after the buffers `xs` are submitted in order, each with its clock reading.
pub open spec fn push_all(
    m: AppSrcModel,
    xs: Seq<Buffer>,
    clocks: Seq<Option<ClockReading>>,
) -> AppSrcModel
    decreases xs.len(),
{
    if xs.len() == 0 || clocks.len() != xs.len() {
        m
    } else {
        push_buffer_spec(push_all(m, xs.drop_last(), clocks.drop_last()), xs.last(), clocks.last())
    }
}

/// The items that the buffers `xs` become once queued.
pub open spec fn arrived(
    m: AppSrcModel,
    xs: Seq<Buffer>,
    clocks: Seq<Option<ClockReading>>,
) -> Seq<StreamItem> {
    Seq::new(xs.len(), |i: int| StreamItem::Buffer(arriving(m, xs[i], clocks[i])))
}

/// The element after `n` activations of the consumer task.
pub open spec fn pull_times(m: AppSrcModel, n: nat) -> AppSrcModel
    decreases n,
{
    if n == 0 {
        m
    } else {
        pull_spec(pull_times(m, (n - 1) as nat))
    }
}

/// The items forwarded by `n` activations of the consumer task, in order.
pub open spec fn pulled_items(m: AppSrcModel, n: nat) -> Seq<StreamItem>
    decreases n,
{
    if n == 0 {
        Seq::empty()
    } else {
        pulled_items(m, (n - 1) as nat).push(pull_times(m, (n - 1) as nat).queue[0])
    }
}

/// Whether every buffer that must be stamped has a clock reading.
pub open spec fn clocks_cover(m: AppSrcModel, clocks: Seq<Option<ClockReading>>) -> bool {
    m.settings.do_timestamp ==> forall|i: int| 0 <= i < clocks.len() ==> (#[trigger] clocks[i]).is_some()
}

proof fn lemma_push_all(m: AppSrcModel, xs: Seq<Buffer>, clocks: Seq<Option<ClockReading>>)
    requires
        m.wf(),
        accepts_items(m) || m.queue.len() == m.capacity,
        m.state != AppSrcState::RejectBuffers,
        m.prepared,
        xs.len() == clocks.len(),
        clocks_cover(m, clocks),
    ensures
        ({
            let room: int = m.capacity - m.queue.len();
            let k: int = if xs.len() <= room { xs.len() as int } else { room };
            &&& push_all(m, xs, clocks) == (AppSrcModel {
                queue: m.queue + arrived(m, xs.take(k), clocks.take(k)),
                ..m
            })
            &&& forall|i: int|
                0 <= i < xs.len() ==> push_buffer_ok(
                    #[trigger] push_all(m, xs.take(i), clocks.take(i)),
                    clocks[i],
                ) == (i < room)
        }),
    decreases xs.len(),
{
    let room: int = m.capacity - m.queue.len();
    if xs.len() == 0 {
        assert(m.queue + arrived(m, xs.take(0), clocks.take(0)) =~= m.queue);
    } else {
        let n: int = xs.len() as int;
        let ys = xs.drop_last();
        let cs = clocks.drop_last();
        assert forall|i: int| 0 <= i < cs.len() implies (#[trigger] cs[i]).is_some()
            || !m.settings.do_timestamp by {
            assert(cs[i] == clocks[i]);
        }
        lemma_push_all(m, ys, cs);
        let p = push_all(m, ys, cs);
        let kp: int = if ys.len() <= room { ys.len() as int } else { room };
        assert(xs.take(n - 1) =~= ys);
        assert(clocks.take(n - 1) =~= cs);
        assert(clocks[n - 1] == clocks.last());
        if n - 1 < room {
            assert(arrived(m, xs.take(n), clocks.take(n)) =~= arrived(m, ys.take(kp), cs.take(kp)).push(
                StreamItem::Buffer(arriving(m, xs.last(), clocks.last())),
            ));
        } else {
            assert(xs.take(room) =~= ys.take(kp));
            assert(clocks.take(room) =~= cs.take(kp));
        }
        assert forall|i: int| 0 <= i < xs.len() implies push_buffer_ok(
            #[trigger] push_all(m, xs.take(i), clocks.take(i)),
            clocks[i],
        ) == (i < room) by {
            if i < n - 1 {
                assert(xs.take(i) =~= ys.take(i));
                assert(clocks.take(i) =~= cs.take(i));
                assert(cs[i] == clocks[i]);
            }
        }
        assert(xs.take(n) =~= xs);
        assert(clocks.take(n) =~= clocks);
    }
}

proof fn lemma_pull_times(w: AppSrcModel, k: nat)
    requires
        w.wf(),
        w.running,
        k <= w.queue.len(),
    ensures
        pull_times(w, k) == (AppSrcModel {
            queue: w.queue.skip(k as int),
            prelude: if k == 0 {
                w.prelude
            } else {
                after_prelude(w.prelude)
            },
            ..w
        }),
        pulled_items(w, k) == w.queue.take(k as int),
        k < w.queue.len() ==> pulls_item(pull_times(w, k)),
    decreases k,
{
    if k == 0 {
        assert(w.queue.skip(0) =~= w.queue);
        assert(w.queue.take(0) =~= Seq::<StreamItem>::empty());
    } else {
        lemma_pull_times(w, (k - 1) as nat);
        let p = pull_times(w, (k - 1) as nat);
        assert(p.queue.drop_first() =~= w.queue.skip(k as int));
        assert(w.queue.take(k as int) =~= w.queue.take(k - 1).push(p.queue[0]));
    }
}

/// Buffers submitted while the element accepts items, no more than there is
/// room for, are all accepted; the consumer then forwards the queued items in
/// submission order. The first activation forwards the prelude that is owed,
/// and no later activation of the session owes any.
pub proof fn lemma_submission_order(
    m: AppSrcModel,
    xs: Seq<Buffer>,
    clocks: Seq<Option<ClockReading>>,
)
    requires
        m.wf(),
        m.state == AppSrcState::Started,
        m.running,
        xs.len() == clocks.len(),
        m.queue.len() + xs.len() <= m.capacity,
        clocks_cover(m, clocks),
    ensures
        ({
            let w = push_all(m, xs, clocks);
            let n = w.queue.len();
            &&& forall|i: int|
                0 <= i < xs.len() ==> push_buffer_ok(
                    #[trigger] push_all(m, xs.take(i), clocks.take(i)),
                    clocks[i],
                )
            &&& w.queue == m.queue + arrived(m, xs, clocks)
            &&& pulled_items(w, n) == w.queue
            &&& w.prelude == m.prelude
            &&& forall|k: nat|
                1 <= k <= n ==> prelude_len(#[trigger] pull_times(w, k).prelude) == 0
        }),
{
    lemma_push_all(m, xs, clocks);
    let w = push_all(m, xs, clocks);
    assert(xs.take(xs.len() as int) =~= xs);
    assert(clocks.take(clocks.len() as int) =~= clocks);
    lemma_pull_times(w, w.queue.len());
    assert(w.queue.take(w.queue.len() as int) =~= w.queue);
    assert forall|k: nat| 1 <= k <= w.queue.len() implies prelude_len(
        #[trigger] pull_times(w, k).prelude,
    ) == 0 by {
        lemma_pull_times(w, k);
    }
}

/// Buffers submitted beyond the room left in the channel are refused; the
/// ones that fitted stay queued, in order, after what was already queued.
pub proof fn lemma_overflow_refused(
    m: AppSrcModel,
    xs: Seq<Buffer>,
    clocks: Seq<Option<ClockReading>>,
)
    requires
        m.wf(),
        m.state != AppSrcState::RejectBuffers,
        m.prepared,
        xs.len() == clocks.len(),
        m.queue.len() + xs.len() > m.capacity,
        clocks_cover(m, clocks),
    ensures
        ({
            let room: int = m.capacity - m.queue.len();
            &&& forall|i: int|
                0 <= i < xs.len() ==> push_buffer_ok(
                    #[trigger] push_all(m, xs.take(i), clocks.take(i)),
                    clocks[i],
                ) == (i < room)
            &&& push_all(m, xs, clocks).queue == m.queue + arrived(
                m,
                xs.take(room),
                clocks.take(room),
            )
        }),
{
    lemma_push_all(m, xs, clocks);
}

/// Once a flush has begun, every submission is refused and changes nothing,
/// and the consumer task forwards nothing.
pub proof fn lemma_flush_rejects(
    m: AppSrcModel,
    xs: Seq<Buffer>,
    clocks: Seq<Option<ClockReading>>,
)
    requires
        m.wf(),
        xs.len() == clocks.len(),
    ensures
        ({
            let f = flush_start_spec(m);
            &&& !accepts_items(f)
            &&& end_of_stream_spec(f) == f
            &&& pull_spec(f) == f
            &&& push_all(f, xs, clocks) == f
            &&& forall|i: int|
                0 <= i < xs.len() ==> !push_buffer_ok(
                    #[trigger] push_all(f, xs.take(i), clocks.take(i)),
                    clocks[i],
                )
        }),
    decreases xs.len(),
{
    let f = flush_start_spec(m);
    if xs.len() > 0 {
        let n: int = xs.len() as int;
        lemma_flush_rejects(m, xs.drop_last(), clocks.drop_last());
        assert forall|i: int| 0 <= i < xs.len() implies !push_buffer_ok(
            #[trigger] push_all(f, xs.take(i), clocks.take(i)),
            clocks[i],
        ) by {
            if i < n - 1 {
                assert(xs.take(i) =~= xs.drop_last().take(i));
                assert(clocks.take(i) =~= clocks.drop_last().take(i));
            } else {
                assert(xs.take(i) =~= xs.drop_last());
                assert(clocks.take(i) =~= clocks.drop_last());
            }
        }
    }
}

/// After a flush ends, the next item forwarded is preceded by a fresh segment
/// event alone: the stream is not started again and the negotiated format is kept.
pub proof fn lemma_flush_stop_segment(
    m: AppSrcModel,
    b: Buffer,
    clock: Option<ClockReading>,
    ids: StartIds,
    es: Seq<Event>,
)
    requires
        m.wf(),
        m.prepared,
        m.state != AppSrcState::Started,
        !m.prelude.need_initial_events,
        m.queue.len() < m.capacity,
        m.settings.do_timestamp ==> clock.is_some(),
    ensures
        ({
            let s = flush_stop_spec(m);
            let t = push_buffer_spec(s, b, clock);
            &&& push_buffer_ok(s, clock)
            &&& pulls_item(t)
            &&& t.queue[0] == StreamItem::Buffer(arriving(s, b, clock))
            &&& is_prelude(es, t.prelude, ids) ==> es == seq![Event::Segment]
            &&& pull_spec(t).prelude.configured_caps == m.prelude.configured_caps
        }),
{
    let s = flush_stop_spec(m);
    let t = push_buffer_spec(s, b, clock);
    if is_prelude(es, t.prelude, ids) {
        assert(es =~= seq![Event::Segment]);
    }
}

/// Stopping, then preparing and starting again, begins a new session: the
/// first item forwarded is preceded by a stream-start event, the configured
/// format if there is one, and a segment event.
pub proof fn lemma_stop_restarts_session(m: AppSrcModel, ids: StartIds, es: Seq<Event>)
    requires
        m.wf(),
        m.prepared,
        valid_max_buffers(m.settings),
    ensures
        ({
            let s = start_spec(prepared_spec(stop_spec(m)));
            let caps = caps_view(m.settings.caps);
            &&& s.state == AppSrcState::Started
            &&& s.running
            &&& s.queue.len() == 0
            &&& s.prelude.configured_caps.is_none()
            &&& is_prelude(es, s.prelude, ids) ==> {
                &&& is_start_event(es[0], ids)
                &&& caps.is_some() ==> es.len() == 3 && is_caps_event(es[1], caps.unwrap())
                    && es[2] == Event::Segment
                &&& caps.is_none() ==> es.len() == 2 && es[1] == Event::Segment
            }
        }),
{
}

} // verus!
