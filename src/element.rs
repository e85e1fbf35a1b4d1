//! The element: its settings, its lifecycle state machine, the producer entry
//! points and the consumer task's decisions.

use vstd::prelude::*;

use crate::channel::{
    channel_bound, channel_items, channel_try_recv, channel_try_send, open_channel, ItemChannel,
};
use crate::items::{stamped_spec, Buffer, ClockReading, Event, StartIds, StreamItem};
use crate::prelude::{
    after_prelude, caps_view, clone_caps, fresh_prelude, is_prelude, AppSrcPadHandler, PreludeView,
};

verus! {

/// The queue bound used when none is configured.
pub const DEFAULT_MAX_BUFFERS: u32 = 10;

/// The element's configuration; read when the element is prepared.
pub struct Settings {
    /// Name of the shared scheduling context.
    pub context: String,
    /// Minimum spacing, in milliseconds, between consumer activations.
    pub context_wait: u32,
    /// Format announced at the start of each session, if any.
    pub caps: Option<String>,
    /// Bound on queued items; must be positive.
    pub max_buffers: u32,
    /// Whether buffers are stamped with their arrival time.
    pub do_timestamp: bool,
}

impl Default for Settings {
    fn default() -> (r: Self)
        ensures
            r.context@ == Seq::<char>::empty(),
            r.context_wait == 0,
            r.caps.is_none(),
            r.max_buffers == DEFAULT_MAX_BUFFERS,
            !r.do_timestamp,
    {
        Settings {
            context: String::new(),
            context_wait: 0,
            caps: None,
            max_buffers: DEFAULT_MAX_BUFFERS,
            do_timestamp: false,
        }
    }
}

/// The externally visible state of the element.
#[derive(Clone, Copy, Debug, PartialEq, Eq, Structural)]
pub enum AppSrcState {
    Paused,
    RejectBuffers,
    Started,
}

/// What the scheduling context must do with the consumer task.
#[derive(Clone, Copy, Debug, PartialEq, Eq, Structural)]
pub enum TaskAction {
    /// Leave the task as it is.
    Keep,
    /// Schedule the task.
    Start,
    /// Suspend the task's scheduling.
    Pause,
    /// Cancel the task at once, whatever it is doing.
    Cancel,
    /// Stop the task.
    Stop,
    /// Stop the task, then schedule it afresh.
    Restart,
}

/// Why preparing failed.
#[derive(Clone, Copy, Debug, PartialEq, Eq, Structural)]
pub enum PrepareError {
    /// The configured bound is zero, or too large for a channel.
    InvalidMaxBuffers,
}

/// Why downstream refused an item.
#[derive(Clone, Copy, Debug, PartialEq, Eq, Structural)]
pub enum FlowError {
    NotLinked,
    Flushing,
    Eos,
    NotNegotiated,
    Error,
    NotSupported,
    Custom,
}

/// One activation of the consumer task.
#[derive(Debug, PartialEq, Eq)]
pub enum Activation {
    /// The task is not scheduled: nothing was done.
    Idle,
    /// Nothing is queued: wait for the next item.
    Pending,
    /// The channel is gone: the task ends.
    Closed,
    /// Forward these events, then the item.
    Forward { prelude: Vec<Event>, item: StreamItem },
}

/// What the consumer task does after forwarding an item.
#[derive(Clone, Copy, Debug, PartialEq, Eq, Structural)]
pub enum LoopDecision {
    /// Take the next item.
    Continue,
    /// Downstream reached its end: forward an end-of-stream event, then stop.
    PushEosAndStop,
    /// Downstream is flushing: stop quietly.
    Stop,
    /// Downstream failed: report a stream error, then stop.
    Fail(FlowError),
}

/// An event that reaches the source pad from downstream.
#[derive(Clone, Copy, Debug, PartialEq, Eq, Structural)]
pub enum UpstreamEvent {
    FlushStart,
    FlushStop,
    Reconfigure,
    Latency,
    Other,
}

/// A query that reaches the source pad.
#[derive(Clone, Copy, Debug, PartialEq, Eq, Structural)]
pub enum QueryKind {
    Latency,
    Scheduling,
    Caps,
    Other,
}

/// The answer to a query.
#[derive(Debug, PartialEq, Eq)]
pub enum QueryAnswer {
    /// Live, no minimum latency, no maximum.
    Latency { live: bool, min: u64, max: Option<u64> },
    /// Sequential access in push mode: minimum size, maximum size (-1: none), alignment.
    Scheduling { sequential: bool, push_mode: bool, min_size: u32, max_size: i32, align: u32 },
    /// The negotiated format, to be narrowed by the query's filter; any
    /// format when nothing has been negotiated.
    Caps { negotiated: Option<String> },
    /// The query is not answered here.
    NotHandled,
}

/// A step of the element's life, as the pipeline drives it.
#[derive(Clone, Copy, Debug, PartialEq, Eq, Structural)]
pub enum StateChange {
    NullToReady,
    ReadyToPaused,
    PausedToPlaying,
    PlayingToPaused,
    PausedToReady,
    ReadyToNull,
    Other,
}

/// What the element did for its part of a state change.
#[derive(Clone, Copy, Debug, PartialEq, Eq, Structural)]
pub struct StateChangeOutcome {
    pub action: TaskAction,
    /// Whether the change completes without prerolling, as a live source does.
    pub no_preroll: bool,
}

/// The element as plain values.
pub struct AppSrcModel {
    pub settings: Settings,
    pub state: AppSrcState,
    /// Whether the channel exists.
    pub prepared: bool,
    /// What the channel holds, oldest first.
    pub queue: Seq<StreamItem>,
    /// How many items the channel holds at most.
    pub capacity: nat,
    pub prelude: PreludeView,
    /// Whether the consumer task is scheduled.
    pub running: bool,
}

impl AppSrcModel {
    /// The element's invariant.
    pub open spec fn wf(self) -> bool {
        &&& self.state != AppSrcState::RejectBuffers ==> self.prepared
        &&& self.running ==> self.prepared
        &&& self.prepared ==> self.capacity >= 1
        &&& self.queue.len() <= self.capacity
    }
}

/// Whether the producer may enqueue anything.
pub open spec fn accepts_items(m: AppSrcModel) -> bool {
    m.state != AppSrcState::RejectBuffers && m.prepared && m.queue.len() < m.capacity
}

/// Whether a buffer submitted with the given clock reading is queued.
pub open spec fn push_buffer_ok(m: AppSrcModel, clock: Option<ClockReading>) -> bool {
    accepts_items(m) && (m.settings.do_timestamp ==> clock.is_some())
}

/// The buffer as it is queued: stamped with its arrival time where configured.
pub open spec fn arriving(m: AppSrcModel, b: Buffer, clock: Option<ClockReading>) -> Buffer {
    if m.settings.do_timestamp {
        stamped_spec(b, clock.unwrap())
    } else {
        b
    }
}

/// The element with `item` queued.
pub open spec fn enqueued(m: AppSrcModel, item: StreamItem) -> AppSrcModel {
    AppSrcModel { queue: m.queue.push(item), ..m }
}

/// The element after a buffer is submitted.
pub open spec fn push_buffer_spec(
    m: AppSrcModel,
    b: Buffer,
    clock: Option<ClockReading>,
) -> AppSrcModel {
    if push_buffer_ok(m, clock) {
        enqueued(m, StreamItem::Buffer(arriving(m, b, clock)))
    } else {
        m
    }
}

/// The element after an end of stream is submitted.
pub open spec fn end_of_stream_spec(m: AppSrcModel) -> AppSrcModel {
    if accepts_items(m) {
        enqueued(m, StreamItem::Event(Event::Eos))
    } else {
        m
    }
}

/// Whether the bound configured in `s` can be used for a channel.
pub open spec fn valid_max_buffers(s: Settings) -> bool {
    1 <= s.max_buffers && s.max_buffers - 1 < usize::MAX / 4
}

/// The element once prepared: an empty channel with the configured bound, and
/// the configured format armed for the prelude.
pub open spec fn prepared_spec(m: AppSrcModel) -> AppSrcModel {
    AppSrcModel {
        prepared: true,
        queue: Seq::empty(),
        capacity: m.settings.max_buffers as nat,
        prelude: PreludeView { caps: caps_view(m.settings.caps), ..m.prelude },
        ..m
    }
}

/// The element once the channel is dropped.
pub open spec fn unprepared_spec(m: AppSrcModel) -> AppSrcModel {
    AppSrcModel { prepared: false, queue: Seq::empty(), capacity: 0, running: false, ..m }
}

/// The element once started.
pub open spec fn start_spec(m: AppSrcModel) -> AppSrcModel {
    if m.state == AppSrcState::Started {
        m
    } else {
        AppSrcModel { state: AppSrcState::Started, running: true, ..m }
    }
}

/// The element once paused: the queue is kept.
pub open spec fn pause_spec(m: AppSrcModel) -> AppSrcModel {
    AppSrcModel { state: AppSrcState::Paused, running: false, ..m }
}

/// The element once a flush has begun.
pub open spec fn flush_start_spec(m: AppSrcModel) -> AppSrcModel {
    AppSrcModel { state: AppSrcState::RejectBuffers, running: false, ..m }
}

/// The element once a flush has ended: the queue is purged, a fresh segment is
/// owed and the task runs again.
pub open spec fn flush_stop_spec(m: AppSrcModel) -> AppSrcModel {
    if m.state == AppSrcState::Started {
        m
    } else {
        AppSrcModel {
            state: AppSrcState::Started,
            queue: Seq::empty(),
            prelude: PreludeView { need_segment: true, ..m.prelude },
            running: true,
            ..m
        }
    }
}

/// The element once stopped: the queue is purged and the whole prelude is owed again.
pub open spec fn stop_spec(m: AppSrcModel) -> AppSrcModel {
    AppSrcModel {
        state: AppSrcState::RejectBuffers,
        queue: Seq::empty(),
        prelude: fresh_prelude(),
        running: false,
        ..m
    }
}

/// Whether an activation forwards an item.
pub open spec fn pulls_item(m: AppSrcModel) -> bool {
    m.running && m.prepared && m.queue.len() > 0
}

/// The element after one activation of the consumer task.
pub open spec fn pull_spec(m: AppSrcModel) -> AppSrcModel {
    if pulls_item(m) {
        AppSrcModel { queue: m.queue.drop_first(), prelude: after_prelude(m.prelude), ..m }
    } else if m.running && !m.prepared {
        AppSrcModel { running: false, ..m }
    } else {
        m
    }
}

/// What the consumer task does with downstream's answer.
pub open spec fn decision_spec(res: Result<(), FlowError>) -> LoopDecision {
    match res {
        Ok(()) => LoopDecision::Continue,
        Err(FlowError::Eos) => LoopDecision::PushEosAndStop,
        Err(FlowError::Flushing) => LoopDecision::Stop,
        Err(e) => LoopDecision::Fail(e),
    }
}

/// The element after the consumer task has handled downstream's answer.
pub open spec fn flow_spec(m: AppSrcModel, res: Result<(), FlowError>) -> AppSrcModel {
    AppSrcModel { running: m.running && res is Ok, ..m }
}

/// The thread-sharing application source.
pub struct AppSrc {
    settings: Settings,
    state: AppSrcState,
    channel: Option<ItemChannel>,
    handler: AppSrcPadHandler,
    task_running: bool,
}

impl View for AppSrc {
    type V = AppSrcModel;

    closed spec fn view(&self) -> AppSrcModel {
        AppSrcModel {
            settings: self.settings,
            state: self.state,
            prepared: self.channel.is_some(),
            queue: match self.channel {
                Some(c) => channel_items(c),
                None => Seq::empty(),
            },
            capacity: match self.channel {
                Some(c) => channel_bound(c),
                None => 0,
            },
            prelude: self.handler@,
            running: self.task_running,
        }
    }
}

/// Takes every queued item out of the channel.
fn purge(c: &mut ItemChannel)
    ensures
        channel_items(*final(c)) == Seq::<StreamItem>::empty(),
        channel_bound(*final(c)) == channel_bound(*old(c)),
{
    loop
        invariant
            channel_bound(*c) == channel_bound(*old(c)),
        ensures
            channel_items(*c).len() == 0,
        decreases channel_items(*c).len(),
    {
        let item = channel_try_recv(c);
        if item.is_none() {
            break;
        }
    }
    assert(channel_items(*c) =~= Seq::<StreamItem>::empty());
}

impl AppSrc {
    /// A new element: unprepared, rejecting items, with the default settings.
    pub fn new() -> (r: AppSrc)
        ensures
            r@.wf(),
            r@.state == AppSrcState::RejectBuffers,
            !r@.prepared,
            !r@.running,
            r@.prelude == fresh_prelude(),
            r@.settings.context@ == Seq::<char>::empty(),
            r@.settings.context_wait == 0,
            r@.settings.caps.is_none(),
            r@.settings.max_buffers == DEFAULT_MAX_BUFFERS,
            !r@.settings.do_timestamp,
    {
        AppSrc {
            settings: Settings::default(),
            state: AppSrcState::RejectBuffers,
            channel: None,
            handler: AppSrcPadHandler::new(),
            task_running: false,
        }
    }

    /// Submits a buffer. It is refused while items are rejected, when it must be
    /// stamped and no clock reading is given, and when the channel is full;
    /// otherwise it is queued, stamped with its arrival time where configured.
    pub fn push_buffer(&mut self, buffer: Buffer, clock: Option<ClockReading>) -> (r: bool)
        requires
            old(self)@.wf(),
        ensures
            final(self)@.wf(),
            r == push_buffer_ok(old(self)@, clock),
            final(self)@ == push_buffer_spec(old(self)@, buffer, clock),
    {
        if self.state == AppSrcState::RejectBuffers {
            return false;
        }
        let buffer = if self.settings.do_timestamp {
            match clock {
                Some(c) => buffer.stamp(c),
                None => return false,
            }
        } else {
            buffer
        };
        match &mut self.channel {
            Some(c) => channel_try_send(c, StreamItem::Buffer(buffer)),
            None => false,
        }
    }

    /// Submits an end of stream, refused as a buffer would be.
    pub fn end_of_stream(&mut self) -> (r: bool)
        requires
            old(self)@.wf(),
        ensures
            final(self)@.wf(),
            r == accepts_items(old(self)@),
            final(self)@ == end_of_stream_spec(old(self)@),
    {
        if self.state == AppSrcState::RejectBuffers {
            return false;
        }
        match &mut self.channel {
            Some(c) => channel_try_send(c, StreamItem::Event(Event::Eos)),
            None => false,
        }
    }

    /// Opens the channel with the configured bound and arms the prelude with
    /// the configured format. Fails, changing nothing, on an unusable bound.
    pub fn prepare(&mut self) -> (r: Result<(), PrepareError>)
        requires
            old(self)@.wf(),
        ensures
            final(self)@.wf(),
            r is Ok <==> valid_max_buffers(old(self)@.settings),
            r is Ok ==> final(self)@ == prepared_spec(old(self)@),
            r is Err ==> r == Err::<(), PrepareError>(PrepareError::InvalidMaxBuffers),
            r is Err ==> final(self)@ == old(self)@,
    {
        let max_buffers: u32 = self.settings.max_buffers;
        if max_buffers == 0 || (max_buffers - 1) as usize >= usize::MAX / 4 {
            return Err(PrepareError::InvalidMaxBuffers);
        }
        self.channel = Some(open_channel((max_buffers - 1) as usize));
        let caps = clone_caps(&self.settings.caps);
        self.handler.prepare(caps);
        Ok(())
    }

    /// Drops the channel. Only after the element has been stopped.
    pub fn unprepare(&mut self)
        requires
            old(self)@.wf(),
            old(self)@.state == AppSrcState::RejectBuffers,
        ensures
            final(self)@.wf(),
            final(self)@ == unprepared_spec(old(self)@),
    {
        self.channel = None;
        self.task_running = false;
    }

    /// Purges the channel and owes a fresh segment; the task is stopped.
    fn flush(&mut self)
        requires
            old(self)@.wf(),
            old(self)@.prepared,
        ensures
            final(self)@ == (AppSrcModel {
                queue: Seq::empty(),
                prelude: PreludeView { need_segment: true, ..old(self)@.prelude },
                running: false,
                ..old(self)@
            }),
    {
        match &mut self.channel {
            Some(c) => purge(c),
            None => {},
        }
        self.handler.set_need_segment();
        self.task_running = false;
    }

    /// Schedules the consumer task, unless already started.
    pub fn start(&mut self) -> (r: TaskAction)
        requires
            old(self)@.wf(),
            old(self)@.prepared,
        ensures
            final(self)@.wf(),
            final(self)@ == start_spec(old(self)@),
            r == (if old(self)@.state == AppSrcState::Started {
                TaskAction::Keep
            } else {
                TaskAction::Start
            }),
    {
        if self.state == AppSrcState::Started {
            return TaskAction::Keep;
        }
        self.task_running = true;
        self.state = AppSrcState::Started;
        TaskAction::Start
    }

    /// Suspends the consumer task; queued items stay queued.
    pub fn pause(&mut self) -> (r: TaskAction)
        requires
            old(self)@.wf(),
            old(self)@.prepared,
        ensures
            final(self)@.wf(),
            final(self)@ == pause_spec(old(self)@),
            r == TaskAction::Pause,
    {
        self.task_running = false;
        self.state = AppSrcState::Paused;
        TaskAction::Pause
    }

    /// Cancels the consumer task and rejects items until the flush ends.
    pub fn flush_start(&mut self) -> (r: TaskAction)
        requires
            old(self)@.wf(),
        ensures
            final(self)@.wf(),
            final(self)@ == flush_start_spec(old(self)@),
            r == TaskAction::Cancel,
    {
        self.task_running = false;
        self.state = AppSrcState::RejectBuffers;
        TaskAction::Cancel
    }

    /// Ends a flush: purges the channel, owes a fresh segment and schedules the
    /// task afresh, unless already started.
    pub fn flush_stop(&mut self) -> (r: TaskAction)
        requires
            old(self)@.wf(),
            old(self)@.prepared,
        ensures
            final(self)@.wf(),
            final(self)@ == flush_stop_spec(old(self)@),
            r == (if old(self)@.state == AppSrcState::Started {
                TaskAction::Keep
            } else {
                TaskAction::Restart
            }),
    {
        if self.state == AppSrcState::Started {
            return TaskAction::Keep;
        }
        self.flush();
        self.task_running = true;
        self.state = AppSrcState::Started;
        TaskAction::Restart
    }

    /// Stops the task, purges the channel, owes the whole prelude again and
    /// rejects items.
    pub fn stop(&mut self) -> (r: TaskAction)
        requires
            old(self)@.wf(),
            old(self)@.prepared,
        ensures
            final(self)@.wf(),
            final(self)@ == stop_spec(old(self)@),
            r == TaskAction::Stop,
    {
        self.flush();
        self.handler.reset();
        self.state = AppSrcState::RejectBuffers;
        TaskAction::Stop
    }

    /// One activation of the consumer task: takes the oldest queued item and
    /// the prelude events still owed before it.
    pub fn pull_item(&mut self, ids: StartIds) -> (r: Activation)
        requires
            old(self)@.wf(),
        ensures
            final(self)@.wf(),
            final(self)@ == pull_spec(old(self)@),
            pulls_item(old(self)@) <==> r is Forward,
            r matches Activation::Forward { prelude, item } ==> is_prelude(
                prelude@,
                old(self)@.prelude,
                ids,
            ) && item == old(self)@.queue[0],
            !old(self)@.running ==> r is Idle,
            old(self)@.running && old(self)@.prepared && old(self)@.queue.len() == 0 ==> r is Pending,
    {
        if !self.task_running {
            return Activation::Idle;
        }
        let item = match &mut self.channel {
            Some(c) => channel_try_recv(c),
            None => {
                self.task_running = false;
                return Activation::Closed;
            },
        };
        match item {
            Some(item) => {
                let prelude = self.handler.push_prelude(ids);
                Activation::Forward { prelude, item }
            },
            None => Activation::Pending,
        }
    }

    /// Handles downstream's answer to a forwarded item: the task goes on only
    /// on success.
    pub fn handle_flow_result(&mut self, res: Result<(), FlowError>) -> (r: LoopDecision)
        requires
            old(self)@.wf(),
        ensures
            final(self)@.wf(),
            final(self)@ == flow_spec(old(self)@, res),
            r == decision_spec(res),
    {
        let r = match res {
            Ok(()) => LoopDecision::Continue,
            Err(FlowError::Eos) => LoopDecision::PushEosAndStop,
            Err(FlowError::Flushing) => LoopDecision::Stop,
            Err(e) => LoopDecision::Fail(e),
        };
        if res.is_err() {
            self.task_running = false;
        }
        r
    }

    /// Handles an event from downstream: flush events start and end a flush;
    /// reconfiguration and latency events are accepted as they are; others are
    /// not handled.
    pub fn src_event(&mut self, ev: UpstreamEvent) -> (r: (bool, TaskAction))
        requires
            old(self)@.wf(),
            ev == UpstreamEvent::FlushStop ==> old(self)@.prepared,
        ensures
            final(self)@.wf(),
            r.0 == (ev != UpstreamEvent::Other),
            ev == UpstreamEvent::FlushStart ==> final(self)@ == flush_start_spec(old(self)@)
                && r.1 == TaskAction::Cancel,
            ev == UpstreamEvent::FlushStop ==> final(self)@ == flush_stop_spec(old(self)@) && r.1
                == (if old(self)@.state == AppSrcState::Started {
                TaskAction::Keep
            } else {
                TaskAction::Restart
            }),
            ev != UpstreamEvent::FlushStart && ev != UpstreamEvent::FlushStop ==> final(self)@ == old(
                self,
            )@ && r.1 == TaskAction::Keep,
    {
        match ev {
            UpstreamEvent::FlushStart => (true, self.flush_start()),
            UpstreamEvent::FlushStop => (true, self.flush_stop()),
            UpstreamEvent::Reconfigure => (true, TaskAction::Keep),
            UpstreamEvent::Latency => (true, TaskAction::Keep),
            UpstreamEvent::Other => (false, TaskAction::Keep),
        }
    }

    /// Answers a query: live with no latency bound; sequential push-mode
    /// scheduling; the negotiated format.
    pub fn src_query(&self, q: QueryKind) -> (r: QueryAnswer)
        ensures
            q == QueryKind::Latency ==> r == (QueryAnswer::Latency { live: true, min: 0, max: None }),
            q == QueryKind::Scheduling ==> r == (QueryAnswer::Scheduling {
                sequential: true,
                push_mode: true,
                min_size: 1,
                max_size: -1i32,
                align: 0,
            }),
            q == QueryKind::Caps ==> (r matches QueryAnswer::Caps { negotiated } && caps_view(
                negotiated,
            ) == self@.prelude.configured_caps),
            q == QueryKind::Other ==> r is NotHandled,
    {
        match q {
            QueryKind::Latency => QueryAnswer::Latency { live: true, min: 0, max: None },
            QueryKind::Scheduling => QueryAnswer::Scheduling {
                sequential: true,
                push_mode: true,
                min_size: 1,
                max_size: -1i32,
                align: 0,
            },
            QueryKind::Caps => QueryAnswer::Caps { negotiated: self.handler.negotiated_caps() },
            QueryKind::Other => QueryAnswer::NotHandled,
        }
    }

    /// The element's part of a state change that comes before the rest of the
    /// pipeline's: preparing, pausing or unpreparing.
    pub fn change_state_before(&mut self, t: StateChange) -> (r: Result<TaskAction, PrepareError>)
        requires
            old(self)@.wf(),
            t == StateChange::PlayingToPaused ==> old(self)@.prepared,
            t == StateChange::ReadyToNull ==> old(self)@.state == AppSrcState::RejectBuffers,
        ensures
            final(self)@.wf(),
            t == StateChange::NullToReady ==> (r is Ok <==> valid_max_buffers(old(self)@.settings))
                && (r is Ok ==> final(self)@ == prepared_spec(old(self)@) && r == Ok::<
                TaskAction,
                PrepareError,
            >(TaskAction::Keep)) && (r is Err ==> final(self)@ == old(self)@),
            t == StateChange::PlayingToPaused ==> final(self)@ == pause_spec(old(self)@) && r
                == Ok::<TaskAction, PrepareError>(TaskAction::Pause),
            t == StateChange::ReadyToNull ==> final(self)@ == unprepared_spec(old(self)@) && r
                == Ok::<TaskAction, PrepareError>(TaskAction::Stop),
            t != StateChange::NullToReady && t != StateChange::PlayingToPaused && t
                != StateChange::ReadyToNull ==> final(self)@ == old(self)@ && r == Ok::<
                TaskAction,
                PrepareError,
            >(TaskAction::Keep),
    {
        match t {
            StateChange::NullToReady => match self.prepare() {
                Ok(()) => Ok(TaskAction::Keep),
                Err(e) => Err(e),
            },
            StateChange::PlayingToPaused => Ok(self.pause()),
            StateChange::ReadyToNull => {
                self.unprepare();
                Ok(TaskAction::Stop)
            },
            _ => Ok(TaskAction::Keep),
        }
    }

    /// The element's part of a state change that comes after the rest of the
    /// pipeline's: starting or stopping; pausing completes without preroll.
    pub fn change_state_after(&mut self, t: StateChange) -> (r: StateChangeOutcome)
        requires
            old(self)@.wf(),
            t == StateChange::PausedToPlaying ==> old(self)@.prepared,
            t == StateChange::PausedToReady ==> old(self)@.prepared,
        ensures
            final(self)@.wf(),
            r.no_preroll == (t == StateChange::ReadyToPaused || t == StateChange::PlayingToPaused),
            t == StateChange::PausedToPlaying ==> final(self)@ == start_spec(old(self)@) && r.action
                == (if old(self)@.state == AppSrcState::Started {
                TaskAction::Keep
            } else {
                TaskAction::Start
            }),
            t == StateChange::PausedToReady ==> final(self)@ == stop_spec(old(self)@) && r.action
                == TaskAction::Stop,
            t != StateChange::PausedToPlaying && t != StateChange::PausedToReady ==> final(self)@
                == old(self)@ && r.action == TaskAction::Keep,
    {
        match t {
            StateChange::ReadyToPaused => StateChangeOutcome { action: TaskAction::Keep, no_preroll: true },
            StateChange::PausedToPlaying => StateChangeOutcome { action: self.start(), no_preroll: false },
            StateChange::PlayingToPaused => StateChangeOutcome { action: TaskAction::Keep, no_preroll: true },
            StateChange::PausedToReady => StateChangeOutcome { action: self.stop(), no_preroll: false },
            _ => StateChangeOutcome { action: TaskAction::Keep, no_preroll: false },
        }
    }

    /// The element as it stands: its state.
    pub fn state(&self) -> (r: AppSrcState)
        ensures
            r == self@.state,
    {
        self.state
    }

    /// Whether the channel exists.
    pub fn is_prepared(&self) -> (r: bool)
        ensures
            r == self@.prepared,
    {
        self.channel.is_some()
    }

    /// Whether the consumer task is scheduled.
    pub fn is_task_running(&self) -> (r: bool)
        ensures
            r == self@.running,
    {
        self.task_running
    }

    /// The current settings.
    pub fn settings(&self) -> (r: &Settings)
        ensures
            *r == self@.settings,
    {
        &self.settings
    }

    /// Replaces the settings; they take effect at the next preparation
    /// (whether to stamp buffers takes effect at once).
    pub fn set_settings(&mut self, settings: Settings)
        requires
            old(self)@.wf(),
        ensures
            final(self)@.wf(),
            final(self)@ == (AppSrcModel { settings, ..old(self)@ }),
    {
        self.settings = settings;
    }
}

} // verus!
