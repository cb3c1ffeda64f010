//! The bounded priority queue with its drop policy and loss feedback.
//!
//! A queue is modelled as the sequence of its packets in serving order: the
//! packet at the front is the next one to leave. Higher classes stand before
//! lower ones, and within a class older packets stand before younger ones.
//! When the queue is full, the packet that may be displaced is the oldest
//! packet of the lowest class that is resident, and only an arrival of a
//! strictly higher class displaces it.

use crate::types::{
    Event, EventData, EventID, Log, LogSource, Metrics, Priority, SatelliteMessage, TaskID,
    TelemetryPacket,
};
use vstd::prelude::*;

verus! {

/// The packets stand in serving order.
pub open spec fn in_serving_order(queue: Seq<TelemetryPacket>) -> bool {
    forall|i: int, j: int| 0 <= i < j < queue.len() ==> queue[i].spec_precedes(queue[j])
}

/// Where an arrival takes its place: directly behind the last packet that may
/// be served before it.
pub open spec fn insertion_index(queue: Seq<TelemetryPacket>, item: TelemetryPacket) -> int
    decreases queue.len(),
{
    if queue.len() == 0 {
        0
    } else if queue.last().spec_precedes(item) {
        queue.len() as int
    } else {
        insertion_index(queue.drop_last(), item)
    }
}

/// Where the packet stands that a full queue gives up first: the front of the
/// run of packets that share the class of the last packet.
pub open spec fn eviction_index(queue: Seq<TelemetryPacket>) -> int
    decreases queue.len(),
{
    if queue.len() <= 1 {
        0
    } else if queue[queue.len() - 2].priority == queue.last().priority {
        eviction_index(queue.drop_last())
    } else {
        queue.len() - 1
    }
}

/// `packet` is the lowest-ordered resident of `queue`: it is in the queue,
/// no resident is of a lower class, and no resident of its class is older.
pub open spec fn is_lowest_ordered(queue: Seq<TelemetryPacket>, packet: TelemetryPacket) -> bool {
    &&& queue.contains(packet)
    &&& forall|i: int|
        0 <= i < queue.len() ==> {
            ||| (#[trigger] queue[i]).spec_outranks(packet)
            ||| (queue[i].priority == packet.priority && queue[i].creation_time
                >= packet.creation_time)
        }
}

/// The queue after `item` arrived, and the packet that was lost by it.
///
/// With room left the arrival is inserted and nothing is lost. A full queue
/// gives up its lowest-ordered resident for an arrival of a strictly higher
/// class, and turns any other arrival away.
pub open spec fn spec_push(queue: Seq<TelemetryPacket>, capacity: nat, item: TelemetryPacket) -> (
    Seq<TelemetryPacket>,
    Option<TelemetryPacket>,
) {
    if queue.len() < capacity {
        (queue.insert(insertion_index(queue, item), item), None)
    } else if queue.len() == 0 {
        (queue, Some(item))
    } else {
        let victim = queue[eviction_index(queue)];
        if item.spec_outranks(victim) {
            let rest = queue.remove(eviction_index(queue));
            (rest.insert(insertion_index(rest, item), item), Some(victim))
        } else {
            (queue, Some(item))
        }
    }
}

/// The queue after its front packet left, and that packet.
pub open spec fn spec_pop(queue: Seq<TelemetryPacket>) -> (
    Seq<TelemetryPacket>,
    Option<TelemetryPacket>,
) {
    if queue.len() == 0 {
        (queue, None)
    } else {
        (queue.remove(0), Some(queue[0]))
    }
}

/// The task that lost a packet: the task of the event the packet carried, and
/// the network service for a packet that carried no event.
pub open spec fn lost_task(dropped: TelemetryPacket) -> TaskID {
    match dropped.payload {
        SatelliteMessage::Telemetry { event } => event.task_id,
        _ => TaskID::NetworkService,
    }
}

/// The event that reports the loss of a packet of `task`.
pub open spec fn data_loss_event(task: TaskID, timestamp: u64) -> Event {
    Event { task_id: task, event_id: EventID::DataLoss, data: EventData::NoData, timestamp }
}

/// The log records that the loss of `dropped` calls for: the event that the
/// packet carried, if it carried one, and then the loss itself.
pub open spec fn loss_logs(source: LogSource, dropped: TelemetryPacket, uptime_ms: u64) -> Seq<
    Log,
> {
    let loss = Log { source, event: data_loss_event(lost_task(dropped), uptime_ms) };
    match dropped.payload {
        SatelliteMessage::Telemetry { event } => seq![Log { source, event }, loss],
        _ => seq![loss],
    }
}

/// The critical packet that tells the ground of the loss of `dropped`.
pub open spec fn loss_notice(
    dropped: TelemetryPacket,
    uptime_ms: u64,
    synchronized_ms: u64,
) -> TelemetryPacket {
    TelemetryPacket::spec_telemetry(
        Priority::Critical,
        uptime_ms,
        data_loss_event(lost_task(dropped), synchronized_ms),
    )
}

/// The downlink after `item` was pushed into it with loss feedback: a lost
/// packet is followed by its notice, pushed without feedback of its own.
pub open spec fn spec_push_reported(
    queue: Seq<TelemetryPacket>,
    capacity: nat,
    item: TelemetryPacket,
    uptime_ms: u64,
    synchronized_ms: u64,
) -> Seq<TelemetryPacket> {
    let (pushed, dropped) = spec_push(queue, capacity, item);
    match dropped {
        Some(d) => spec_push(pushed, capacity, loss_notice(d, uptime_ms, synchronized_ms)).0,
        None => pushed,
    }
}

/// The log records that pushing `item` with loss feedback calls for.
pub open spec fn spec_push_logs(
    queue: Seq<TelemetryPacket>,
    capacity: nat,
    source: LogSource,
    item: TelemetryPacket,
    uptime_ms: u64,
) -> Seq<Log> {
    match spec_push(queue, capacity, item).1 {
        Some(d) => loss_logs(source, d, uptime_ms),
        None => Seq::empty(),
    }
}

/// What a task hands over in the course of a cycle.
#[derive(Debug, PartialEq, Eq, Clone, Copy, Structural)]
pub enum Output {
    /// A record that goes straight to the log.
    Record { log: Log },
    /// A packet for the downlink, pushed with loss feedback.
    Telemetry { packet: TelemetryPacket },
}

impl Output {
    /// A packet of class `priority` about one event of `task_id` at the
    /// uptime `uptime_ms`, created at the synchronised time `synchronized_ms`.
    pub open spec fn spec_telemetry(
        priority: Priority,
        synchronized_ms: u64,
        task_id: TaskID,
        event_id: EventID,
        data: EventData,
        uptime_ms: u64,
    ) -> Output {
        Output::Telemetry {
            packet: TelemetryPacket::spec_telemetry(
                priority,
                synchronized_ms,
                Event { task_id, event_id, data, timestamp: uptime_ms },
            ),
        }
    }

    /// A critical packet about one event of `task_id`.
    pub open spec fn spec_critical(
        synchronized_ms: u64,
        task_id: TaskID,
        event_id: EventID,
        data: EventData,
        uptime_ms: u64,
    ) -> Output {
        Self::spec_telemetry(
            Priority::Critical,
            synchronized_ms,
            task_id,
            event_id,
            data,
            uptime_ms,
        )
    }

    /// A packet of class `priority` about one event of `task_id` at the
    /// uptime `uptime_ms`, created at the synchronised time `synchronized_ms`.
    pub fn telemetry(
        priority: Priority,
        synchronized_ms: u64,
        task_id: TaskID,
        event_id: EventID,
        data: EventData,
        uptime_ms: u64,
    ) -> (output: Output)
        ensures
            output == Self::spec_telemetry(
                priority,
                synchronized_ms,
                task_id,
                event_id,
                data,
                uptime_ms,
            ),
    {
        Output::Telemetry {
            packet: TelemetryPacket::telemetry(
                priority,
                synchronized_ms,
                Event { task_id, event_id, data, timestamp: uptime_ms },
            ),
        }
    }

    /// A critical packet about one event of `task_id`.
    pub fn critical(
        synchronized_ms: u64,
        task_id: TaskID,
        event_id: EventID,
        data: EventData,
        uptime_ms: u64,
    ) -> (output: Output)
        ensures
            output == Self::spec_critical(synchronized_ms, task_id, event_id, data, uptime_ms),
    {
        Self::telemetry(Priority::Critical, synchronized_ms, task_id, event_id, data, uptime_ms)
    }
}

/// The downlink after one output was handed over, and the records that go
/// to the log for it.
pub open spec fn spec_emit(
    queue: Seq<TelemetryPacket>,
    capacity: nat,
    source: LogSource,
    output: Output,
    uptime_ms: u64,
    synchronized_ms: u64,
) -> (Seq<TelemetryPacket>, Seq<Log>) {
    match output {
        Output::Record { log } => (queue, seq![log]),
        Output::Telemetry { packet } => (
            spec_push_reported(queue, capacity, packet, uptime_ms, synchronized_ms),
            spec_push_logs(queue, capacity, source, packet, uptime_ms),
        ),
    }
}

/// The downlink after a run of outputs was handed over one by one, and the
/// records that go to the log for them, in that order.
pub open spec fn spec_emit_all(
    queue: Seq<TelemetryPacket>,
    capacity: nat,
    source: LogSource,
    outputs: Seq<Output>,
    uptime_ms: u64,
    synchronized_ms: u64,
) -> (Seq<TelemetryPacket>, Seq<Log>)
    decreases outputs.len(),
{
    if outputs.len() == 0 {
        (queue, Seq::empty())
    } else {
        let (before, logs) = spec_emit_all(
            queue,
            capacity,
            source,
            outputs.drop_last(),
            uptime_ms,
            synchronized_ms,
        );
        let (after, more) = spec_emit(
            before,
            capacity,
            source,
            outputs.last(),
            uptime_ms,
            synchronized_ms,
        );
        (after, logs + more)
    }
}

/// In a queue in serving order, every packet in front of the insertion index
/// may be served before the arrival, and the arrival is served strictly
/// before every packet from the insertion index on.
pub proof fn lemma_insertion_index_splits(queue: Seq<TelemetryPacket>, item: TelemetryPacket)
    requires
        in_serving_order(queue),
    ensures
        0 <= insertion_index(queue, item) <= queue.len(),
        forall|i: int|
            0 <= i < insertion_index(queue, item) ==> (#[trigger] queue[i]).spec_precedes(item),
        forall|i: int|
            insertion_index(queue, item) <= i < queue.len() ==> !(#[trigger] queue[i]).spec_precedes(
                item,
            ),
    decreases queue.len(),
{
    if queue.len() == 0 {
    } else if queue.last().spec_precedes(item) {
        assert forall|i: int| 0 <= i < queue.len() implies (#[trigger] queue[i]).spec_precedes(
            item,
        ) by {
            if i < queue.len() - 1 {
                assert(queue[i].spec_precedes(queue[queue.len() - 1]));
            }
        }
    } else {
        let front = queue.drop_last();
        lemma_insertion_index_splits(front, item);
        assert forall|i: int| 0 <= i < insertion_index(queue, item) implies (
        #[trigger] queue[i]).spec_precedes(item) by {
            assert(front[i] == queue[i]);
        }
        assert forall|i: int| insertion_index(queue, item) <= i < queue.len() implies !(
        #[trigger] queue[i]).spec_precedes(item) by {
            if i < queue.len() - 1 {
                assert(front[i] == queue[i]);
            }
        }
    }
}

/// Inserting an arrival at its insertion index keeps a queue in serving order.
pub proof fn lemma_insert_keeps_order(queue: Seq<TelemetryPacket>, item: TelemetryPacket)
    requires
        in_serving_order(queue),
    ensures
        in_serving_order(queue.insert(insertion_index(queue, item), item)),
        queue.insert(insertion_index(queue, item), item).len() == queue.len() + 1,
{
    let at = insertion_index(queue, item);
    lemma_insertion_index_splits(queue, item);
    queue.insert_ensures(at, item);
}

/// Taking a packet out keeps a queue in serving order.
pub proof fn lemma_remove_keeps_order(queue: Seq<TelemetryPacket>, at: int)
    requires
        in_serving_order(queue),
        0 <= at < queue.len(),
    ensures
        in_serving_order(queue.remove(at)),
        queue.remove(at).len() == queue.len() - 1,
{
    queue.remove_ensures(at);
}

/// In a queue in serving order that holds a packet, the packet at the
/// eviction index is the lowest-ordered resident, and it is the first packet
/// of its class.
pub proof fn lemma_eviction_index_is_lowest(queue: Seq<TelemetryPacket>)
    requires
        in_serving_order(queue),
        queue.len() > 0,
    ensures
        0 <= eviction_index(queue) < queue.len(),
        is_lowest_ordered(queue, queue[eviction_index(queue)]),
        queue[eviction_index(queue)].priority == queue.last().priority,
        forall|i: int|
            0 <= i < eviction_index(queue) ==> (#[trigger] queue[i]).spec_outranks(
                queue[eviction_index(queue)],
            ),
    decreases queue.len(),
{
    let last = queue.len() - 1;
    if queue.len() == 1 {
    } else if queue[last - 1].priority == queue.last().priority {
        let front = queue.drop_last();
        lemma_eviction_index_is_lowest(front);
        let at = eviction_index(front);
        assert forall|i: int| 0 <= i < queue.len() implies {
            ||| (#[trigger] queue[i]).spec_outranks(queue[at])
            ||| (queue[i].priority == queue[at].priority && queue[i].creation_time
                >= queue[at].creation_time)
        } by {
            if i < last {
                assert(front[i] == queue[i]);
            } else {
                assert(queue[at].spec_precedes(queue[last]) || at == last);
            }
        }
        assert forall|i: int| 0 <= i < at implies (#[trigger] queue[i]).spec_outranks(
            queue[at],
        ) by {
            assert(front[i] == queue[i]);
        }
    } else {
        assert forall|i: int| 0 <= i < last implies (#[trigger] queue[i]).spec_outranks(
            queue[last],
        ) by {
            if i < last - 1 {
                assert(queue[i].spec_precedes(queue[last - 1]));
            }
            assert(queue[last - 1].spec_precedes(queue[last]));
        }
    }
}

/// A push keeps a queue within its capacity and in serving order.
pub proof fn lemma_push_keeps_queue(
    queue: Seq<TelemetryPacket>,
    capacity: nat,
    item: TelemetryPacket,
)
    requires
        in_serving_order(queue),
        queue.len() <= capacity,
    ensures
        in_serving_order(spec_push(queue, capacity, item).0),
        spec_push(queue, capacity, item).0.len() <= capacity,
        spec_push(queue, capacity, item).0.len() >= queue.len(),
{
    if queue.len() < capacity {
        lemma_insert_keeps_order(queue, item);
    } else if queue.len() == 0 {
    } else {
        lemma_eviction_index_is_lowest(queue);
        let at = eviction_index(queue);
        lemma_remove_keeps_order(queue, at);
        lemma_insert_keeps_order(queue.remove(at), item);
    }
}

/// A packet that a push hands back is the arrival itself, turned away, or it
/// was the lowest-ordered resident before the push.
pub proof fn lemma_push_drops_arrival_or_lowest(
    queue: Seq<TelemetryPacket>,
    capacity: nat,
    item: TelemetryPacket,
)
    requires
        in_serving_order(queue),
        queue.len() <= capacity,
    ensures
        spec_push(queue, capacity, item).1 matches Some(dropped) ==> {
            ||| (dropped == item && spec_push(queue, capacity, item).0 == queue)
            ||| (is_lowest_ordered(queue, dropped) && item.spec_outranks(dropped))
        },
        spec_push(queue, capacity, item).1 is Some <==> queue.len() == capacity,
{
    if queue.len() >= capacity && queue.len() > 0 {
        lemma_eviction_index_is_lowest(queue);
    }
}

/// A packet of the lowest class never displaces a resident: after its push
/// every packet of the queue stands where it stood or one place further
/// back, and a full queue is left as it was.
pub proof fn lemma_low_priority_never_displaces(
    queue: Seq<TelemetryPacket>,
    capacity: nat,
    item: TelemetryPacket,
)
    requires
        in_serving_order(queue),
        queue.len() <= capacity,
        item.priority == Priority::Low,
    ensures
        queue.len() == capacity ==> spec_push(queue, capacity, item) == (queue, Some(item)),
        queue.len() < capacity ==> spec_push(queue, capacity, item).1 is None,
        forall|i: int|
            0 <= i < queue.len() ==> spec_push(queue, capacity, item).0.contains(
                #[trigger] queue[i],
            ),
{
    if queue.len() < capacity {
        lemma_insertion_index_splits(queue, item);
        let at = insertion_index(queue, item);
        queue.insert_ensures(at, item);
        let after = queue.insert(at, item);
        assert forall|i: int| 0 <= i < queue.len() implies after.contains(
            #[trigger] queue[i],
        ) by {
            if i < at {
                assert(after[i] == queue[i]);
            } else {
                assert(after[i + 1] == queue[i]);
            }
        }
    }
}

/// The packet at the front of a queue in serving order is behind no other:
/// no packet behind it is of a higher class, nor older within its class.
pub proof fn lemma_front_is_served_first(queue: Seq<TelemetryPacket>)
    requires
        in_serving_order(queue),
        queue.len() > 0,
    ensures
        forall|i: int|
            0 <= i < queue.remove(0).len() ==> {
                let left = #[trigger] queue.remove(0)[i];
                &&& !left.spec_outranks(queue[0])
                &&& !(left.priority == queue[0].priority && left.creation_time
                    < queue[0].creation_time)
            },
        in_serving_order(queue.remove(0)),
{
    queue.remove_ensures(0);
    lemma_remove_keeps_order(queue, 0);
    assert forall|i: int| 0 <= i < queue.remove(0).len() implies {
        let left = #[trigger] queue.remove(0)[i];
        &&& !left.spec_outranks(queue[0])
        &&& !(left.priority == queue[0].priority && left.creation_time < queue[0].creation_time)
    } by {
        assert(queue[0].spec_precedes(queue[i + 1]));
    }
}

/// A queue never holds more packets than its capacity: not when it is made,
/// and not after a push or a pop.
pub proof fn lemma_len_within_capacity(buffer: BoundedBuffer, item: TelemetryPacket)
    requires
        buffer.wf(),
    ensures
        buffer@.len() <= buffer.spec_capacity(),
        spec_push(buffer@, buffer.spec_capacity() as nat, item).0.len() <= buffer.spec_capacity(),
        spec_pop(buffer@).0.len() <= buffer.spec_capacity(),
{
    lemma_push_keeps_queue(buffer@, buffer.spec_capacity() as nat, item);
}

/// A push with loss feedback keeps the downlink within its capacity and in
/// serving order, and leaves no fewer packets in it than it found.
pub proof fn lemma_push_reported_keeps_queue(
    queue: Seq<TelemetryPacket>,
    capacity: nat,
    item: TelemetryPacket,
    uptime_ms: u64,
    synchronized_ms: u64,
)
    requires
        in_serving_order(queue),
        queue.len() <= capacity,
    ensures
        in_serving_order(spec_push_reported(queue, capacity, item, uptime_ms, synchronized_ms)),
        spec_push_reported(queue, capacity, item, uptime_ms, synchronized_ms).len() <= capacity,
        spec_push_reported(queue, capacity, item, uptime_ms, synchronized_ms).len() >= queue.len(),
{
    lemma_push_keeps_queue(queue, capacity, item);
    let (pushed, dropped) = spec_push(queue, capacity, item);
    match dropped {
        Some(d) => {
            lemma_push_keeps_queue(pushed, capacity, loss_notice(d, uptime_ms, synchronized_ms));
        },
        None => {},
    }
}

/// Handing over two runs of outputs one after the other is handing over
/// their concatenation.
pub proof fn lemma_emit_all_concat(
    queue: Seq<TelemetryPacket>,
    capacity: nat,
    source: LogSource,
    first: Seq<Output>,
    second: Seq<Output>,
    uptime_ms: u64,
    synchronized_ms: u64,
)
    ensures
        spec_emit_all(queue, capacity, source, first + second, uptime_ms, synchronized_ms) == ({
            let (between, logs) = spec_emit_all(
                queue,
                capacity,
                source,
                first,
                uptime_ms,
                synchronized_ms,
            );
            let (after, more) = spec_emit_all(
                between,
                capacity,
                source,
                second,
                uptime_ms,
                synchronized_ms,
            );
            (after, logs + more)
        }),
    decreases second.len(),
{
    if second.len() == 0 {
        assert(first + second =~= first);
    } else {
        lemma_emit_all_concat(
            queue,
            capacity,
            source,
            first,
            second.drop_last(),
            uptime_ms,
            synchronized_ms,
        );
        assert((first + second).drop_last() =~= first + second.drop_last());
    }
}

/// A queue of packets that holds at most `capacity()` of them and serves the
/// highest class first, and within a class the oldest packet first.
pub struct BoundedBuffer {
    heap: Vec<TelemetryPacket>,
    capacity: usize,
    metrics: Metrics,
}

impl View for BoundedBuffer {
    type V = Seq<TelemetryPacket>;

    /// The resident packets in serving order, the next to leave at the front.
    closed spec fn view(&self) -> Seq<TelemetryPacket> {
        self.heap@
    }
}

impl BoundedBuffer {
    /// The number of packets that the queue can hold.
    pub closed spec fn spec_capacity(&self) -> usize {
        self.capacity
    }

    /// Latency and jitter of the queue, as the network task last measured them.
    pub closed spec fn spec_metrics(&self) -> Metrics {
        self.metrics
    }

    /// The queue holds no more packets than its capacity, in serving order.
    pub open spec fn wf(&self) -> bool {
        &&& self@.len() <= self.spec_capacity()
        &&& in_serving_order(self@)
    }

    /// An empty queue for `capacity` packets, with metrics at zero.
    pub fn new(capacity: usize) -> (buffer: BoundedBuffer)
        ensures
            buffer.wf(),
            buffer@ == Seq::<TelemetryPacket>::empty(),
            buffer.spec_capacity() == capacity,
            buffer.spec_metrics() == (Metrics { last_latency_ms: 0, jitter_ms: 0 }),
    {
        BoundedBuffer {
            heap: Vec::new(),
            capacity,
            metrics: Metrics { last_latency_ms: 0, jitter_ms: 0 },
        }
    }

    /// The number of packets that the queue can hold.
    pub fn capacity(&self) -> (capacity: usize)
        ensures
            capacity == self.spec_capacity(),
    {
        self.capacity
    }

    /// Latency and jitter of the queue, as the network task last measured them.
    pub fn metrics(&self) -> (metrics: Metrics)
        ensures
            metrics == self.spec_metrics(),
    {
        self.metrics
    }

    /// Records the latency and jitter that the network task measured.
    pub fn set_metrics(&mut self, metrics: Metrics)
        ensures
            final(self).spec_metrics() == metrics,
            final(self)@ == old(self)@,
            final(self).spec_capacity() == old(self).spec_capacity(),
    {
        self.metrics = metrics;
    }

    /// The number of resident packets, never more than the capacity.
    pub fn len(&self) -> (len: usize)
        requires
            self.wf(),
        ensures
            len == self@.len(),
            len <= self.spec_capacity(),
    {
        self.heap.len()
    }

    /// Puts `item` into the queue and hands back the packet that was lost by
    /// it, if one was.
    ///
    /// With room left the arrival takes its place in serving order and
    /// nothing is lost. A full queue gives up its lowest-ordered resident for
    /// an arrival of a strictly higher class and hands that resident back;
    /// any other arrival is handed back itself and the queue stays as it was.
    pub fn push(&mut self, item: TelemetryPacket) -> (dropped: Option<TelemetryPacket>)
        requires
            old(self).wf(),
        ensures
            final(self).wf(),
            final(self).spec_capacity() == old(self).spec_capacity(),
            final(self).spec_metrics() == old(self).spec_metrics(),
            (final(self)@, dropped) == spec_push(
                old(self)@,
                old(self).spec_capacity() as nat,
                item,
            ),
            dropped matches Some(d) ==> d == item || is_lowest_ordered(old(self)@, d),
    {
        proof {
            lemma_push_keeps_queue(self@, self.capacity as nat, item);
            lemma_push_drops_arrival_or_lowest(self@, self.capacity as nat, item);
        }
        if self.heap.len() < self.capacity {
            let at = self.insertion_point(&item);
            self.heap.insert(at, item);
            None
        } else if self.heap.len() == 0 {
            Some(item)
        } else {
            let at = self.eviction_point();
            if item.outranks(&self.heap[at]) {
                let victim = self.heap.remove(at);
                let place = self.insertion_point(&item);
                self.heap.insert(place, item);
                Some(victim)
            } else {
                Some(item)
            }
        }
    }

    /// Takes the packet at the front of the queue: of the resident packets
    /// the one of the highest class, and the oldest of that class.
    pub fn pop(&mut self) -> (packet: Option<TelemetryPacket>)
        requires
            old(self).wf(),
        ensures
            final(self).wf(),
            final(self).spec_capacity() == old(self).spec_capacity(),
            final(self).spec_metrics() == old(self).spec_metrics(),
            (final(self)@, packet) == spec_pop(old(self)@),
            packet is Some <==> old(self)@.len() > 0,
            packet matches Some(p) ==> forall|i: int|
                0 <= i < final(self)@.len() ==> {
                    let left = #[trigger] final(self)@[i];
                    &&& !left.spec_outranks(p)
                    &&& !(left.priority == p.priority && left.creation_time < p.creation_time)
                },
    {
        if self.heap.len() == 0 {
            None
        } else {
            proof {
                lemma_front_is_served_first(self@);
            }
            Some(self.heap.remove(0))
        }
    }

    /// Pushes `item` into this queue, which is not the downlink, and reports
    /// a loss: the records for the log come back, and the notice of the loss
    /// goes into `downlink` by a plain push, so that a notice which finds no
    /// room is dropped without a notice of its own.
    pub fn push_and_log(
        &mut self,
        source: LogSource,
        item: TelemetryPacket,
        uptime_ms: u64,
        synchronized_ms: u64,
        downlink: &mut BoundedBuffer,
    ) -> (logs: Vec<Log>)
        requires
            old(self).wf(),
            old(downlink).wf(),
        ensures
            final(self).wf(),
            final(downlink).wf(),
            final(self).spec_capacity() == old(self).spec_capacity(),
            final(downlink).spec_capacity() == old(downlink).spec_capacity(),
            final(self).spec_metrics() == old(self).spec_metrics(),
            final(downlink).spec_metrics() == old(downlink).spec_metrics(),
            final(self)@ == spec_push(old(self)@, old(self).spec_capacity() as nat, item).0,
            logs@ == spec_push_logs(
                old(self)@,
                old(self).spec_capacity() as nat,
                source,
                item,
                uptime_ms,
            ),
            final(downlink)@ == match spec_push(
                old(self)@,
                old(self).spec_capacity() as nat,
                item,
            ).1 {
                Some(d) => spec_push(
                    old(downlink)@,
                    old(downlink).spec_capacity() as nat,
                    loss_notice(d, uptime_ms, synchronized_ms),
                ).0,
                None => old(downlink)@,
            },
    {
        match self.push(item) {
            Some(dropped) => {
                let notice = loss_notice_for(&dropped, uptime_ms, synchronized_ms);
                let _ = downlink.push(notice);
                loss_logs_for(source, &dropped, uptime_ms)
            },
            None => Vec::new(),
        }
    }

    /// Pushes `item` into this queue, which is the downlink itself, and
    /// reports a loss: the records for the log come back, and the notice of
    /// the loss goes into this queue by a plain push, so that a notice which
    /// finds no room is dropped without a notice of its own.
    pub fn push_and_log_downlink(
        &mut self,
        source: LogSource,
        item: TelemetryPacket,
        uptime_ms: u64,
        synchronized_ms: u64,
    ) -> (logs: Vec<Log>)
        requires
            old(self).wf(),
        ensures
            final(self).wf(),
            final(self).spec_capacity() == old(self).spec_capacity(),
            final(self).spec_metrics() == old(self).spec_metrics(),
            final(self)@ == spec_push_reported(
                old(self)@,
                old(self).spec_capacity() as nat,
                item,
                uptime_ms,
                synchronized_ms,
            ),
            logs@ == spec_push_logs(
                old(self)@,
                old(self).spec_capacity() as nat,
                source,
                item,
                uptime_ms,
            ),
    {
        match self.push(item) {
            Some(dropped) => {
                let notice = loss_notice_for(&dropped, uptime_ms, synchronized_ms);
                let _ = self.push(notice);
                loss_logs_for(source, &dropped, uptime_ms)
            },
            None => Vec::new(),
        }
    }

    /// Hands over a run of outputs of one task, in order: a record goes to
    /// the log as it is, a packet is pushed into this queue, the downlink,
    /// with loss feedback. The records for the log come back in the order
    /// in which they arose.
    pub fn emit_all(
        &mut self,
        source: LogSource,
        outputs: &Vec<Output>,
        uptime_ms: u64,
        synchronized_ms: u64,
    ) -> (logs: Vec<Log>)
        requires
            old(self).wf(),
        ensures
            final(self).wf(),
            final(self).spec_capacity() == old(self).spec_capacity(),
            final(self).spec_metrics() == old(self).spec_metrics(),
            final(self)@.len() >= old(self)@.len(),
            (final(self)@, logs@) == spec_emit_all(
                old(self)@,
                old(self).spec_capacity() as nat,
                source,
                outputs@,
                uptime_ms,
                synchronized_ms,
            ),
    {
        let mut logs: Vec<Log> = Vec::new();
        let mut done: usize = 0;
        while done < outputs.len()
            invariant
                done <= outputs@.len(),
                self.wf(),
                self.spec_capacity() == old(self).spec_capacity(),
                self.spec_metrics() == old(self).spec_metrics(),
                self@.len() >= old(self)@.len(),
                (self@, logs@) == spec_emit_all(
                    old(self)@,
                    old(self).spec_capacity() as nat,
                    source,
                    outputs@.take(done as int),
                    uptime_ms,
                    synchronized_ms,
                ),
            decreases outputs@.len() - done,
        {
            proof {
                assert(outputs@.take(done + 1).drop_last() =~= outputs@.take(done as int));
                match outputs@[done as int] {
                    Output::Record { .. } => {},
                    Output::Telemetry { packet } => {
                        lemma_push_reported_keeps_queue(
                            self@,
                            self.spec_capacity() as nat,
                            packet,
                            uptime_ms,
                            synchronized_ms,
                        );
                    },
                }
            }
            match outputs[done] {
                Output::Record { log } => {
                    logs.push(log);
                },
                Output::Telemetry { packet } => {
                    let mut more = self.push_and_log_downlink(
                        source,
                        packet,
                        uptime_ms,
                        synchronized_ms,
                    );
                    logs.append(&mut more);
                },
            }
            done = done + 1;
        }
        assert(outputs@.take(done as int) =~= outputs@);
        logs
    }

    /// Where `item` takes its place in the queue.
    fn insertion_point(&self, item: &TelemetryPacket) -> (at: usize)
        ensures
            at == insertion_index(self@, *item),
            at <= self@.len(),
    {
        let mut at: usize = self.heap.len();
        assert(self.heap@.take(at as int) =~= self.heap@);
        while at > 0 && !self.heap[at - 1].precedes(item)
            invariant
                at <= self.heap@.len(),
                insertion_index(self.heap@, *item) == insertion_index(
                    self.heap@.take(at as int),
                    *item,
                ),
            decreases at,
        {
            assert(self.heap@.take(at as int).drop_last() =~= self.heap@.take(at - 1));
            at = at - 1;
        }
        at
    }

    /// Where the packet stands that the queue gives up first.
    fn eviction_point(&self) -> (at: usize)
        requires
            self@.len() > 0,
        ensures
            at == eviction_index(self@),
            at < self@.len(),
    {
        let last: usize = self.heap.len() - 1;
        let mut at: usize = last;
        assert(self.heap@.take(at + 1) =~= self.heap@);
        while at > 0 && self.heap[at - 1].priority == self.heap[last].priority
            invariant
                at <= last,
                last == self.heap@.len() - 1,
                self.heap@[at as int].priority == self.heap@[last as int].priority,
                eviction_index(self.heap@) == eviction_index(self.heap@.take(at + 1)),
            decreases at,
        {
            assert(self.heap@.take(at + 1).drop_last() =~= self.heap@.take(at as int));
            at = at - 1;
        }
        at
    }
}

/// The critical packet that tells the ground of the loss of `dropped`.
fn loss_notice_for(dropped: &TelemetryPacket, uptime_ms: u64, synchronized_ms: u64) -> (notice:
    TelemetryPacket)
    ensures
        notice == loss_notice(*dropped, uptime_ms, synchronized_ms),
{
    TelemetryPacket::telemetry(
        Priority::Critical,
        uptime_ms,
        Event {
            task_id: task_of_lost(dropped),
            event_id: EventID::DataLoss,
            data: EventData::NoData,
            timestamp: synchronized_ms,
        },
    )
}

/// The task that lost `dropped`.
fn task_of_lost(dropped: &TelemetryPacket) -> (task: TaskID)
    ensures
        task == lost_task(*dropped),
{
    match dropped.payload {
        SatelliteMessage::Telemetry { event } => event.task_id,
        _ => TaskID::NetworkService,
    }
}

/// The log records that the loss of `dropped` calls for.
fn loss_logs_for(source: LogSource, dropped: &TelemetryPacket, uptime_ms: u64) -> (logs: Vec<Log>)
    ensures
        logs@ == loss_logs(source, *dropped, uptime_ms),
{
    let mut logs: Vec<Log> = Vec::new();
    match dropped.payload {
        SatelliteMessage::Telemetry { event } => {
            logs.push(Log { source, event });
        },
        _ => {},
    }
    logs.push(
        Log {
            source,
            event: Event {
                task_id: task_of_lost(dropped),
                event_id: EventID::DataLoss,
                data: EventData::NoData,
                timestamp: uptime_ms,
            },
        },
    );
    logs
}

} // verus!
