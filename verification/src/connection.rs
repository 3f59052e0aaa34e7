use vstd::prelude::*;
use crate::error::SbioError;
use crate::event::{EventView, SbioSerializeData};
use crate::observer::{lemma_remove_present, occurrences, without_first, ISubject, Observer, Subject};
use crate::sbio_sys::{
    can_serialize, sbio_channel_handle, sbio_serialized_data, RawEvent, GRE_IO_FAILED, SBIO_FLAGS,
};
use crate::text::{is_text, read_back, read_text, same_text};

verus! {

/// The observers of the events of one name.
pub type Subscribers = Seq<Observer<SbioSerializeData>>;

/// What a connection is, in contracts.
pub struct ConnectionView {
    /// The flags with which the channel was opened.
    pub flags: u32,
    /// The transport's handle while the connection is open, and nothing
    /// once it is closed.
    pub channel: Option<usize>,
    /// Whether the dispatch loop was asked to end.
    pub stop_requested: bool,
    /// Whether a dispatch loop is active.
    pub receiving: bool,
    /// The registry of each event name that was ever subscribed to.
    pub subjects: Map<Seq<char>, Subscribers>,
}

impl ConnectionView {
    /// A connection as it is made: open, without a dispatch loop, without
    /// subscriptions.
    pub open spec fn opened(flags: u32, channel: usize) -> ConnectionView {
        ConnectionView {
            flags,
            channel: Some(channel),
            stop_requested: false,
            receiving: false,
            subjects: Map::empty(),
        }
    }

    /// Whether the connection is open: it holds its channel exactly then.
    pub open spec fn is_open(self) -> bool {
        self.channel is Some
    }

    /// The observers of `name`: none where the name was never subscribed to.
    pub open spec fn subscribers(self, name: Seq<char>) -> Subscribers {
        if self.subjects.contains_key(name) {
            self.subjects[name]
        } else {
            Seq::empty()
        }
    }

    /// The connection after `close`.
    pub open spec fn closed(self) -> ConnectionView {
        ConnectionView { channel: None, ..self }
    }

    /// The connection after `observer` subscribed to `name`.
    pub open spec fn subscribed(self, name: Seq<char>, observer: Observer<SbioSerializeData>) -> ConnectionView {
        ConnectionView {
            subjects: self.subjects.insert(name, self.subscribers(name).push(observer)),
            ..self
        }
    }

    /// Whether `observer` is subscribed to `name`.
    pub open spec fn is_subscribed(self, name: Seq<char>, observer: Observer<SbioSerializeData>) -> bool {
        self.subscribers(name).contains(observer)
    }

    /// The connection after the first subscription of `observer` to `name`
    /// was taken away.
    pub open spec fn unsubscribed(self, name: Seq<char>, observer: Observer<SbioSerializeData>) -> ConnectionView {
        if self.subjects.contains_key(name) {
            ConnectionView {
                subjects: self.subjects.insert(name, without_first(self.subjects[name], observer)),
                ..self
            }
        } else {
            self
        }
    }

    /// Whether a dispatch loop can be started: the connection is open and
    /// no loop is active.
    pub open spec fn can_start(self) -> bool {
        self.is_open() && !self.receiving
    }

    /// The connection after a dispatch loop was started.
    pub open spec fn started(self) -> ConnectionView {
        ConnectionView { receiving: true, stop_requested: false, ..self }
    }

    /// The connection after its dispatch loop was asked to end.
    pub open spec fn stopping(self) -> ConnectionView {
        ConnectionView { stop_requested: true, ..self }
    }

    /// Whether the dispatch loop ends at its next step: it was asked to, or
    /// the connection is closed.
    pub open spec fn loop_ends(self) -> bool {
        self.stop_requested || !self.is_open()
    }

    /// The connection after the next step of its dispatch loop.
    pub open spec fn stepped(self) -> ConnectionView {
        if self.loop_ends() {
            ConnectionView { receiving: false, ..self }
        } else {
            self
        }
    }

    /// What becomes of an event that was asked of the transport, where
    /// `status` is the transport's answer and `name` the bytes that it
    /// reports as the event's name.
    pub open spec fn routed(self, status: i32, name: Seq<u8>) -> Route {
        if status == GRE_IO_FAILED {
            Route::ReceiveFailed
        } else if !self.is_open() {
            Route::Closed
        } else if !is_text(name) {
            Route::Unreadable
        } else if !self.subjects.contains_key(read_back(name)) {
            Route::Unclaimed
        } else {
            Route::Deliver(self.subjects[read_back(name)])
        }
    }
}

/// Where an event goes.
pub enum Route {
    /// There is no event: the transport failed to receive.
    ReceiveFailed,
    /// The connection was closed while the event was on its way.
    Closed,
    /// The name of the event cannot be read.
    Unreadable,
    /// Nobody ever subscribed to the name of the event.
    Unclaimed,
    /// The event goes to these observers, in this order.
    Deliver(Subscribers),
}

impl Route {
    /// The observers that the event is handed to on this route, in the
    /// order in which they get it.
    pub open spec fn notified(self) -> Subscribers {
        match self {
            Route::Deliver(observers) => observers,
            _ => Seq::empty(),
        }
    }
}

/// What the dispatch loop does next.
#[derive(Clone, Copy, Debug, PartialEq, Eq, Structural)]
pub enum LoopStep {
    /// The loop ends.
    Exit,
    /// The loop asks the transport for the next event on this channel,
    /// without holding the connection meanwhile.
    Receive(usize),
}

/// What became of an event in the dispatch loop.
#[derive(Debug)]
pub enum Dispatched {
    /// There was no event: the transport failed to receive. The failure is
    /// transient, and the loop goes on.
    ReceiveFailed,
    /// The connection was closed while the event was on its way. Nobody was
    /// notified.
    Closed,
    /// The name of the event cannot be read. Nobody was notified.
    Unreadable,
    /// Nobody ever subscribed to the name of the event. Nobody was notified.
    Unclaimed,
    /// The observers of the name were notified, in the order of their
    /// subscription; of each, whether it took the event.
    Delivered(Vec<bool>),
}

impl Dispatched {
    /// Whether this is what `route` asks for.
    pub open spec fn follows(self, route: Route) -> bool {
        match route {
            Route::ReceiveFailed => self is ReceiveFailed,
            Route::Closed => self is Closed,
            Route::Unreadable => self is Unreadable,
            Route::Unclaimed => self is Unclaimed,
            Route::Deliver(observers) => self matches Dispatched::Delivered(taken) && taken@.len()
                == observers.len(),
        }
    }
}

/// The end of one step of dispatch: what became of the event, and the buffer
/// that the transport now has to free, where it gave one.
pub struct Dispatch {
    pub outcome: Dispatched,
    pub release: Option<sbio_serialized_data>,
}

/// What identifies one subscription: the name of the events, and the
/// observer.
pub struct Subscription {
    name: String,
    observer: Observer<SbioSerializeData>,
}

impl Subscription {
    /// The name of the events, and the observer.
    pub closed spec fn view(&self) -> (Seq<char>, Observer<SbioSerializeData>) {
        (self.name@, self.observer)
    }

    /// The name of the events that were subscribed to.
    pub fn name(&self) -> (name: &str)
        ensures
            name@ == self@.0,
    {
        self.name.as_str()
    }
}

struct Topic {
    name: String,
    subject: Subject<SbioSerializeData>,
}

spec fn is_topic(topics: Seq<Topic>, name: Seq<char>, i: int) -> bool {
    &&& 0 <= i < topics.len()
    &&& topics[i].name@ == name
    &&& forall|j: int| 0 <= j < i ==> topics[j].name@ != name
}

spec fn subjects_of(topics: Seq<Topic>) -> Map<Seq<char>, Subscribers> {
    Map::new(
        |name: Seq<char>| exists|i: int| is_topic(topics, name, i),
        |name: Seq<char>| topics[choose|i: int| is_topic(topics, name, i)].subject@,
    )
}

proof fn lemma_subject_at(topics: Seq<Topic>, name: Seq<char>, i: int)
    requires
        is_topic(topics, name, i),
    ensures
        subjects_of(topics).contains_key(name),
        subjects_of(topics)[name] == topics[i].subject@,
{
    let k = choose|k: int| is_topic(topics, name, k);
    assert(k == i);
}

proof fn lemma_no_subject(topics: Seq<Topic>, name: Seq<char>)
    requires
        forall|i: int| 0 <= i < topics.len() ==> topics[i].name@ != name,
    ensures
        !subjects_of(topics).contains_key(name),
{
}

/// One connection to a named channel: its lifecycle, its subscriptions, and
/// the decisions of its dispatch loop.
///
/// The connection never calls the transport. Whoever drives it makes each
/// call and hands the transport's answer over; between threads, it is
/// shared behind one lock, and every method is one critical section.
pub struct SbioConnection {
    flags: SBIO_FLAGS,
    channel_handle: Option<sbio_channel_handle>,
    stop_requested: bool,
    receiving: bool,
    topics: Vec<Topic>,
}

impl SbioConnection {
    /// The connection, as contracts see it.
    pub closed spec fn view(&self) -> ConnectionView {
        ConnectionView {
            flags: self.flags@,
            channel: match self.channel_handle {
                Some(handle) => Some(handle@),
                None => None,
            },
            stop_requested: self.stop_requested,
            receiving: self.receiving,
            subjects: subjects_of(self.topics@),
        }
    }

    /// A connection on the channel `channel_handle`, which was opened with
    /// `flags`.
    pub fn new(flags: SBIO_FLAGS, channel_handle: sbio_channel_handle) -> (connection: SbioConnection)
        ensures
            connection@ == ConnectionView::opened(flags@, channel_handle@),
    {
        let connection = SbioConnection {
            flags,
            channel_handle: Some(channel_handle),
            stop_requested: false,
            receiving: false,
            topics: Vec::new(),
        };
        assert(connection@.subjects =~= Map::empty());
        connection
    }

    fn find_topic(&self, name: &str) -> (found: Option<usize>)
        ensures
            found matches Some(i) ==> is_topic(self.topics@, name@, i as int),
            found is None ==> forall|i: int| 0 <= i < self.topics@.len() ==> self.topics@[i].name@ != name@,
    {
        let mut i: usize = 0;
        while i < self.topics.len()
            invariant
                i <= self.topics.len(),
                forall|j: int| 0 <= j < i ==> self.topics@[j].name@ != name@,
            decreases self.topics.len() - i,
        {
            if same_text(self.topics[i].name.as_str(), name) {
                return Some(i);
            }
            i += 1;
        }
        None
    }

    /// Closes the connection. The result is the channel that the transport
    /// has to close: there is one exactly when the connection was open, so
    /// a second call changes nothing and asks nothing of the transport.
    pub fn close(&mut self) -> (channel: Option<sbio_channel_handle>)
        ensures
            final(self)@ == old(self)@.closed(),
            match old(self)@.channel {
                Some(raw) => channel matches Some(handle) && handle@ == raw,
                None => channel is None,
            },
    {
        self.channel_handle.take()
    }

    /// Sends a serialized event, where `status` is the transport's answer
    /// to the send, or the mark of a failure where it was not asked. On a
    /// closed connection nothing can be sent. Nothing is tried again.
    pub fn send_serialized_event(&self, event: &SbioSerializeData, status: i32) -> (sent: Result<
        i32,
        SbioError,
    >)
        ensures
            sent == if !self@.is_open() {
                Err::<i32, SbioError>(SbioError::ChannelClosed)
            } else if status == GRE_IO_FAILED {
                Err::<i32, SbioError>(SbioError::Send)
            } else {
                Ok::<i32, SbioError>(status)
            },
    {
        if self.channel_handle.is_none() {
            Err(SbioError::ChannelClosed)
        } else {
            crate::sbio_sys::send(status)
        }
    }

    /// Sends an event that is serialized for this send alone, where
    /// `raw_buffer` is the transport's answer to serializing it and `status`
    /// its answer to the send. The second result is the buffer, which the
    /// transport has to free whatever became of the send.
    pub fn send_event(
        &self,
        target: &str,
        name: &str,
        format: &str,
        size: u32,
        raw_buffer: usize,
        status: i32,
    ) -> (sent: (Result<i32, SbioError>, Option<sbio_serialized_data>))
        ensures
            sent.0 == if !self@.is_open() {
                Err::<i32, SbioError>(SbioError::ChannelClosed)
            } else if !(can_serialize(target@, name@, format@) && raw_buffer != 0) {
                Err::<i32, SbioError>(SbioError::Serialization)
            } else if status == GRE_IO_FAILED {
                Err::<i32, SbioError>(SbioError::Send)
            } else {
                Ok::<i32, SbioError>(status)
            },
            sent.1 is Some <==> can_serialize(target@, name@, format@) && raw_buffer != 0,
            sent.1 matches Some(buffer) ==> buffer@ == (raw_buffer, size as i32),
    {
        match crate::sbio_sys::serialize(target, name, format, size, raw_buffer) {
            Ok(buffer) => {
                if self.channel_handle.is_none() {
                    (Err(SbioError::ChannelClosed), Some(buffer))
                } else {
                    (crate::sbio_sys::send(status), Some(buffer))
                }
            },
            Err(e) => {
                if self.channel_handle.is_none() {
                    (Err(SbioError::ChannelClosed), None)
                } else {
                    (Err(e), None)
                }
            },
        }
    }

    /// Receives one event, where `status` is the transport's answer to the
    /// receive, `raw_buffer` the buffer that it filled and `fields` what it
    /// reports to be in the buffer. On a closed connection nothing can be
    /// received.
    pub fn receive(&self, status: i32, raw_buffer: usize, fields: RawEvent) -> (received: Result<
        SbioSerializeData,
        SbioError,
    >)
        ensures
            received is Ok <==> self@.is_open() && status != GRE_IO_FAILED,
            received matches Ok(event) ==> event@ == (EventView {
                buffer: raw_buffer,
                size: status,
                target: fields.target@,
                name: fields.name@,
                format: fields.format@,
                data: fields.data@,
                data_size: fields.size,
            }),
            received matches Err(e) ==> e == if !self@.is_open() {
                SbioError::ChannelClosed
            } else {
                SbioError::Receive
            },
    {
        if self.channel_handle.is_none() {
            return Err(SbioError::ChannelClosed);
        }
        match crate::sbio_sys::receive(status, raw_buffer) {
            Ok(buffer) => Ok(SbioSerializeData::new(buffer, fields)),
            Err(e) => Err(e),
        }
    }

    /// Subscribes `observer` to the events named `name`, behind the
    /// observers that are subscribed to them already. The result identifies
    /// the subscription, for `unsubscribe`.
    pub fn subscribe(&mut self, name: &str, observer: Observer<SbioSerializeData>) -> (subscription:
        Result<Subscription, SbioError>)
        ensures
            subscription is Ok <==> old(self)@.is_open(),
            subscription matches Ok(handle) ==> handle@ == (name@, observer),
            subscription matches Err(e) ==> e == SbioError::ChannelClosed,
            final(self)@ == if old(self)@.is_open() {
                old(self)@.subscribed(name@, observer)
            } else {
                old(self)@
            },
    {
        if self.channel_handle.is_none() {
            return Err(SbioError::ChannelClosed);
        }
        let handle = Subscription { name: name.to_owned(), observer: observer.clone() };
        let ghost before = self.topics@;
        match self.find_topic(name) {
            Some(i) => {
                let mut topic = self.topics.remove(i);
                topic.subject.add_observer(observer);
                self.topics.insert(i, topic);
                proof {
                    lemma_subject_at(before, name@, i as int);
                    lemma_subject_set(before, self.topics@, name@, i as int);
                }
            },
            None => {
                let mut subject: Subject<SbioSerializeData> = Subject::new();
                subject.add_observer(observer);
                self.topics.push(Topic { name: name.to_owned(), subject });
                proof {
                    lemma_no_subject(before, name@);
                    lemma_subject_set(before, self.topics@, name@, before.len() as int);
                }
            },
        }
        Ok(handle)
    }

    /// Takes the subscription that `subscription` identifies away: the
    /// first one of its observer to its name. Where there is none, nothing
    /// changes and the error says so.
    pub fn unsubscribe(&mut self, subscription: &Subscription) -> (removed: Result<(), SbioError>)
        ensures
            removed is Ok <==> old(self)@.is_open() && old(self)@.is_subscribed(
                subscription@.0,
                subscription@.1,
            ),
            removed matches Err(e) ==> e == if !old(self)@.is_open() {
                SbioError::ChannelClosed
            } else {
                SbioError::ObserverNotFound
            },
            final(self)@ == if removed is Ok {
                old(self)@.unsubscribed(subscription@.0, subscription@.1)
            } else {
                old(self)@
            },
    {
        if self.channel_handle.is_none() {
            return Err(SbioError::ChannelClosed);
        }
        let ghost before = self.topics@;
        let ghost name = subscription.name@;
        match self.find_topic(subscription.name.as_str()) {
            Some(i) => {
                proof {
                    lemma_subject_at(before, name, i as int);
                }
                if self.topics[i].subject.position(&subscription.observer).is_none() {
                    return Err(SbioError::ObserverNotFound);
                }
                let mut topic = self.topics.remove(i);
                let removed = topic.subject.remove_observer(subscription.observer.clone());
                self.topics.insert(i, topic);
                proof {
                    lemma_subject_set(before, self.topics@, name, i as int);
                }
                removed
            },
            None => {
                proof {
                    lemma_no_subject(before, name);
                }
                Err(SbioError::ObserverNotFound)
            },
        }
    }

    /// Marks the start of the dispatch loop. At most one loop is active on
    /// a connection: while one is, another start is refused, and nothing
    /// changes.
    pub fn start_receiving(&mut self) -> (started: Result<(), SbioError>)
        ensures
            started == if !old(self)@.is_open() {
                Err::<(), SbioError>(SbioError::ChannelClosed)
            } else if old(self)@.receiving {
                Err::<(), SbioError>(SbioError::AlreadyReceiving)
            } else {
                Ok::<(), SbioError>(())
            },
            final(self)@ == if old(self)@.can_start() {
                old(self)@.started()
            } else {
                old(self)@
            },
    {
        if self.channel_handle.is_none() {
            Err(SbioError::ChannelClosed)
        } else if self.receiving {
            Err(SbioError::AlreadyReceiving)
        } else {
            self.receiving = true;
            self.stop_requested = false;
            Ok(())
        }
    }

    /// Asks the dispatch loop to end. The result tells whether a loop is
    /// active, whose end the caller then waits for, after it has let go of
    /// the connection: the loop needs the connection to see the request.
    pub fn stop_receiving(&mut self) -> (active: bool)
        ensures
            active == old(self)@.receiving,
            final(self)@ == old(self)@.stopping(),
    {
        self.stop_requested = true;
        self.receiving
    }

    /// The next step of the dispatch loop, taken at the top of each round.
    /// The loop ends where it was asked to, or where the connection is
    /// closed; else it asks the transport for an event.
    pub fn loop_step(&mut self) -> (step: LoopStep)
        ensures
            final(self)@ == old(self)@.stepped(),
            step == match old(self)@.channel {
                Some(raw) if !old(self)@.stop_requested => LoopStep::Receive(raw),
                _ => LoopStep::Exit,
            },
    {
        if self.stop_requested {
            self.receiving = false;
            return LoopStep::Exit;
        }
        match &self.channel_handle {
            Some(handle) => LoopStep::Receive(handle.raw()),
            None => {
                self.receiving = false;
                LoopStep::Exit
            },
        }
    }

    /// Routes what the dispatch loop got from the transport, where `status`
    /// is the transport's answer to the receive, `raw_buffer` the buffer
    /// that it filled and `fields` what it reports to be in the buffer.
    ///
    /// Only the name of the event is read. The observers of that name are
    /// notified in the order of their subscription; an event whose name
    /// nobody subscribed to is dropped. Whatever becomes of the event, its
    /// buffer comes back to be freed.
    pub fn dispatch(&self, status: i32, raw_buffer: usize, fields: RawEvent) -> (dispatch: Dispatch)
        ensures
            dispatch.outcome.follows(self@.routed(status, fields.name@)),
            dispatch.release is Some <==> status != GRE_IO_FAILED,
            dispatch.release matches Some(buffer) ==> buffer@ == (raw_buffer, status),
    {
        let buffer = match crate::sbio_sys::receive(status, raw_buffer) {
            Ok(buffer) => buffer,
            Err(_) => {
                return Dispatch { outcome: Dispatched::ReceiveFailed, release: None };
            },
        };
        if self.channel_handle.is_none() {
            return Dispatch { outcome: Dispatched::Closed, release: Some(buffer) };
        }
        let found = match read_text(fields.name.as_slice()) {
            Ok(name) => {
                let found = self.find_topic(name);
                proof {
                    match found {
                        Some(i) => lemma_subject_at(self.topics@, name@, i as int),
                        None => lemma_no_subject(self.topics@, name@),
                    }
                }
                found
            },
            Err(_) => {
                return Dispatch { outcome: Dispatched::Unreadable, release: Some(buffer) };
            },
        };
        match found {
            Some(i) => {
                let event = SbioSerializeData::new(buffer, fields);
                let taken = self.topics[i].subject.notify_observers(&event);
                Dispatch { outcome: Dispatched::Delivered(taken), release: Some(event.release()) }
            },
            None => Dispatch { outcome: Dispatched::Unclaimed, release: Some(buffer) },
        }
    }

    /// Whether the connection is open.
    pub fn is_open(&self) -> (open: bool)
        ensures
            open == self@.is_open(),
    {
        self.channel_handle.is_some()
    }

    /// Whether a dispatch loop is active.
    pub fn is_receiving(&self) -> (receiving: bool)
        ensures
            receiving == self@.receiving,
    {
        self.receiving
    }

    /// The flags with which the channel was opened.
    pub fn flags(&self) -> (flags: SBIO_FLAGS)
        ensures
            flags@ == self@.flags,
    {
        self.flags
    }

    /// The transport's handle, for the next call on the channel; nothing
    /// once the connection is closed.
    pub fn channel(&self) -> (channel: Option<usize>)
        ensures
            channel == self@.channel,
    {
        match &self.channel_handle {
            Some(handle) => Some(handle.raw()),
            None => None,
        }
    }

    /// The number of observers that are subscribed to `name`.
    pub fn subscriber_count(&self, name: &str) -> (count: usize)
        ensures
            count == self@.subscribers(name@).len(),
    {
        match self.find_topic(name) {
            Some(i) => {
                proof {
                    lemma_subject_at(self.topics@, name@, i as int);
                }
                self.topics[i].subject.len()
            },
            None => {
                proof {
                    lemma_no_subject(self.topics@, name@);
                }
                0
            },
        }
    }
}

/// Setting the topic at `i`, in place or behind all others, sets the
/// subject of its name and no other.
proof fn lemma_subject_set(before: Seq<Topic>, after: Seq<Topic>, name: Seq<char>, i: int)
    requires
        0 <= i <= before.len(),
        after.len() == if i < before.len() { before.len() } else { before.len() + 1 },
        is_topic(after, name, i),
        i < before.len() ==> before[i].name@ == name,
        forall|j: int| 0 <= j < before.len() && j != i ==> after[j] == before[j],
    ensures
        subjects_of(after) =~= subjects_of(before).insert(name, after[i].subject@),
{
    lemma_subject_at(after, name, i);
    let now = subjects_of(after);
    let then = subjects_of(before).insert(name, after[i].subject@);
    assert forall|other: Seq<char>| #[trigger] now.dom().contains(other) == then.dom().contains(other) by {
        if other != name {
            if subjects_of(before).dom().contains(other) {
                let k = choose|k: int| is_topic(before, other, k);
                assert(is_topic(after, other, k));
            }
            if now.dom().contains(other) {
                let k = choose|k: int| is_topic(after, other, k);
                assert(is_topic(before, other, k));
            }
        }
    }
    assert forall|other: Seq<char>| #[trigger] now.dom().contains(other) implies now[other] == then[other] by {
        if other != name {
            let k = choose|k: int| is_topic(after, other, k);
            assert(is_topic(before, other, k));
            lemma_subject_at(after, other, k);
            lemma_subject_at(before, other, k);
        }
    }
}

/// Closing is idempotent: a closed connection holds no channel, so a second
/// close hands nothing to the transport, and it leaves the connection as the
/// first close left it.
pub proof fn lemma_close_twice(connection: ConnectionView)
    ensures
        connection.closed().channel is None,
        connection.closed().closed() == connection.closed(),
{
}

/// An event that was received on an open connection is handed to exactly
/// the observers that are subscribed to its name, in the order of their
/// subscription. Where nobody is subscribed to its name, nobody is
/// notified.
pub proof fn lemma_event_goes_to_subscribers(connection: ConnectionView, status: i32, name: Seq<u8>)
    requires
        connection.is_open(),
        status != GRE_IO_FAILED,
        is_text(name),
    ensures
        connection.routed(status, name).notified() == connection.subscribers(read_back(name)),
        connection.subscribers(read_back(name)).len() == 0 ==> connection.routed(
            status,
            name,
        ).notified().len() == 0,
{
}

/// An event that cannot be delivered is handed to nobody: one that the
/// transport failed to receive, one that arrives on a closed connection, and
/// one whose name cannot be read.
pub proof fn lemma_undeliverable_goes_nowhere(connection: ConnectionView, status: i32, name: Seq<u8>)
    requires
        status == GRE_IO_FAILED || !connection.is_open() || !is_text(name),
    ensures
        connection.routed(status, name).notified().len() == 0,
{
}

/// At most one dispatch loop is active: once a loop was started, no other
/// can be started before that loop has ended.
pub proof fn lemma_one_loop(connection: ConnectionView)
    requires
        connection.can_start(),
    ensures
        connection.started().receiving,
        !connection.started().can_start(),
{
}

/// A dispatch loop that was asked to end, or whose connection was closed,
/// ends at its next step, before it asks the transport for anything more;
/// after that no loop is active. Until then the request stands: no start
/// can take it back while the loop is active.
pub proof fn lemma_loop_ends(connection: ConnectionView)
    ensures
        connection.stopping().loop_ends(),
        connection.closed().loop_ends(),
        !connection.stopping().stepped().receiving,
        !connection.closed().stepped().receiving,
        connection.receiving ==> !connection.stopping().can_start(),
{
}

/// A subscription adds one observer to the observers of its name, at their
/// end, and leaves the observers of every other name as they are.
pub proof fn lemma_subscribed(
    connection: ConnectionView,
    name: Seq<char>,
    observer: Observer<SbioSerializeData>,
    other: Seq<char>,
)
    ensures
        connection.subscribed(name, observer).subscribers(name) == connection.subscribers(name).push(
            observer,
        ),
        connection.subscribed(name, observer).is_subscribed(name, observer),
        other != name ==> connection.subscribed(name, observer).subscribers(other)
            == connection.subscribers(other),
{
    let after = connection.subscribers(name).push(observer);
    assert(after[after.len() - 1] == observer);
}

/// Taking a subscription away takes one observer from the observers of its
/// name. An observer that was subscribed to the name once is subscribed to
/// it no more, and gets no further event of that name.
pub proof fn lemma_unsubscribed(
    connection: ConnectionView,
    name: Seq<char>,
    observer: Observer<SbioSerializeData>,
)
    requires
        connection.is_subscribed(name, observer),
    ensures
        connection.unsubscribed(name, observer).subscribers(name).len() == connection.subscribers(
            name,
        ).len() - 1,
        occurrences(connection.subscribers(name), observer) == 1 ==> !connection.unsubscribed(
            name,
            observer,
        ).is_subscribed(name, observer),
{
    lemma_remove_present(connection.subscribers(name), observer);
}

} // verus!
