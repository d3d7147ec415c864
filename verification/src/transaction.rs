//! One exchange with the peer, from the request to the complete reply.
//!
//! The request goes out in one piece. The reply may come as one message or as
//! many, and the messages may share a datagram or arrive in several. A
//! [`Transaction`] keeps the place in the current datagram and the records
//! gathered so far, and says after every event what has to happen next: send
//! the request, pull another datagram, decode the message at some offset of
//! the current one, or stop. It performs none of this itself.
//!
//! What the transaction does is written down once, as [`TransactionView::step`],
//! and the executable [`Transaction::step`] is proved to do exactly that. The
//! laws at the end of the file are proved of every sequence of events.

use vstd::prelude::*;
use crate::error::{errno, errno_of, Error};
use crate::message::{Message, Payload};

verus! {

/// Where an exchange stands.
#[derive(Clone, Copy, Debug, PartialEq, Eq, Structural)]
pub enum Phase {
    /// At the start: the request has to be sent.
    Sending,
    /// Between datagrams: the next one has to be pulled.
    Receiving,
    /// Inside a datagram of `len` bytes: the message that starts at `offset`
    /// has to be decoded.
    Decoding { len: usize, offset: usize },
    /// The reply is complete.
    Complete,
    /// The exchange was given up.
    Failed(Error),
}

/// What the caller has to do next.
#[derive(Clone, Copy, Debug, PartialEq, Eq, Structural)]
pub enum Action {
    /// Send the request, in one call, and report that it is out.
    Send,
    /// Pull the next datagram and report its length.
    Receive,
    /// Decode the message that starts at this offset of the current datagram
    /// and report it, or report that it cannot be decoded.
    Decode(usize),
    /// Nothing more: the exchange is over.
    Stop,
}

/// What the caller reports back.
#[derive(Clone, Debug, PartialEq, Eq)]
pub enum Event<R> {
    /// The request is out.
    Sent,
    /// A datagram of this many bytes has arrived.
    Datagram(usize),
    /// The message at the requested offset.
    Message(Message<R>),
    /// The bytes at the requested offset are not a message that can be decoded.
    Malformed,
    /// The socket failed to send or to receive, with this errno if it
    /// reported one.
    Broken(Option<i32>),
}

impl<R> Event<R> {
    /// What there is to report of a message whose header was read and whose
    /// content the decoder turned down.
    ///
    /// A header that declares no length at all marks broken framing: the walk
    /// through the datagram ends there, and what was gathered is kept. It is
    /// reported as a message without length that carries nothing. Any other
    /// message that the decoder turns down cannot be decoded.
    pub open spec fn rejection(length: u32, flags: u16) -> Event<R> {
        if length == 0 {
            Event::Message(Message { length: 0, flags, payload: Payload::Other })
        } else {
            Event::Malformed
        }
    }

    /// Computes [`Event::rejection`].
    pub fn rejected(length: u32, flags: u16) -> (event: Event<R>)
        ensures
            event == Event::<R>::rejection(length, flags),
    {
        if length == 0 {
            Event::Message(Message { length: 0, flags, payload: Payload::Other })
        } else {
            Event::Malformed
        }
    }
}

/// The state of an exchange as a mathematical value.
pub struct TransactionView<R> {
    /// Whether the request asked for a dump.
    pub dump: bool,
    /// Where the exchange stands.
    pub phase: Phase,
    /// The records gathered so far, in the order of their arrival.
    pub records: Seq<R>,
}

impl<R> TransactionView<R> {
    /// The state before anything has happened.
    pub open spec fn start(dump: bool) -> Self {
        TransactionView { dump, phase: Phase::Sending, records: Seq::empty() }
    }

    /// Whether the exchange still expects events.
    pub open spec fn running(self) -> bool {
        self.phase is Sending || self.phase is Receiving || self.phase is Decoding
    }

    /// What the caller has to do in this state.
    pub open spec fn pending(self) -> Action {
        match self.phase {
            Phase::Sending => Action::Send,
            Phase::Receiving => Action::Receive,
            Phase::Decoding { len, offset } => Action::Decode(offset),
            Phase::Complete => Action::Stop,
            Phase::Failed(_) => Action::Stop,
        }
    }

    /// Whether the event is what the pending action asks for.
    pub open spec fn answers(self, event: Event<R>) -> bool {
        match self.phase {
            Phase::Sending => event is Sent || event is Broken,
            Phase::Receiving => event is Datagram || event is Broken,
            Phase::Decoding { len, offset } => event is Message || event is Malformed,
            Phase::Complete => false,
            Phase::Failed(_) => false,
        }
    }

    /// The reply is complete: what was gathered is the result.
    pub open spec fn complete(self) -> Self {
        TransactionView { dump: self.dump, phase: Phase::Complete, records: self.records }
    }

    /// The exchange is given up, and what was gathered is thrown away.
    pub open spec fn fail(self, error: Error) -> Self {
        TransactionView { dump: self.dump, phase: Phase::Failed(error), records: Seq::empty() }
    }

    /// The state after a message of the declared `length` at `offset` was
    /// taken in without ending the exchange.
    ///
    /// The cursor moves on by the declared length. The datagram is exhausted
    /// when the cursor reaches its end, or when the message declares no length
    /// at all. After an exhausted datagram a dump is over if the last message
    /// was not marked as one part of several; in every other case the next
    /// datagram is pulled.
    pub open spec fn advance(self, len: usize, offset: usize, length: u32, multipart: bool) -> Self {
        if length != 0 && offset + length < len {
            TransactionView {
                dump: self.dump,
                phase: Phase::Decoding { len, offset: (offset + length) as usize },
                records: self.records,
            }
        } else if self.dump && !multipart {
            self.complete()
        } else {
            TransactionView { dump: self.dump, phase: Phase::Receiving, records: self.records }
        }
    }

    /// The state after the message at `offset` of a datagram of `len` bytes.
    ///
    /// The end marker completes the reply. Data is appended to what was
    /// gathered. An error envelope with a status other than zero ends the
    /// exchange with that error. One with status zero is an acknowledgement: it
    /// completes a request that asked for no dump, and within a dump it is
    /// passed over. Any other payload is passed over.
    pub open spec fn deliver(self, len: usize, offset: usize, message: Message<R>) -> Self {
        match message.payload {
            Payload::Done => self.complete(),
            Payload::Data(groups) => TransactionView {
                dump: self.dump,
                phase: self.phase,
                records: self.records + groups@,
            }.advance(len, offset, message.length, message.multipart()),
            Payload::Error(code) => if code != 0 {
                self.fail(Error::Peer(errno_of(code)))
            } else if !self.dump {
                self.complete()
            } else {
                self.advance(len, offset, message.length, message.multipart())
            },
            Payload::Other => self.advance(len, offset, message.length, message.multipart()),
        }
    }

    /// The state after an event.
    ///
    /// A failure of the socket ends the exchange at once; nothing is tried
    /// again. Every datagram is decoded from its start. An event that does not
    /// answer the pending action changes nothing; in particular nothing
    /// changes once the exchange is over.
    pub open spec fn step(self, event: Event<R>) -> Self {
        match self.phase {
            Phase::Sending => match event {
                Event::Sent => TransactionView {
                    dump: self.dump,
                    phase: Phase::Receiving,
                    records: self.records,
                },
                Event::Broken(errno) => self.fail(Error::Transport(errno)),
                _ => self,
            },
            Phase::Receiving => match event {
                Event::Datagram(len) => TransactionView {
                    dump: self.dump,
                    phase: Phase::Decoding { len, offset: 0 },
                    records: self.records,
                },
                Event::Broken(errno) => self.fail(Error::Transport(errno)),
                _ => self,
            },
            Phase::Decoding { len, offset } => match event {
                Event::Message(message) => self.deliver(len, offset, message),
                Event::Malformed => self.fail(Error::Decode),
                _ => self,
            },
            _ => self,
        }
    }

    /// The state after a sequence of events, taken in order.
    pub open spec fn run(self, events: Seq<Event<R>>) -> Self
        decreases events.len(),
    {
        if events.len() == 0 {
            self
        } else {
            self.run(events.drop_last()).step(events.last())
        }
    }

    /// Whether each event of the sequence answers the action that was pending
    /// when it came: the events are those of a caller who does what it is told.
    pub open spec fn driven(self, events: Seq<Event<R>>) -> bool
        decreases events.len(),
    {
        events.len() == 0 || (self.driven(events.drop_last()) && self.run(
            events.drop_last(),
        ).answers(events.last()))
    }

    /// What the exchange ends in, once it is over.
    pub open spec fn outcome(self) -> Option<Result<Seq<R>, Error>> {
        match self.phase {
            Phase::Complete => Some(Ok(self.records)),
            Phase::Failed(error) => Some(Err(error)),
            _ => None,
        }
    }
}

/// The records that the data messages among the events carry, in order.
pub open spec fn carried<R>(events: Seq<Event<R>>) -> Seq<R>
    decreases events.len(),
{
    if events.len() == 0 {
        Seq::empty()
    } else {
        carried(events.drop_last()) + carried_by(events.last())
    }
}

/// The records that one event carries: those of a data message, else none.
pub open spec fn carried_by<R>(event: Event<R>) -> Seq<R> {
    match event {
        Event::Message(message) => match message.payload {
            Payload::Data(groups) => groups@,
            _ => Seq::empty(),
        },
        _ => Seq::empty(),
    }
}

/// One exchange with the peer.
#[derive(Debug)]
pub struct Transaction<R> {
    dump: bool,
    phase: Phase,
    records: Vec<R>,
}

impl<R> View for Transaction<R> {
    type V = TransactionView<R>;

    closed spec fn view(&self) -> TransactionView<R> {
        TransactionView { dump: self.dump, phase: self.phase, records: self.records@ }
    }
}

impl<R> Transaction<R> {
    /// Starts an exchange. `dump` says whether its request asks for a dump.
    pub fn new(dump: bool) -> (t: Transaction<R>)
        ensures
            t@ == TransactionView::<R>::start(dump),
    {
        Transaction { dump, phase: Phase::Sending, records: Vec::new() }
    }

    /// What the caller has to do next.
    pub fn action(&self) -> (action: Action)
        ensures
            action == self@.pending(),
    {
        match self.phase {
            Phase::Sending => Action::Send,
            Phase::Receiving => Action::Receive,
            Phase::Decoding { len, offset } => Action::Decode(offset),
            Phase::Complete => Action::Stop,
            Phase::Failed(_) => Action::Stop,
        }
    }

    fn finish(&mut self)
        ensures
            final(self)@ == old(self)@.complete(),
    {
        self.phase = Phase::Complete;
    }

    fn abandon(&mut self, error: Error)
        ensures
            final(self)@ == old(self)@.fail(error),
    {
        self.phase = Phase::Failed(error);
        self.records = Vec::new();
    }

    fn advance(&mut self, len: usize, offset: usize, length: u32, multipart: bool)
        ensures
            final(self)@ == old(self)@.advance(len, offset, length, multipart),
    {
        let next = offset.checked_add(length as usize);
        match next {
            Some(next) if length != 0 && next < len => {
                self.phase = Phase::Decoding { len, offset: next };
            },
            _ => {
                if self.dump && !multipart {
                    self.phase = Phase::Complete;
                } else {
                    self.phase = Phase::Receiving;
                }
            },
        }
    }

    fn deliver(&mut self, len: usize, offset: usize, message: Message<R>)
        ensures
            final(self)@ == old(self)@.deliver(len, offset, message),
    {
        let multipart = message.is_multipart();
        let length = message.length;
        match message.payload {
            Payload::Done => self.finish(),
            Payload::Data(groups) => {
                let mut groups = groups;
                self.records.append(&mut groups);
                self.advance(len, offset, length, multipart);
            },
            Payload::Error(code) => {
                if code != 0 {
                    self.abandon(Error::Peer(errno(code)));
                } else if !self.dump {
                    self.finish();
                } else {
                    self.advance(len, offset, length, multipart);
                }
            },
            Payload::Other => self.advance(len, offset, length, multipart),
        }
    }

    /// Takes in an event and says what has to happen next.
    pub fn step(&mut self, event: Event<R>) -> (action: Action)
        ensures
            final(self)@ == old(self)@.step(event),
            action == final(self)@.pending(),
    {
        match self.phase {
            Phase::Sending => match event {
                Event::Sent => {
                    self.phase = Phase::Receiving;
                },
                Event::Broken(errno) => self.abandon(Error::Transport(errno)),
                _ => {},
            },
            Phase::Receiving => match event {
                Event::Datagram(len) => {
                    self.phase = Phase::Decoding { len, offset: 0 };
                },
                Event::Broken(errno) => self.abandon(Error::Transport(errno)),
                _ => {},
            },
            Phase::Decoding { len, offset } => match event {
                Event::Message(message) => self.deliver(len, offset, message),
                Event::Malformed => self.abandon(Error::Decode),
                _ => {},
            },
            _ => {},
        }
        self.action()
    }

    /// Ends the exchange and hands out its result: the records in the order
    /// of their arrival, or the error. `None` while the exchange is not over.
    pub fn outcome(self) -> (r: Option<Result<Vec<R>, Error>>)
        ensures
            match r {
                Some(Ok(records)) => self@.outcome() == Some(Ok::<Seq<R>, Error>(records@)),
                Some(Err(error)) => self@.outcome() == Some(Err::<Seq<R>, Error>(error)),
                None => self@.outcome() is None,
            },
    {
        match self.phase {
            Phase::Complete => Some(Ok(self.records)),
            Phase::Failed(error) => Some(Err(error)),
            _ => None,
        }
    }
}

/// Taking in one more event is one more step.
pub proof fn lemma_run_push<R>(state: TransactionView<R>, events: Seq<Event<R>>, event: Event<R>)
    ensures
        state.run(events.push(event)) == state.run(events).step(event),
        state.driven(events.push(event)) == (state.driven(events) && state.run(events).answers(
            event,
        )),
{
    assert(events.push(event).drop_last() =~= events);
}

/// One more event carries what it carries, behind what the others carry.
pub proof fn lemma_carried_push<R>(events: Seq<Event<R>>, event: Event<R>)
    ensures
        carried(events.push(event)) == carried(events) + carried_by(event),
{
    assert(events.push(event).drop_last() =~= events);
}

/// What two runs of events carry is what the first carries, then the second.
pub proof fn lemma_carried_concat<R>(first: Seq<Event<R>>, second: Seq<Event<R>>)
    ensures
        carried(first + second) == carried(first) + carried(second),
    decreases second.len(),
{
    if second.len() > 0 {
        lemma_carried_concat(first, second.drop_last());
        assert((first + second).drop_last() =~= first + second.drop_last());
    } else {
        assert(first + second =~= first);
    }
    assert(carried(first + second) =~= carried(first) + carried(second));
}

/// Events taken in one after another are taken in as one sequence.
pub proof fn lemma_run_concat<R>(
    state: TransactionView<R>,
    first: Seq<Event<R>>,
    second: Seq<Event<R>>,
)
    ensures
        state.run(first + second) == state.run(first).run(second),
    decreases second.len(),
{
    if second.len() > 0 {
        lemma_run_concat(state, first, second.drop_last());
        assert((first + second).drop_last() =~= first + second.drop_last());
    }
}

/// Once an exchange is over, no event changes its result.
pub proof fn lemma_over_stays_over<R>(state: TransactionView<R>, events: Seq<Event<R>>)
    requires
        !state.running(),
    ensures
        state.run(events) == state,
    decreases events.len(),
{
    if events.len() > 0 {
        lemma_over_stays_over(state, events.drop_last());
    }
}

/// From its start an exchange reaches only states in which the cursor is
/// inside the current datagram, or at its very beginning, and in which a
/// failed exchange holds no records.
pub proof fn lemma_reachable<R>(dump: bool, events: Seq<Event<R>>)
    ensures
        match TransactionView::<R>::start(dump).run(events).phase {
            Phase::Decoding { len, offset } => offset == 0 || offset < len,
            Phase::Failed(_) => TransactionView::<R>::start(dump).run(events).records.len() == 0,
            _ => true,
        },
    decreases events.len(),
{
    if events.len() > 0 {
        lemma_reachable::<R>(dump, events.drop_last());
    }
}

/// Reassembly: while an exchange has not failed, what it has gathered is what
/// the data messages carried, in the order of their arrival. Where the
/// messages begin and end, and which datagram each came in, makes no
/// difference.
pub proof fn lemma_reassembly<R>(dump: bool, events: Seq<Event<R>>)
    requires
        TransactionView::<R>::start(dump).driven(events),
        !(TransactionView::<R>::start(dump).run(events).phase is Failed),
    ensures
        TransactionView::<R>::start(dump).run(events).records == carried(events),
    decreases events.len(),
{
    if events.len() > 0 {
        lemma_reassembly(dump, events.drop_last());
    }
}

/// A reply that is split over any number of messages and datagrams gives the
/// same result as one data message that holds all its records, followed by
/// the end marker.
pub proof fn lemma_split_is_immaterial<R>(
    dump: bool,
    events: Seq<Event<R>>,
    len: usize,
    whole: Message<R>,
    end: Message<R>,
)
    requires
        TransactionView::<R>::start(dump).driven(events),
        TransactionView::<R>::start(dump).run(events).phase is Complete,
        carried_by(Event::Message(whole)) == carried(events),
        whole.payload is Data,
        0 < whole.length < len,
        end.payload is Done,
    ensures
        TransactionView::<R>::start(dump).run(events).outcome() == TransactionView::<R>::start(
            dump,
        ).run(
            seq![Event::Sent, Event::Datagram(len), Event::Message(whole), Event::Message(end)],
        ).outcome(),
{
    let start = TransactionView::<R>::start(dump);
    lemma_reassembly(dump, events);
    let none = Seq::<Event<R>>::empty();
    let one = none.push(Event::Sent);
    let two = one.push(Event::Datagram(len));
    let three = two.push(Event::Message(whole));
    let four = three.push(Event::Message(end));
    lemma_run_push(start, none, Event::Sent);
    lemma_run_push(start, one, Event::Datagram(len));
    lemma_run_push(start, two, Event::Message(whole));
    lemma_run_push(start, three, Event::Message(end));
    assert(four =~= seq![
        Event::Sent,
        Event::Datagram(len),
        Event::Message(whole),
        Event::Message(end),
    ]);
}

/// A peer error aborts: when the message that was asked for is an error
/// envelope with a status other than zero, the exchange ends in that error,
/// whatever was gathered before is gone, and nothing that arrives afterwards
/// changes the result.
pub proof fn lemma_peer_error_aborts<R>(
    state: TransactionView<R>,
    before: Seq<Event<R>>,
    message: Message<R>,
    code: i32,
    after: Seq<Event<R>>,
)
    requires
        state.run(before).phase is Decoding,
        message.payload == Payload::<R>::Error(code),
        code != 0,
    ensures
        state.run(before.push(Event::Message(message)) + after).outcome() == Some(
            Err::<Seq<R>, Error>(Error::Peer(errno_of(code))),
        ),
        state.run(before.push(Event::Message(message)) + after).records.len() == 0,
{
    let events = before.push(Event::Message(message));
    lemma_run_push(state, before, Event::Message(message));
    lemma_run_concat(state, events, after);
    lemma_over_stays_over(state.run(events), after);
}

/// A failure of the socket aborts: when the socket fails where the request
/// was to be sent or a datagram to be pulled, the exchange ends in that
/// failure, nothing is tried again, and nothing that is reported afterwards
/// changes the result.
pub proof fn lemma_transport_failure_aborts<R>(
    state: TransactionView<R>,
    before: Seq<Event<R>>,
    errno: Option<i32>,
    after: Seq<Event<R>>,
)
    requires
        state.run(before).pending() == Action::Send || state.run(before).pending()
            == Action::Receive,
    ensures
        state.run(before.push(Event::Broken(errno)) + after).outcome() == Some(
            Err::<Seq<R>, Error>(Error::Transport(errno)),
        ),
        state.run(before.push(Event::Broken(errno)) + after).pending() == Action::Stop,
{
    let events = before.push(Event::Broken(errno));
    lemma_run_push(state, before, Event::Broken(errno));
    lemma_run_concat(state, events, after);
    lemma_over_stays_over(state.run(events), after);
}

} // verus!
