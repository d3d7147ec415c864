//! What a transaction makes of a reply, whatever way the peer cuts it up.
//!
//! A peer sends the records of a reply in any number of messages, and packs
//! the messages into any number of datagrams. Other messages may stand
//! between them, and a datagram may hold more than the reply. This file
//! describes such a reply as the datagrams it arrives in, each a run of
//! messages, and proves that a caller who does what the transaction asks for
//! ends up with the records of all the messages, in their order; or, where
//! the peer breaks the reply off with an error, with that error and no
//! records.

use vstd::prelude::*;
use crate::error::{errno_of, Error};
use crate::message::{Message, Payload};
use crate::transaction::{
    carried, lemma_carried_concat, lemma_carried_push, lemma_over_stays_over, lemma_run_concat,
    lemma_run_push, Event, Phase, TransactionView,
};

verus! {

/// Whether the message is one that a reply goes on behind: it declares a
/// length, and it carries data, or a payload that means nothing here, or,
/// within a dump, an acknowledgement.
pub open spec fn is_part<R>(dump: bool, message: Message<R>) -> bool {
    &&& message.length != 0
    &&& {
        ||| message.payload is Data
        ||| message.payload is Other
        ||| dump && message.payload == Payload::<R>::Error(0)
    }
}

/// Whether a reply goes on behind every one of the messages.
pub open spec fn all_parts<R>(dump: bool, messages: Seq<Message<R>>) -> bool {
    forall|i: int| 0 <= i < messages.len() ==> is_part(dump, #[trigger] messages[i])
}

/// Whether the message closes a reply: the end marker does, and for a request
/// that asked for no dump the acknowledgement does.
pub open spec fn closes<R>(dump: bool, message: Message<R>) -> bool {
    message.payload is Done || (!dump && message.payload == Payload::<R>::Error(0))
}

/// The number of bytes that the messages take up together: the sum of the
/// lengths that their headers declare.
pub open spec fn span<R>(messages: Seq<Message<R>>) -> nat
    decreases messages.len(),
{
    if messages.len() == 0 {
        0
    } else {
        span(messages.drop_last()) + messages.last().length as nat
    }
}

/// The messages as the events that report them, one after another.
pub open spec fn reported<R>(messages: Seq<Message<R>>) -> Seq<Event<R>> {
    messages.map_values(|message: Message<R>| Event::Message(message))
}

/// The events of a datagram of `len` bytes that begins with these messages:
/// its arrival, then each message in turn.
pub open spec fn arrival<R>(len: usize, messages: Seq<Message<R>>) -> Seq<Event<R>> {
    seq![Event::Datagram(len)] + reported(messages)
}

/// The events of a datagram that holds exactly these messages.
pub open spec fn batch<R>(messages: Seq<Message<R>>) -> Seq<Event<R>> {
    arrival(span(messages) as usize, messages)
}

/// The events of a run of datagrams, each holding exactly its messages.
pub open spec fn delivery<R>(datagrams: Seq<Seq<Message<R>>>) -> Seq<Event<R>>
    decreases datagrams.len(),
{
    if datagrams.len() == 0 {
        Seq::empty()
    } else {
        delivery(datagrams.drop_last()) + batch(datagrams.last())
    }
}

/// Whether the datagram is one of a reply in progress: it holds at least one
/// message, the reply goes on behind each of them, it is no longer than a
/// datagram can be, and in a dump its last message is marked as one part of
/// several.
pub open spec fn is_batch<R>(dump: bool, messages: Seq<Message<R>>) -> bool {
    &&& messages.len() > 0
    &&& all_parts(dump, messages)
    &&& span(messages) <= usize::MAX
    &&& dump ==> messages.last().multipart()
}

/// Whether every datagram is one of a reply in progress.
pub open spec fn all_batches<R>(dump: bool, datagrams: Seq<Seq<Message<R>>>) -> bool {
    forall|d: int| 0 <= d < datagrams.len() ==> is_batch(dump, #[trigger] datagrams[d])
}

/// The state of an exchange inside a datagram.
pub open spec fn inside<R>(dump: bool, records: Seq<R>, len: usize, offset: int) -> TransactionView<
    R,
> {
    TransactionView { dump, phase: Phase::Decoding { len, offset: offset as usize }, records }
}

/// The state of an exchange between two datagrams.
pub open spec fn between<R>(dump: bool, records: Seq<R>) -> TransactionView<R> {
    TransactionView { dump, phase: Phase::Receiving, records }
}

/// One more message is one more event, and its bytes add up.
proof fn lemma_one_more<R>(messages: Seq<Message<R>>, message: Message<R>)
    ensures
        reported(messages.push(message)) == reported(messages).push(Event::Message(message)),
        span(messages.push(message)) == span(messages) + message.length,
{
    assert(messages.push(message).drop_last() =~= messages);
    assert(reported(messages.push(message)) =~= reported(messages).push(Event::Message(message)));
}

/// The step over one more part: where the cursor stands behind the parts
/// before it, with their records gathered, the part is taken in, its records
/// are gathered too, and the cursor moves on by its length.
proof fn lemma_walk_step<R>(
    dump: bool,
    records: Seq<R>,
    len: usize,
    offset: int,
    init: Seq<Message<R>>,
    last: Message<R>,
)
    requires
        is_part(dump, last),
        0 <= offset,
        offset + span(init) <= usize::MAX,
        inside(dump, records, len, offset).run(reported(init)) == inside(
            dump,
            records + carried(reported(init)),
            len,
            offset + span(init),
        ),
    ensures
        inside(dump, records, len, offset).run(reported(init.push(last))) == inside(
            dump,
            records + carried(reported(init.push(last))),
            len,
            offset + span(init),
        ).advance(len, (offset + span(init)) as usize, last.length, last.multipart()),
{
    lemma_one_more(init, last);
    lemma_run_push(inside(dump, records, len, offset), reported(init), Event::Message(last));
    lemma_carried_push(reported(init), Event::Message(last));
    if last.payload is Data {
        assert(records + carried(reported(init)) + last.payload->Data_0@ =~= records + carried(
            reported(init.push(last)),
        ));
    } else {
        assert(records + carried(reported(init)) =~= records + carried(
            reported(init.push(last)),
        ));
    }
}

/// Parts that do not reach the end of the datagram leave the cursor behind
/// the last of them, with their records gathered.
proof fn lemma_walk_inside<R>(
    dump: bool,
    records: Seq<R>,
    len: usize,
    offset: int,
    messages: Seq<Message<R>>,
)
    requires
        all_parts(dump, messages),
        0 <= offset,
        messages.len() > 0 ==> offset + span(messages) < len,
    ensures
        inside(dump, records, len, offset).run(reported(messages)) == inside(
            dump,
            records + carried(reported(messages)),
            len,
            offset + span(messages),
        ),
    decreases messages.len(),
{
    if messages.len() > 0 {
        let init = messages.drop_last();
        assert(messages =~= init.push(messages.last()));
        lemma_walk_inside(dump, records, len, offset, init);
        lemma_walk_step(dump, records, len, offset, init, messages.last());
    } else {
        assert(reported(messages) =~= Seq::<Event<R>>::empty());
        assert(records + carried(reported(messages)) =~= records);
    }
}

/// Parts that fill the datagram to its end leave the exchange between
/// datagrams, with their records gathered.
proof fn lemma_walk_to_the_end<R>(
    dump: bool,
    records: Seq<R>,
    len: usize,
    offset: int,
    messages: Seq<Message<R>>,
)
    requires
        messages.len() > 0,
        all_parts(dump, messages),
        dump ==> messages.last().multipart(),
        0 <= offset,
        offset + span(messages) == len,
    ensures
        inside(dump, records, len, offset).run(reported(messages)) == between(
            dump,
            records + carried(reported(messages)),
        ),
{
    let init = messages.drop_last();
    assert(messages =~= init.push(messages.last()));
    lemma_walk_inside(dump, records, len, offset, init);
    lemma_walk_step(dump, records, len, offset, init, messages.last());
}

/// The arrival of a datagram carries what its messages carry.
proof fn lemma_arrival_carries<R>(len: usize, messages: Seq<Message<R>>)
    ensures
        carried(arrival(len, messages)) == carried(reported(messages)),
{
    let opening = Event::<R>::Datagram(len);
    lemma_carried_concat(seq![opening], reported(messages));
    lemma_carried_push(Seq::empty(), opening);
    assert(Seq::<Event<R>>::empty().push(opening) =~= seq![opening]);
    assert(carried(seq![opening]) + carried(reported(messages)) =~= carried(reported(messages)));
}

/// The arrival of a datagram puts the cursor at its start.
proof fn lemma_arrival_opens<R>(dump: bool, records: Seq<R>, len: usize, messages: Seq<Message<R>>)
    ensures
        between(dump, records).run(arrival(len, messages)) == inside(dump, records, len, 0).run(
            reported(messages),
        ),
{
    let opening = Event::<R>::Datagram(len);
    lemma_run_concat(between(dump, records), seq![opening], reported(messages));
    lemma_run_push(between(dump, records), Seq::empty(), opening);
    assert(Seq::<Event<R>>::empty().push(opening) =~= seq![opening]);
}

/// One datagram of a reply in progress: the exchange is between datagrams
/// before and after it, and the records of its messages are gathered.
proof fn lemma_batch<R>(dump: bool, records: Seq<R>, messages: Seq<Message<R>>)
    requires
        is_batch(dump, messages),
    ensures
        between(dump, records).run(batch(messages)) == between(
            dump,
            records + carried(batch(messages)),
        ),
{
    let len = span(messages) as usize;
    lemma_arrival_opens(dump, records, len, messages);
    lemma_walk_to_the_end(dump, records, len, 0, messages);
    lemma_arrival_carries(len, messages);
}

/// Any number of datagrams of a reply in progress: the exchange is between
/// datagrams before and after them, and the records of all their messages are
/// gathered in order.
proof fn lemma_batches<R>(dump: bool, records: Seq<R>, datagrams: Seq<Seq<Message<R>>>)
    requires
        all_batches(dump, datagrams),
    ensures
        between(dump, records).run(delivery(datagrams)) == between(
            dump,
            records + carried(delivery(datagrams)),
        ),
    decreases datagrams.len(),
{
    if datagrams.len() > 0 {
        let init = datagrams.drop_last();
        let last = datagrams.last();
        lemma_batches(dump, records, init);
        lemma_run_concat(between(dump, records), delivery(init), batch(last));
        lemma_batch(dump, records + carried(delivery(init)), last);
        lemma_carried_concat(delivery(init), batch(last));
        assert(records + carried(delivery(init)) + carried(batch(last)) =~= records + carried(
            delivery(datagrams),
        ));
    } else {
        assert(records + carried(delivery(datagrams)) =~= records);
    }
}

/// A reply in progress reaches every message of it: behind any number of
/// datagrams of a reply in progress, and behind any number of parts at the
/// start of one more datagram, the next message of that datagram is asked
/// for, and the records of all the parts before it are gathered.
proof fn lemma_reply_reaches<R>(
    dump: bool,
    datagrams: Seq<Seq<Message<R>>>,
    len: usize,
    last: Seq<Message<R>>,
    next: Message<R>,
)
    requires
        all_batches(dump, datagrams),
        all_parts(dump, last),
        last.len() > 0 ==> span(last) < len,
    ensures
        TransactionView::<R>::start(dump).run(
            seq![Event::Sent] + delivery(datagrams) + arrival(len, last.push(next)),
        ) == inside(
            dump,
            carried(delivery(datagrams)) + carried(reported(last)),
            len,
            span(last) as int,
        ).step(Event::Message(next)),
{
    let start = TransactionView::<R>::start(dump);
    let sent = seq![Event::<R>::Sent];
    let gathered = carried(delivery(datagrams));
    lemma_run_push(start, Seq::empty(), Event::Sent);
    assert(Seq::<Event<R>>::empty().push(Event::Sent) =~= sent);
    lemma_run_concat(start, sent, delivery(datagrams));
    lemma_batches(dump, Seq::empty(), datagrams);
    assert(Seq::<R>::empty() + gathered =~= gathered);

    lemma_one_more(last, next);
    lemma_run_concat(start, sent + delivery(datagrams), arrival(len, last.push(next)));
    lemma_arrival_opens(dump, gathered, len, last.push(next));
    lemma_walk_inside(dump, gathered, len, 0, last);
    lemma_run_push(inside(dump, gathered, len, 0), reported(last), Event::Message(next));
}

/// A reply is reassembled, however it is cut up.
///
/// Let the peer send any number of datagrams, each holding any number of
/// messages that the reply goes on behind, and let one more datagram hold the
/// message that closes the reply: the end marker, or the acknowledgement
/// where no dump was asked for. The closing message may stand behind further
/// parts, and the datagram may hold more behind it. Then the exchange
/// completes, and it returns the records of all the data messages before the
/// closing one in the order in which they came: the same as if one message
/// had held them all. Whatever is reported afterwards changes nothing.
pub proof fn lemma_reply_is_reassembled<R>(
    dump: bool,
    datagrams: Seq<Seq<Message<R>>>,
    len: usize,
    last: Seq<Message<R>>,
    end: Message<R>,
    afterwards: Seq<Event<R>>,
)
    requires
        all_batches(dump, datagrams),
        all_parts(dump, last),
        last.len() > 0 ==> span(last) < len,
        closes(dump, end),
    ensures
        TransactionView::<R>::start(dump).run(
            seq![Event::Sent] + delivery(datagrams) + arrival(len, last.push(end)) + afterwards,
        ).outcome() == Some(
            Ok::<Seq<R>, Error>(carried(delivery(datagrams)) + carried(reported(last))),
        ),
{
    let start = TransactionView::<R>::start(dump);
    let events = seq![Event::Sent] + delivery(datagrams) + arrival(len, last.push(end));
    lemma_reply_reaches(dump, datagrams, len, last, end);
    lemma_run_concat(start, events, afterwards);
    lemma_over_stays_over(start.run(events), afterwards);
}

/// A reply is aborted by an error of the peer, wherever it comes.
///
/// Let the peer send any number of datagrams of a reply in progress, and let
/// an error envelope with a status other than zero follow in one more
/// datagram, behind any number of parts. Then the exchange ends in the error
/// of that status, none of the records is returned, and whatever is reported
/// afterwards changes nothing.
pub proof fn lemma_reply_is_aborted<R>(
    dump: bool,
    datagrams: Seq<Seq<Message<R>>>,
    len: usize,
    last: Seq<Message<R>>,
    refusal: Message<R>,
    code: i32,
    afterwards: Seq<Event<R>>,
)
    requires
        all_batches(dump, datagrams),
        all_parts(dump, last),
        last.len() > 0 ==> span(last) < len,
        refusal.payload == Payload::<R>::Error(code),
        code != 0,
    ensures
        TransactionView::<R>::start(dump).run(
            seq![Event::Sent] + delivery(datagrams) + arrival(len, last.push(refusal))
                + afterwards,
        ).outcome() == Some(Err::<Seq<R>, Error>(Error::Peer(errno_of(code)))),
        TransactionView::<R>::start(dump).run(
            seq![Event::Sent] + delivery(datagrams) + arrival(len, last.push(refusal))
                + afterwards,
        ).records.len() == 0,
{
    let start = TransactionView::<R>::start(dump);
    let events = seq![Event::Sent] + delivery(datagrams) + arrival(len, last.push(refusal));
    lemma_reply_reaches(dump, datagrams, len, last, refusal);
    lemma_run_concat(start, events, afterwards);
    lemma_over_stays_over(start.run(events), afterwards);
}

} // verus!
