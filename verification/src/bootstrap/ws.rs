//! The byte-stream face of a WebSocket connection.
//!
//! A WebSocket carries whole messages; the tunnel behind it wants an ordered
//! stream of bytes. [`WsIo`] keeps the bytes of a binary message that the
//! reader has not taken yet and decides, for every turn of the transport, what
//! the reader is given and what is sent back. The transport itself is driven by
//! the caller: it polls the message stream, hands over what came out, and
//! carries out the step that is returned.

use vstd::prelude::*;
use vstd::slice::slice_to_vec;
use vstd::string::*;

verus! {

/// One message of the WebSocket transport.
#[derive(Debug)]
pub enum Message {
    Text(String),
    Binary(Vec<u8>),
    Ping(Vec<u8>),
    Pong(Vec<u8>),
    Close,
    Frame,
}

/// The mathematical value of a [`Message`].
pub enum MessageView {
    Text(Seq<char>),
    Binary(Seq<u8>),
    Ping(Seq<u8>),
    Pong(Seq<u8>),
    Close,
    Frame,
}

impl View for Message {
    type V = MessageView;

    open spec fn view(&self) -> MessageView {
        match self {
            Message::Text(t) => MessageView::Text(t@),
            Message::Binary(b) => MessageView::Binary(b@),
            Message::Ping(p) => MessageView::Ping(p@),
            Message::Pong(p) => MessageView::Pong(p@),
            Message::Close => MessageView::Close,
            Message::Frame => MessageView::Frame,
        }
    }
}

/// What one poll of the inbound message stream produced.
#[derive(Debug)]
pub enum Inbound {
    /// The next message arrived.
    Message(Message),
    /// The stream has ended: no further message will arrive.
    Closed,
    /// The transport failed; the text describes the failure.
    Failed(String),
    /// Nothing is available yet.
    NotReady,
}

/// The mathematical value of an [`Inbound`].
pub enum InboundView {
    Message(MessageView),
    Closed,
    Failed(Seq<char>),
    NotReady,
}

impl View for Inbound {
    type V = InboundView;

    open spec fn view(&self) -> InboundView {
        match self {
            Inbound::Message(m) => InboundView::Message(m@),
            Inbound::Closed => InboundView::Closed,
            Inbound::Failed(e) => InboundView::Failed(e@),
            Inbound::NotReady => InboundView::NotReady,
        }
    }
}

/// A transport failure as the byte stream reports it: always of the
/// broken-pipe class, with a text for the operator.
#[derive(Debug)]
pub struct BrokenPipe {
    pub message: String,
}

impl View for BrokenPipe {
    type V = Seq<char>;

    open spec fn view(&self) -> Seq<char> {
        self.message@
    }
}

/// The text of the failure that a transport error with text `detail` becomes.
pub open spec fn ws_error_text(detail: Seq<char>) -> Seq<char> {
    "Tungstenite error: "@ + detail
}

/// Turns a transport error, given by its text, into the byte stream's failure.
pub fn map_ws_error(detail: &str) -> (failure: BrokenPipe)
    ensures
        failure@ == ws_error_text(detail@),
{
    BrokenPipe { message: String::from_str("Tungstenite error: ").concat(detail) }
}

/// What a read on the byte stream comes to.
#[derive(Debug)]
pub enum ReadOutcome {
    /// The read succeeds with these bytes.
    Data(Vec<u8>),
    /// The read succeeds with no bytes: the stream is at its end.
    EndOfStream,
    /// This message is to be sent on the transport; the read delivers nothing
    /// this turn. [`WsIo::reply_sent`] says how the read ends once it is sent.
    Reply(Message),
    /// The read cannot complete now and is to be tried again.
    WouldBlock,
    /// The read fails.
    Failed(BrokenPipe),
}

/// The mathematical value of a [`ReadOutcome`].
pub enum ReadOutcomeView {
    Data(Seq<u8>),
    EndOfStream,
    Reply(MessageView),
    WouldBlock,
    Failed(Seq<char>),
}

impl View for ReadOutcome {
    type V = ReadOutcomeView;

    open spec fn view(&self) -> ReadOutcomeView {
        match self {
            ReadOutcome::Data(d) => ReadOutcomeView::Data(d@),
            ReadOutcome::EndOfStream => ReadOutcomeView::EndOfStream,
            ReadOutcome::Reply(m) => ReadOutcomeView::Reply(m@),
            ReadOutcome::WouldBlock => ReadOutcomeView::WouldBlock,
            ReadOutcome::Failed(f) => ReadOutcomeView::Failed(f@),
        }
    }
}

/// Whether the outbound side of the transport can take a message.
#[derive(Debug)]
pub enum SinkReady {
    Ready,
    Failed(String),
    NotReady,
}

/// What a write on the byte stream comes to.
#[derive(Debug)]
pub enum WriteOutcome {
    /// This message is to be sent; [`WsIo::write_sent`] says how many bytes
    /// the write then reports.
    Send(Message),
    /// The sink is not ready: nothing was taken, the same bytes are to be
    /// offered again.
    WouldBlock,
    /// The write fails.
    Failed(BrokenPipe),
}

/// The mathematical value of a [`WriteOutcome`].
pub enum WriteOutcomeView {
    Send(MessageView),
    WouldBlock,
    Failed(Seq<char>),
}

impl View for WriteOutcome {
    type V = WriteOutcomeView;

    open spec fn view(&self) -> WriteOutcomeView {
        match self {
            WriteOutcome::Send(m) => WriteOutcomeView::Send(m@),
            WriteOutcome::WouldBlock => WriteOutcomeView::WouldBlock,
            WriteOutcome::Failed(f) => WriteOutcomeView::Failed(f@),
        }
    }
}

/// How many bytes a read with room for `capacity` takes from `available`.
pub open spec fn read_len(available: Seq<u8>, capacity: usize) -> int {
    if capacity <= available.len() {
        capacity as int
    } else {
        available.len() as int
    }
}

/// The bytes a read with room for `capacity` delivers from `available`.
pub open spec fn served(available: Seq<u8>, capacity: usize) -> Seq<u8> {
    available.take(read_len(available, capacity))
}

/// The bytes that stay behind after such a read.
pub open spec fn kept(available: Seq<u8>, capacity: usize) -> Seq<u8> {
    available.skip(read_len(available, capacity))
}

/// The pending bytes after the stream produced `inbound` for a read with room
/// for `capacity`, when `pending` were waiting before.
pub open spec fn pending_after(pending: Seq<u8>, inbound: InboundView, capacity: usize) -> Seq<u8> {
    match inbound {
        InboundView::Message(MessageView::Binary(data)) => kept(pending + data, capacity),
        InboundView::Closed => kept(pending, capacity),
        _ => pending,
    }
}

/// What the read comes to in that situation.
pub open spec fn outcome_of(
    pending: Seq<u8>,
    inbound: InboundView,
    capacity: usize,
) -> ReadOutcomeView {
    match inbound {
        InboundView::Message(MessageView::Binary(data)) => ReadOutcomeView::Data(
            served(pending + data, capacity),
        ),
        InboundView::Message(MessageView::Ping(payload)) => ReadOutcomeView::Reply(
            MessageView::Pong(payload),
        ),
        InboundView::Message(MessageView::Close) => ReadOutcomeView::Reply(MessageView::Close),
        InboundView::Message(_) => ReadOutcomeView::WouldBlock,
        InboundView::Closed => if pending.len() == 0 {
            ReadOutcomeView::EndOfStream
        } else {
            ReadOutcomeView::Data(served(pending, capacity))
        },
        InboundView::Failed(detail) => ReadOutcomeView::Failed(ws_error_text(detail)),
        InboundView::NotReady => ReadOutcomeView::WouldBlock,
    }
}

/// The bytes that `outcome` hands to the reader.
pub open spec fn delivered(outcome: ReadOutcomeView) -> Seq<u8> {
    match outcome {
        ReadOutcomeView::Data(bytes) => bytes,
        _ => Seq::empty(),
    }
}

/// The bytes that `inbound` adds to the stream.
pub open spec fn payload(inbound: InboundView) -> Seq<u8> {
    match inbound {
        InboundView::Message(MessageView::Binary(data)) => data,
        _ => Seq::empty(),
    }
}

/// The byte-stream adapter over a WebSocket: the bytes received in binary
/// messages and not yet read, oldest first.
#[derive(Debug)]
pub struct WsIo {
    read_buffer: Vec<u8>,
}

impl View for WsIo {
    type V = Seq<u8>;

    closed spec fn view(&self) -> Seq<u8> {
        self.read_buffer@
    }
}

impl WsIo {
    /// A bridge with nothing pending.
    pub fn new() -> (io: WsIo)
        ensures
            io@ == Seq::<u8>::empty(),
    {
        WsIo { read_buffer: Vec::new() }
    }

    /// How many received bytes wait to be read.
    pub fn pending_len(&self) -> (n: usize)
        ensures
            n == self@.len(),
    {
        self.read_buffer.len()
    }

    /// Removes the first `read_len(pending, capacity)` pending bytes and
    /// returns them.
    fn take_front(&mut self, capacity: usize) -> (front: Vec<u8>)
        ensures
            front@ == served(old(self)@, capacity),
            final(self)@ == kept(old(self)@, capacity),
    {
        let len: usize = if capacity <= self.read_buffer.len() {
            capacity
        } else {
            self.read_buffer.len()
        };
        let mut rest = self.read_buffer.split_off(len);
        std::mem::swap(&mut self.read_buffer, &mut rest);
        rest
    }

    /// The first half of a read: serves pending bytes, if there are any,
    /// without touching the transport.
    ///
    /// With bytes pending the result is `Some` of the first `capacity` of them
    /// (all of them if there are fewer), and the others stay pending in their
    /// order. With nothing pending the result is `None`, and the caller polls
    /// the message stream and goes on with [`WsIo::read_inbound`].
    pub fn read_buffered(&mut self, capacity: usize) -> (bytes: Option<Vec<u8>>)
        ensures
            old(self)@.len() > 0 ==> bytes is Some && bytes->0@ == served(old(self)@, capacity)
                && final(self)@ == kept(old(self)@, capacity),
            old(self)@.len() == 0 ==> bytes is None && final(self)@ == old(self)@,
    {
        if self.read_buffer.len() > 0 {
            Some(self.take_front(capacity))
        } else {
            None
        }
    }

    /// The second half of a read: takes what the message stream produced and
    /// says what the read comes to.
    ///
    /// A binary message joins the pending bytes and the read is served from
    /// them. A ping is answered by a pong with the same payload, a close by a
    /// close; neither delivers bytes. The end of the stream is the end of the
    /// byte stream only once nothing is pending: until then the pending bytes
    /// are served. A transport failure fails the read.
    pub fn read_inbound(&mut self, inbound: Inbound, capacity: usize) -> (outcome: ReadOutcome)
        ensures
            outcome@ == outcome_of(old(self)@, inbound@, capacity),
            final(self)@ == pending_after(old(self)@, inbound@, capacity),
    {
        match inbound {
            Inbound::Message(message) => match message {
                Message::Binary(data) => {
                    let mut data = data;
                    self.read_buffer.append(&mut data);
                    ReadOutcome::Data(self.take_front(capacity))
                },
                Message::Ping(payload) => ReadOutcome::Reply(Message::Pong(payload)),
                Message::Pong(_) => ReadOutcome::WouldBlock,
                Message::Close => ReadOutcome::Reply(Message::Close),
                Message::Text(_) => ReadOutcome::WouldBlock,
                Message::Frame => ReadOutcome::WouldBlock,
            },
            Inbound::Closed => {
                if self.read_buffer.len() == 0 {
                    ReadOutcome::EndOfStream
                } else {
                    ReadOutcome::Data(self.take_front(capacity))
                }
            },
            Inbound::Failed(detail) => ReadOutcome::Failed(map_ws_error(detail.as_str())),
            Inbound::NotReady => ReadOutcome::WouldBlock,
        }
    }

    /// How a read that asked for a reply ends, once the transport has taken
    /// the reply (`Ok`) or refused it (`Err` with the failure's text): it
    /// would block, or it fails.
    pub fn reply_sent(sent: Result<(), String>) -> (outcome: ReadOutcome)
        ensures
            outcome@ == match sent {
                Ok(_) => ReadOutcomeView::WouldBlock,
                Err(detail) => ReadOutcomeView::Failed(ws_error_text(detail@)),
            },
    {
        match sent {
            Ok(_) => ReadOutcome::WouldBlock,
            Err(detail) => ReadOutcome::Failed(map_ws_error(detail.as_str())),
        }
    }

    /// A write of `data`, given whether the sink can take a message: the
    /// bytes go out as one binary message holding exactly them; a sink that
    /// is not ready takes nothing; a failed sink fails the write.
    pub fn poll_write(ready: SinkReady, data: &[u8]) -> (outcome: WriteOutcome)
        ensures
            outcome@ == match ready {
                SinkReady::Ready => WriteOutcomeView::Send(MessageView::Binary(data@)),
                SinkReady::Failed(detail) => WriteOutcomeView::Failed(ws_error_text(detail@)),
                SinkReady::NotReady => WriteOutcomeView::WouldBlock,
            },
    {
        match ready {
            SinkReady::Ready => WriteOutcome::Send(Message::Binary(slice_to_vec(data))),
            SinkReady::Failed(detail) => WriteOutcome::Failed(map_ws_error(detail.as_str())),
            SinkReady::NotReady => WriteOutcome::WouldBlock,
        }
    }

    /// What a write of `data` reports once its message was handed to the
    /// transport: all of `data` written, or the failure.
    pub fn write_sent(sent: Result<(), String>, data: &[u8]) -> (written: Result<usize, BrokenPipe>)
        ensures
            match sent {
                Ok(_) => written is Ok && written->Ok_0 == data@.len(),
                Err(detail) => written is Err && written->Err_0@ == ws_error_text(detail@),
            },
    {
        match sent {
            Ok(_) => Ok(data.len()),
            Err(detail) => Err(map_ws_error(detail.as_str())),
        }
    }

    /// What a flush or a shutdown reports once the transport has flushed or
    /// closed its outbound side: success, or the failure.
    pub fn poll_complete(done: Result<(), String>) -> (result: Result<(), BrokenPipe>)
        ensures
            match done {
                Ok(_) => result is Ok,
                Err(detail) => result is Err && result->Err_0@ == ws_error_text(detail@),
            },
    {
        match done {
            Ok(_) => Ok(()),
            Err(detail) => Err(map_ws_error(detail.as_str())),
        }
    }
}

/// One read on the byte stream, as the transport's driver performs it.
pub enum Turn {
    /// The read was offered the pending bytes only.
    Buffered { capacity: usize },
    /// Nothing was pending, the stream was polled and produced `inbound`.
    Polled { inbound: InboundView, capacity: usize },
}

/// The pending bytes after `turn`.
pub open spec fn pending_after_turn(pending: Seq<u8>, turn: Turn) -> Seq<u8> {
    match turn {
        Turn::Buffered { capacity } => kept(pending, capacity),
        Turn::Polled { inbound, capacity } => pending_after(pending, inbound, capacity),
    }
}

/// The bytes handed to the reader in `turn`.
pub open spec fn delivered_in_turn(pending: Seq<u8>, turn: Turn) -> Seq<u8> {
    match turn {
        Turn::Buffered { capacity } => served(pending, capacity),
        Turn::Polled { inbound, capacity } => delivered(outcome_of(pending, inbound, capacity)),
    }
}

/// The bytes that arrived in `turn`.
pub open spec fn received_in_turn(turn: Turn) -> Seq<u8> {
    match turn {
        Turn::Buffered { .. } => Seq::empty(),
        Turn::Polled { inbound, .. } => payload(inbound),
    }
}

/// The pending bytes after all of `turns`, in order.
pub open spec fn pending_after_turns(pending: Seq<u8>, turns: Seq<Turn>) -> Seq<u8>
    decreases turns.len(),
{
    if turns.len() == 0 {
        pending
    } else {
        pending_after_turn(pending_after_turns(pending, turns.drop_last()), turns.last())
    }
}

/// All bytes handed to the reader over `turns`, in order.
pub open spec fn delivered_in_turns(pending: Seq<u8>, turns: Seq<Turn>) -> Seq<u8>
    decreases turns.len(),
{
    if turns.len() == 0 {
        Seq::empty()
    } else {
        delivered_in_turns(pending, turns.drop_last()) + delivered_in_turn(
            pending_after_turns(pending, turns.drop_last()),
            turns.last(),
        )
    }
}

/// All bytes that arrived over `turns`, in order.
pub open spec fn received_in_turns(turns: Seq<Turn>) -> Seq<u8>
    decreases turns.len(),
{
    if turns.len() == 0 {
        Seq::empty()
    } else {
        received_in_turns(turns.drop_last()) + received_in_turn(turns.last())
    }
}

/// A single read neither drops nor reorders bytes: what it delivers, followed
/// by what stays pending, is what was pending followed by what arrived.
pub proof fn lemma_read_keeps_bytes(pending: Seq<u8>, inbound: InboundView, capacity: usize)
    ensures
        delivered(outcome_of(pending, inbound, capacity)) + pending_after(
            pending,
            inbound,
            capacity,
        ) == pending + payload(inbound),
{
    match inbound {
        InboundView::Message(MessageView::Binary(data)) => {
            let all = pending + data;
            assert(served(all, capacity) + kept(all, capacity) == all);
        },
        InboundView::Closed => {
            assert(served(pending, capacity) + kept(pending, capacity) == pending);
            assert(pending + Seq::<u8>::empty() == pending);
        },
        _ => {
            assert(Seq::<u8>::empty() + pending == pending);
            assert(pending + Seq::<u8>::empty() == pending);
        },
    }
}

/// Over any run of reads the byte stream is the message stream: the bytes
/// delivered so far, followed by the bytes still pending, are the bytes that
/// were pending at the start followed by the payloads of the binary messages
/// that arrived, in their order, whatever the readers' capacities were.
pub proof fn lemma_stream_is_preserved(pending: Seq<u8>, turns: Seq<Turn>)
    ensures
        delivered_in_turns(pending, turns) + pending_after_turns(pending, turns) == pending
            + received_in_turns(turns),
    decreases turns.len(),
{
    if turns.len() == 0 {
        assert(Seq::<u8>::empty() + pending == pending);
        assert(pending + Seq::<u8>::empty() == pending);
    } else {
        let before = turns.drop_last();
        let turn = turns.last();
        lemma_stream_is_preserved(pending, before);
        let mid = pending_after_turns(pending, before);
        let done = delivered_in_turns(pending, before);
        assert(delivered_in_turn(mid, turn) + pending_after_turn(mid, turn) == mid
            + received_in_turn(turn)) by {
            match turn {
                Turn::Buffered { capacity } => {
                    assert(served(mid, capacity) + kept(mid, capacity) == mid);
                    assert(mid + Seq::<u8>::empty() == mid);
                },
                Turn::Polled { inbound, capacity } => {
                    lemma_read_keeps_bytes(mid, inbound, capacity);
                },
            }
        }
        assert((done + delivered_in_turn(mid, turn)) + pending_after_turn(mid, turn) == done + (
        delivered_in_turn(mid, turn) + pending_after_turn(mid, turn)));
        assert(done + (mid + received_in_turn(turn)) == (done + mid) + received_in_turn(turn));
        assert((pending + received_in_turns(before)) + received_in_turn(turn) == pending + (
        received_in_turns(before) + received_in_turn(turn)));
    }
}

/// A ping is answered by a pong that carries the ping's payload, and the
/// reader gets nothing in that turn: no byte is delivered, none is lost.
pub proof fn lemma_ping_is_echoed(pending: Seq<u8>, ping: Seq<u8>, capacity: usize)
    ensures
        outcome_of(pending, InboundView::Message(MessageView::Ping(ping)), capacity)
            == ReadOutcomeView::Reply(MessageView::Pong(ping)),
        delivered(outcome_of(pending, InboundView::Message(MessageView::Ping(ping)), capacity))
            == Seq::<u8>::empty(),
        pending_after(pending, InboundView::Message(MessageView::Ping(ping)), capacity) == pending,
{
}

/// The bytes that reads with room for `capacity` deliver, one after the
/// other, once the message stream has ended, up to the end of the byte stream.
pub open spec fn drained(pending: Seq<u8>, capacity: usize) -> Seq<u8>
    decreases pending.len(),
{
    if pending.len() == 0 || capacity == 0 {
        Seq::empty()
    } else {
        delivered(outcome_of(pending, InboundView::Closed, capacity)) + drained(
            pending_after(pending, InboundView::Closed, capacity),
            capacity,
        )
    }
}

/// After the message stream has ended, the end of the byte stream is reported
/// exactly when nothing is pending; until then every read with room delivers
/// at least one pending byte, and the reads together deliver all of them in
/// order.
pub proof fn lemma_end_of_stream_after_drain(pending: Seq<u8>, capacity: usize)
    ensures
        outcome_of(pending, InboundView::Closed, capacity) == ReadOutcomeView::EndOfStream
            <==> pending.len() == 0,
        pending.len() > 0 ==> outcome_of(pending, InboundView::Closed, capacity)
            == ReadOutcomeView::Data(served(pending, capacity)),
        pending.len() > 0 && capacity > 0 ==> served(pending, capacity).len() > 0
            && pending_after(pending, InboundView::Closed, capacity).len() < pending.len(),
        capacity > 0 ==> drained(pending, capacity) == pending,
    decreases pending.len(),
{
    if pending.len() > 0 && capacity > 0 {
        let rest = pending_after(pending, InboundView::Closed, capacity);
        lemma_end_of_stream_after_drain(rest, capacity);
        assert(served(pending, capacity) + kept(pending, capacity) == pending);
    }
}

} // verus!
