use vstd::prelude::*;
use crate::frame::{
    MAX_FRAME_LEN, decode_frame, decode_frame_at, encode_frame, frame_body,
    frame_header, frame_of, frame_ready, is_frame_ready, bad_prefix, has_bad_prefix,
};
use crate::message::{Message, decode_message, type_code};
use crate::wire::{FieldV, ProtocolError, encode_fields, fields_fit};
use crate::message::MsgType;
use crate::msg;
use crate::wire::read32;

verus! {

/// What one non-blocking read attempt on the socket gave.
#[derive(Debug)]
pub enum ReadOutcome {
    /// Bytes arrived.
    Data(Vec<u8>),
    /// Nothing to read now.
    WouldBlock,
    /// The peer closed the connection in order.
    Closed,
    /// The socket failed.
    Failed,
}

/// Model of a channel.
pub struct ChannelView {
    pub fd: i32,
    /// Received bytes not yet taken as messages.
    pub buffer: Seq<u8>,
    /// Bulk-transfer framing; once set it stays set.
    pub bulk: bool,
    /// The peer has closed the connection in order.
    pub peer_closed: bool,
    /// A socket error or a corrupt frame has closed the channel.
    pub failed: bool,
}

/// Message channel over one connected socket. The caller performs the
/// socket I/O and hands the outcome of each read to the channel; the
/// channel buffers partial frames, decodes whole ones and frames outgoing
/// messages.
pub struct MessageChannel {
    fd: i32,
    buffer: Vec<u8>,
    bulk: bool,
    peer_closed: bool,
    failed: bool,
}

impl View for MessageChannel {
    type V = ChannelView;

    closed spec fn view(&self) -> ChannelView {
        ChannelView {
            fd: self.fd,
            buffer: self.buffer@,
            bulk: self.bulk,
            peer_closed: self.peer_closed,
            failed: self.failed,
        }
    }
}

pub open spec fn is_open(v: ChannelView) -> bool {
    !v.peer_closed && !v.failed
}

/// The peer has gone, or the channel failed, and no whole frame is left.
pub open spec fn at_eof(v: ChannelView) -> bool {
    !is_open(v) && !frame_ready(v.buffer)
}

/// The channel after one read outcome: bytes are appended while it is
/// open; a closed channel takes nothing more.
pub open spec fn after_read(v: ChannelView, input: ReadOutcome) -> ChannelView {
    if !is_open(v) {
        v
    } else {
        match input {
            ReadOutcome::Data(d) => ChannelView { buffer: v.buffer + d@, ..v },
            ReadOutcome::WouldBlock => v,
            ReadOutcome::Closed => ChannelView { peer_closed: true, ..v },
            ReadOutcome::Failed => ChannelView { failed: true, ..v },
        }
    }
}

/// The channel after one read outcome, closed where its buffer now starts
/// with a length prefix out of range.
pub open spec fn read_step(v: ChannelView, input: ReadOutcome) -> ChannelView {
    let w = after_read(v, input);
    if bad_prefix(w.buffer) {
        failed_view(w)
    } else {
        w
    }
}

/// The channel once it has failed: closed, with its buffer dropped.
pub open spec fn failed_view(v: ChannelView) -> ChannelView {
    ChannelView { failed: true, buffer: Seq::empty(), ..v }
}

/// Once at end of input, a channel stays there whatever is read, and
/// `recv` yields nothing and changes nothing.
pub proof fn lemma_eof_is_final(v: ChannelView, input: ReadOutcome)
    requires
        at_eof(v),
    ensures
        at_eof(read_step(v, input)),
        at_eof(recv_step(v).0),
        recv_step(v) == (v, None::<(MsgType, Seq<FieldV>)>),
{
}

/// A frame that encodes a message, received into an empty buffer or after
/// earlier frames were taken, is read back by `recv` as that message; the
/// bytes after it stay buffered.
pub proof fn lemma_recv_yields_sent_message(v: ChannelView, m: Message, f: Seq<u8>, rest: Seq<u8>)
    requires
        fields_fit(m@.1),
        decode_frame(f) == Ok::<(u32, Seq<u8>, int), ProtocolError>(
            (type_code(m@.0), encode_fields(m@.1), f.len() as int),
        ),
    ensures
        recv_step(ChannelView { buffer: f + rest, ..v }) == (
            ChannelView { buffer: rest, ..v },
            Some(m@),
        ),
{
    let s = f + rest;
    let n = read32(f);
    assert(read32(s) == n);
    assert(s.skip(4).subrange(0, 4) =~= f.skip(4).subrange(0, 4));
    assert(read32(s.skip(4)) == read32(f.skip(4)));
    assert(s.subrange(8, 4 + n) =~= f.subrange(8, 4 + n));
    assert(decode_frame(s) == decode_frame(f));
    assert(s.skip(f.len() as int) =~= rest);
    crate::message::lemma_message_round_trip(m);
}

/// A `MonitorStats` reply from the peer is received as a `MonitorStats`
/// message with the same host id and text.
pub proof fn lemma_monitor_stats_reply(
    v: ChannelView,
    sent: msg::MonitorStats,
    f: Seq<u8>,
    got: Message,
)
    requires
        fields_fit(Message::MonitorStats(sent)@.1),
        decode_frame(f) == Ok::<(u32, Seq<u8>, int), ProtocolError>(
            (
                type_code(MsgType::MonStats),
                encode_fields(Message::MonitorStats(sent)@.1),
                f.len() as int,
            ),
        ),
        recv_step(ChannelView { buffer: f, ..v }).1 == Some(got@),
    ensures
        got matches Message::MonitorStats(s) && s.host_id == sent.host_id && s.message@
            == sent.message@,
{
    lemma_recv_yields_sent_message(v, Message::MonitorStats(sent), f, Seq::empty());
    assert(f + Seq::<u8>::empty() =~= f);
    let gv = got@;
    assert(gv.0 == MsgType::MonStats);
    assert(gv.1[0] == FieldV::Num(sent.host_id));
    assert(gv.1[1] == FieldV::Text(sent.message@));
}

/// What `recv` does: without a ready frame, nothing; with one, the frame
/// leaves the buffer and its message is returned; a frame that does not
/// decode closes the channel.
pub open spec fn recv_step(v: ChannelView) -> (ChannelView, Option<(MsgType, Seq<FieldV>)>) {
    if !frame_ready(v.buffer) {
        (v, None)
    } else {
        match decode_frame(v.buffer) {
            Ok((t, p, n)) => match decode_message(t, p) {
                Ok(m) => (ChannelView { buffer: v.buffer.skip(n), ..v }, Some(m)),
                Err(_) => (failed_view(v), None),
            },
            Err(_) => (failed_view(v), None),
        }
    }
}

impl MessageChannel {
    /// Model of a fresh channel over `fd`.
    pub open spec fn from_raw_ptr_view(fd: i32) -> ChannelView {
        ChannelView { fd: fd, buffer: Seq::empty(), bulk: false, peer_closed: false, failed: false }
    }

    /// A channel over the connected socket `fd`, open, in normal framing
    /// and with nothing buffered.
    pub fn from_raw_ptr(fd: i32) -> (r: MessageChannel)
        ensures
            r@ == Self::from_raw_ptr_view(fd),
    {
        let r = MessageChannel {
            fd,
            buffer: Vec::new(),
            bulk: false,
            peer_closed: false,
            failed: false,
        };
        assert(r@.buffer =~= Seq::<u8>::empty());
        r
    }

    /// The socket, for readiness polling by the caller.
    pub fn fd(&self) -> (r: i32)
        ensures
            r == self@.fd,
    {
        self.fd
    }

    /// Switches to bulk-transfer framing for good.
    pub fn bulk_transfer(&mut self)
        ensures
            final(self)@ == (ChannelView { bulk: true, ..old(self)@ }),
    {
        self.bulk = true;
    }

    pub fn is_bulk(&self) -> (r: bool)
        ensures
            r == self@.bulk,
    {
        self.bulk
    }

    /// Takes the outcome of one non-blocking read; returns whether a whole
    /// frame is now buffered. A length prefix out of range is a malformed
    /// frame: the channel closes and drops what it buffered.
    pub fn read_a_bit(&mut self, input: ReadOutcome) -> (r: bool)
        ensures
            final(self)@ == read_step(old(self)@, input),
            r == frame_ready(final(self)@.buffer),
            ({
                let v = after_read(old(self)@, input);
                bad_prefix(v.buffer) ==> final(self)@ == failed_view(v) && !r
            }),
            at_eof(old(self)@) ==> at_eof(final(self)@),
    {
        if !self.peer_closed && !self.failed {
            match input {
                ReadOutcome::Data(d) => {
                    crate::wire::append_bytes(&mut self.buffer, d.as_slice());
                    assert(self@ == after_read(old(self)@, ReadOutcome::Data(d)));
                },
                ReadOutcome::WouldBlock => {},
                ReadOutcome::Closed => {
                    self.peer_closed = true;
                },
                ReadOutcome::Failed => {
                    self.failed = true;
                },
            }
        }
        if has_bad_prefix(self.buffer.as_slice()) {
            self.fail();
            return false;
        }
        is_frame_ready(self.buffer.as_slice())
    }

    /// Whether a whole frame is buffered.
    pub fn has_message(&self) -> (r: bool)
        ensures
            r == frame_ready(self@.buffer),
    {
        is_frame_ready(self.buffer.as_slice())
    }

    /// Whether the peer has gone, or the channel failed, with no whole frame
    /// left to read.
    pub fn eof(&self) -> (r: bool)
        ensures
            r == at_eof(self@),
    {
        (self.peer_closed || self.failed) && !is_frame_ready(self.buffer.as_slice())
    }

    /// Whether the peer has closed, or the channel has failed.
    pub fn is_closed(&self) -> (r: bool)
        ensures
            r == !is_open(self@),
    {
        self.peer_closed || self.failed
    }

    /// The protocol is binary.
    pub fn is_text_based(&self) -> (r: bool)
        ensures
            !r,
    {
        false
    }

    /// A write to the socket failed: the channel closes.
    pub fn write_failed(&mut self)
        ensures
            final(self)@ == (ChannelView { failed: true, ..old(self)@ }),
            at_eof(old(self)@) ==> at_eof(final(self)@),
    {
        self.failed = true;
    }

    /// Takes the next buffered message, if a whole frame is there. Performs
    /// no I/O. A frame that does not decode closes the channel.
    pub fn recv(&mut self) -> (r: Option<Message>)
        ensures
            final(self)@ == recv_step(old(self)@).0,
            match recv_step(old(self)@).1 {
                None => r is None,
                Some(v) => r matches Some(m) && m@ == v,
            },
            at_eof(old(self)@) ==> r is None && at_eof(final(self)@),
    {
        if !is_frame_ready(self.buffer.as_slice()) {
            return None;
        }
        match decode_frame_at(self.buffer.as_slice()) {
            Ok((raw, n)) => {
                match Message::from_raw_ptr(&raw) {
                    Ok(m) => {
                        let rest = self.buffer.split_off(n);
                        self.buffer = rest;
                        Some(m)
                    },
                    Err(_) => {
                        self.fail();
                        None
                    },
                }
            },
            Err(_) => {
                self.fail();
                None
            },
        }
    }

    fn fail(&mut self)
        ensures
            final(self)@ == failed_view(old(self)@),
    {
        self.failed = true;
        self.buffer = Vec::new();
        assert(self@.buffer =~= Seq::<u8>::empty());
    }

    /// The bytes to write for `message`, framed in the channel's mode. None
    /// where the channel is closed, a field is too long for its length
    /// prefix, or the frame would be too large. The channel is unchanged.
    pub fn send(&self, message: &Message) -> (r: Option<Vec<u8>>)
        ensures
            r is Some <==> is_open(self@) && fields_fit(message@.1) && encode_fields(
                message@.1,
            ).len() <= MAX_FRAME_LEN && frame_body(encode_fields(message@.1), self@.bulk).len()
                + 4 <= MAX_FRAME_LEN,
            r matches Some(b) ==> b@ == frame_of(
                frame_header(type_code(message@.0), encode_fields(message@.1), self@.bulk),
                frame_body(encode_fields(message@.1), self@.bulk),
            ),
            r matches Some(b) ==> decode_frame(b@) == Ok::<(u32, Seq<u8>, int), ProtocolError>(
                (type_code(message@.0), encode_fields(message@.1), b@.len() as int),
            ),
    {
        if self.peer_closed || self.failed {
            return None;
        }
        let raw = match message.as_raw_ptr() {
            None => return None,
            Some(raw) => raw,
        };
        proof {
            crate::message::lemma_code_below_flag(message@.0);
        }
        match encode_frame(raw.tag, raw.payload.as_slice(), self.bulk) {
            Ok(b) => Some(b),
            Err(_) => None,
        }
    }
}

} // verus!
