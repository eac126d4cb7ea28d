//! The duplex chat channel: decisions on what the socket delivers and on
//! closing it, as steps over the channel's phase.

use vstd::prelude::*;
use vstd::string::to_string_from_display_ensures;

use crate::error::Error;
use crate::json::{json_bytes_parse, json_of, json_of_bytes, json_text_parses, parse_json_bytes, Json};

verus! {

/// Close code sent when the client leaves ("going away").
pub const CLOSE_GOING_AWAY: u16 = 1001;

/// A frame as the socket delivers it.
#[derive(Debug, Clone)]
pub enum Frame {
    Text(String),
    Binary(Vec<u8>),
    Ping(Vec<u8>),
    Pong(Vec<u8>),
    Close { code: u16, reason: String },
}

/// What one read of the socket gave.
#[derive(Debug, Clone)]
pub enum Inbound {
    /// A frame arrived.
    Frame(Frame),
    /// The transport failed on this read.
    Failed(String),
    /// The remote end finished the stream.
    Ended,
}

/// Where a channel stands in its lifecycle.
#[derive(Debug, Copy, Clone, PartialEq, Eq, Structural)]
pub enum Phase {
    /// Reading and writing.
    Open,
    /// The remote end finished the inbound stream.
    Ended,
    /// A close signal was sent; the socket is not yet released.
    Closing,
    /// The socket is released.
    Closed,
}

/// What a read yields, as the laws see it.
#[derive(Debug)]
pub enum Yield {
    /// No item: the inbound sequence is over.
    End,
    /// A decoded JSON message.
    Message(Json),
    /// A frame that is not JSON.
    DecodeError,
    /// A transport failure.
    TransportError,
}

/// The JSON value a frame holds, where it holds one.
pub open spec fn frame_value(f: Frame) -> Option<Json> {
    match f {
        Frame::Text(s) => if json_text_parses(s@) {
            Some(json_of(s@))
        } else {
            None
        },
        Frame::Binary(b) => if json_bytes_parse(b@) {
            Some(json_of_bytes(b@))
        } else {
            None
        },
        _ => None,
    }
}

/// Whether a frame holds one JSON value.
pub open spec fn frame_decodes(f: Frame) -> bool {
    frame_value(f) is Some
}

/// The phase after a read, and what the read yields.
pub open spec fn read_step(phase: Phase, ev: Inbound) -> (Phase, Yield) {
    match phase {
        Phase::Open => match ev {
            Inbound::Ended => (Phase::Ended, Yield::End),
            Inbound::Failed(_) => (Phase::Open, Yield::TransportError),
            Inbound::Frame(f) => (
                Phase::Open,
                match frame_value(f) {
                    Some(v) => Yield::Message(v),
                    None => Yield::DecodeError,
                },
            ),
        },
        _ => (phase, Yield::End),
    }
}

/// The phase after a close request, and whether a close signal is sent.
pub open spec fn close_step(phase: Phase) -> (Phase, bool) {
    match phase {
        Phase::Open | Phase::Ended => (Phase::Closing, true),
        _ => (phase, false),
    }
}

/// The phase after the close signal went out, and whether the socket is
/// released now.
pub open spec fn finish_step(phase: Phase) -> (Phase, bool) {
    match phase {
        Phase::Closing => (Phase::Closed, true),
        _ => (phase, false),
    }
}

/// How an item handed out by the channel is seen by the laws.
pub open spec fn yield_of(r: Option<Result<Json, Error>>) -> Yield {
    match r {
        None => Yield::End,
        Some(Ok(v)) => Yield::Message(v),
        Some(Err(Error::Decode(_))) => Yield::DecodeError,
        Some(Err(_)) => Yield::TransportError,
    }
}

/// The state of one channel over one socket.
#[derive(Debug)]
pub struct Channel {
    pub phase: Phase,
}

fn decode_frame(f: Frame) -> (r: Result<Json, Error>)
    ensures
        r is Ok <==> frame_value(f) is Some,
        r is Ok ==> frame_value(f) == Some(r->Ok_0),
        r is Err ==> r->Err_0 is Decode,
{
    let parsed = match f {
        Frame::Text(s) => Json::parse(s.as_str()),
        Frame::Binary(b) => parse_json_bytes(b.as_slice()),
        _ => Err(String::from_str("neither text nor binary")),
    };
    match parsed {
        Ok(v) => Ok(v),
        Err(m) => Err(Error::Decode(m)),
    }
}

impl Channel {
    /// A channel over a freshly opened socket.
    pub fn new() -> (r: Channel)
        ensures
            r.phase == Phase::Open,
    {
        Channel { phase: Phase::Open }
    }

    /// Whether the socket is to be read at all: only while open.
    pub fn reads_socket(&self) -> (r: bool)
        ensures
            r == (self.phase == Phase::Open),
    {
        self.phase == Phase::Open
    }

    /// Takes what one read of the socket gave and returns the next item of
    /// the inbound sequence, or `None` where the sequence is over. A frame
    /// that is not JSON gives a decode error and the channel stays open.
    pub fn receive(&mut self, ev: Inbound) -> (r: Option<Result<Json, Error>>)
        ensures
            (final(self).phase, yield_of(r)) == read_step(old(self).phase, ev),
            ev matches Inbound::Failed(m) ==> (r is None || (r matches Some(Err(Error::Ws(x)))
                && x@ == m@)),
    {
        if self.phase != Phase::Open {
            return None;
        }
        match ev {
            Inbound::Ended => {
                self.phase = Phase::Ended;
                None
            },
            Inbound::Failed(m) => Some(Err(Error::Ws(m))),
            Inbound::Frame(f) => Some(decode_frame(f)),
        }
    }

    /// Whether outbound messages are taken: until closing begins.
    pub open spec fn accepts_outbound(&self) -> bool {
        self.phase == Phase::Open || self.phase == Phase::Ended
    }

    /// The text frame that carries an outbound message, or an error once
    /// closing has begun.
    pub fn outbound(&self, item: &serde_json::Value) -> (r: Result<Frame, Error>)
        ensures
            r is Ok <==> self.accepts_outbound(),
            r matches Ok(f) ==> (f matches Frame::Text(s) && to_string_from_display_ensures::<
                serde_json::Value,
            >(item, s)),
            r matches Err(e) ==> e is Ws,
    {
        match self.phase {
            Phase::Open | Phase::Ended => Ok(Frame::Text(item.to_string())),
            _ => Err(Error::Ws(String::from_str("the channel is closed"))),
        }
    }

    /// Asks to close; `true` when the caller is to send the close signal
    /// (code [`CLOSE_GOING_AWAY`]), `false` when closing has already begun.
    pub fn begin_close(&mut self) -> (r: bool)
        ensures
            (final(self).phase, r) == close_step(old(self).phase),
    {
        match self.phase {
            Phase::Open | Phase::Ended => {
                self.phase = Phase::Closing;
                true
            },
            _ => false,
        }
    }

    /// Records how sending the close signal went. Returns `Some` with that
    /// outcome when the socket is to be released now, `None` when there is
    /// nothing to release (no close begun, or already released).
    pub fn finish_close(&mut self, outcome: Result<(), String>) -> (r: Option<Result<(), Error>>)
        ensures
            (final(self).phase, r is Some) == finish_step(old(self).phase),
            r matches Some(x) ==> match outcome {
                Ok(_) => x is Ok,
                Err(m) => x matches Err(Error::Ws(e)) && e@ == m@,
            },
    {
        match self.phase {
            Phase::Closing => {
                self.phase = Phase::Closed;
                match outcome {
                    Ok(_) => Some(Ok(())),
                    Err(m) => Some(Err(Error::Ws(m))),
                }
            },
            _ => None,
        }
    }
}

/// One thing that happens to a channel: a read completes, the owner asks to
/// close, or the close signal has gone out.
#[derive(Debug, Clone)]
pub enum Event {
    Read(Inbound),
    Close,
    CloseSent,
}

/// What the channel does in answer to an event.
#[derive(Debug)]
pub enum Output {
    Yielded(Yield),
    CloseSignal,
    Release,
    Nothing,
}

/// One step of a channel, as [`Channel::receive`], [`Channel::begin_close`]
/// and [`Channel::finish_close`] take it.
pub open spec fn step(phase: Phase, ev: Event) -> (Phase, Output) {
    match ev {
        Event::Read(i) => (read_step(phase, i).0, Output::Yielded(read_step(phase, i).1)),
        Event::Close => (
            close_step(phase).0,
            if close_step(phase).1 {
                Output::CloseSignal
            } else {
                Output::Nothing
            },
        ),
        Event::CloseSent => (
            finish_step(phase).0,
            if finish_step(phase).1 {
                Output::Release
            } else {
                Output::Nothing
            },
        ),
    }
}

/// What a channel in `phase` does over a sequence of events.
pub open spec fn run(phase: Phase, evs: Seq<Event>) -> Seq<Output>
    decreases evs.len(),
{
    if evs.len() == 0 {
        Seq::empty()
    } else {
        seq![step(phase, evs[0]).1] + run(step(phase, evs[0]).0, evs.drop_first())
    }
}

/// The phase of a channel in `phase` after a sequence of events.
pub open spec fn phase_after(phase: Phase, evs: Seq<Event>) -> Phase
    decreases evs.len(),
{
    if evs.len() == 0 {
        phase
    } else {
        phase_after(step(phase, evs[0]).0, evs.drop_first())
    }
}

/// How many times the socket is released.
pub open spec fn releases(outs: Seq<Output>) -> nat
    decreases outs.len(),
{
    if outs.len() == 0 {
        0
    } else {
        (if outs[0] == Output::Release {
            1nat
        } else {
            0nat
        }) + releases(outs.drop_first())
    }
}

/// How many items the inbound sequence hands out.
pub open spec fn items(outs: Seq<Output>) -> nat
    decreases outs.len(),
{
    if outs.len() == 0 {
        0
    } else {
        (if outs[0] is Yielded && outs[0] != Output::Yielded(Yield::End) {
            1nat
        } else {
            0nat
        }) + items(outs.drop_first())
    }
}

proof fn lemma_counts_of_cons(o: Output, rest: Seq<Output>)
    ensures
        releases(seq![o] + rest) == (if o == Output::Release {
            1nat
        } else {
            0nat
        }) + releases(rest),
        items(seq![o] + rest) == (if o is Yielded && o != Output::Yielded(Yield::End) {
            1nat
        } else {
            0nat
        }) + items(rest),
{
    assert((seq![o] + rest).drop_first() =~= rest);
}

/// A released channel stays released: whatever is asked of it afterwards,
/// reads or close requests, it hands out no item and releases nothing.
pub proof fn lemma_closed_channel_is_silent(evs: Seq<Event>)
    ensures
        items(run(Phase::Closed, evs)) == 0,
        releases(run(Phase::Closed, evs)) == 0,
        phase_after(Phase::Closed, evs) == Phase::Closed,
    decreases evs.len(),
{
    if evs.len() > 0 {
        lemma_closed_channel_is_silent(evs.drop_first());
        lemma_counts_of_cons(step(Phase::Closed, evs[0]).1, run(Phase::Closed, evs.drop_first()));
    }
}

/// Once closing has begun, reads that complete, in flight or later, hand out
/// no item.
pub proof fn lemma_closing_channel_yields_nothing(evs: Seq<Event>)
    ensures
        items(run(Phase::Closing, evs)) == 0,
    decreases evs.len(),
{
    if evs.len() > 0 {
        let (p, o) = step(Phase::Closing, evs[0]);
        if p == Phase::Closed {
            lemma_closed_channel_is_silent(evs.drop_first());
        } else {
            lemma_closing_channel_yields_nothing(evs.drop_first());
        }
        lemma_counts_of_cons(o, run(p, evs.drop_first()));
    }
}

/// Over any interleaving of reads and close requests the socket is released
/// at most once, and a channel that ends closed was released exactly once.
pub proof fn lemma_released_once(phase: Phase, evs: Seq<Event>)
    ensures
        releases(run(phase, evs)) <= 1,
        phase != Phase::Closed && phase_after(phase, evs) == Phase::Closed ==> releases(
            run(phase, evs),
        ) == 1,
    decreases evs.len(),
{
    if phase == Phase::Closed {
        lemma_closed_channel_is_silent(evs);
    } else if evs.len() > 0 {
        let (p, o) = step(phase, evs[0]);
        lemma_counts_of_cons(o, run(p, evs.drop_first()));
        if o == Output::Release {
            lemma_closed_channel_is_silent(evs.drop_first());
        } else {
            lemma_released_once(p, evs.drop_first());
        }
    }
}

/// A frame that is not JSON gives exactly one decode error, and the channel
/// goes on as before: every later read is answered as if that frame had not
/// come.
pub proof fn lemma_bad_frame_keeps_channel_open(f: Frame, evs: Seq<Event>)
    requires
        !frame_decodes(f),
    ensures
        step(Phase::Open, Event::Read(Inbound::Frame(f))) == (
            Phase::Open,
            Output::Yielded(Yield::DecodeError),
        ),
        run(Phase::Open, seq![Event::Read(Inbound::Frame(f))] + evs) == seq![
            Output::Yielded(Yield::DecodeError),
        ] + run(Phase::Open, evs),
        items(run(Phase::Open, seq![Event::Read(Inbound::Frame(f))] + evs)) == 1 + items(
            run(Phase::Open, evs),
        ),
{
    let all = seq![Event::Read(Inbound::Frame(f))] + evs;
    assert(all.drop_first() =~= evs);
    lemma_counts_of_cons(Output::Yielded(Yield::DecodeError), run(Phase::Open, evs));
}


/// What reading one frame from an open channel yields.
pub open spec fn frame_yield(f: Frame) -> Output {
    match frame_value(f) {
        Some(v) => Output::Yielded(Yield::Message(v)),
        None => Output::Yielded(Yield::DecodeError),
    }
}

/// Frames read from an open channel are answered one item each, in order:
/// the value each frame holds, or a decode error for one that holds none;
/// none is lost, repeated or swapped, and the channel stays open.
pub proof fn lemma_frames_in_order(frames: Seq<Frame>)
    ensures
        run(Phase::Open, frames.map_values(|f: Frame| Event::Read(Inbound::Frame(f))))
            == frames.map_values(|f: Frame| frame_yield(f)),
        phase_after(Phase::Open, frames.map_values(|f: Frame| Event::Read(Inbound::Frame(f))))
            == Phase::Open,
    decreases frames.len(),
{
    let evs = frames.map_values(|f: Frame| Event::Read(Inbound::Frame(f)));
    let outs = frames.map_values(|f: Frame| frame_yield(f));
    if frames.len() == 0 {
        assert(outs =~= Seq::<Output>::empty());
    } else {
        let rest = frames.drop_first();
        lemma_frames_in_order(rest);
        assert(evs.drop_first() =~= rest.map_values(|f: Frame| Event::Read(Inbound::Frame(f))));
        assert(outs =~= seq![frame_yield(frames[0])] + rest.map_values(|f: Frame| frame_yield(f)));
    }
}

} // verus!
