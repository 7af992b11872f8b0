//! Relaying one output stream of a running process to a shared sink.
//!
//! A relay reads from the stream into a small buffer and hands what it read to the sink, over
//! and over, until the stream ends or an I/O error occurs. Reading and writing happen
//! elsewhere: here is the rule that says, for the outcome of each read or write, what the
//! relay does next.

use vstd::prelude::*;
use crate::error::{unit_result_view, Error, ErrorView};
use crate::run::io_failure;

verus! {

/// The size of the buffer that a relay reads into. One byte at a time keeps the output of
/// the two streams and of the tool itself interleaved as it was produced.
pub const BUFFER_SIZE: usize = 1;

/// What happened to a relay since its last step.
pub enum RelayEvent {
    /// A read succeeded and gave these bytes; none at the end of the stream.
    Read(Vec<u8>),
    /// A read failed with an I/O error of this text.
    ReadFailed(String),
    /// Writing to the sink or flushing it failed with an I/O error of this text.
    WriteFailed(String),
}

/// What a relay does next.
pub enum RelayAction {
    /// Take the sink's lock, write these bytes, flush, release the lock, and read again.
    Write(Vec<u8>),
    /// Stop with this outcome.
    Stop(Result<(), Error>),
}

/// What a [`RelayEvent`] holds, as mathematical values.
pub enum RelayEventView {
    /// A read gave these bytes.
    Read(Seq<u8>),
    /// A read failed.
    ReadFailed(Seq<char>),
    /// A write or flush failed.
    WriteFailed(Seq<char>),
}

/// What a [`RelayAction`] holds, as mathematical values.
pub enum RelayActionView {
    /// Write these bytes and go on.
    Write(Seq<u8>),
    /// Stop with this outcome.
    Stop(Result<(), ErrorView>),
}

impl View for RelayEvent {
    type V = RelayEventView;

    open spec fn view(&self) -> RelayEventView {
        match *self {
            RelayEvent::Read(bytes) => RelayEventView::Read(bytes@),
            RelayEvent::ReadFailed(text) => RelayEventView::ReadFailed(text@),
            RelayEvent::WriteFailed(text) => RelayEventView::WriteFailed(text@),
        }
    }
}

impl View for RelayAction {
    type V = RelayActionView;

    open spec fn view(&self) -> RelayActionView {
        match *self {
            RelayAction::Write(bytes) => RelayActionView::Write(bytes@),
            RelayAction::Stop(outcome) => RelayActionView::Stop(unit_result_view(outcome)),
        }
    }
}

/// What a relay does after `event`: bytes that were read are written as they are, a read
/// that gave nothing ends the relay normally, and an I/O error ends it with a failure of
/// code 1 that carries the error's text.
pub open spec fn relay_action(event: RelayEventView) -> RelayActionView {
    match event {
        RelayEventView::Read(bytes) => if bytes.len() == 0 {
            RelayActionView::Stop(Ok(()))
        } else {
            RelayActionView::Write(bytes)
        },
        RelayEventView::ReadFailed(text) => RelayActionView::Stop(Err(io_failure(text))),
        RelayEventView::WriteFailed(text) => RelayActionView::Stop(Err(io_failure(text))),
    }
}

/// What a relay does after `event`.
pub fn relay(event: RelayEvent) -> (action: RelayAction)
    ensures
        action@ == relay_action(event@),
{
    match event {
        RelayEvent::Read(bytes) => {
            if bytes.len() == 0 {
                RelayAction::Stop(Ok(()))
            } else {
                RelayAction::Write(bytes)
            }
        },
        RelayEvent::ReadFailed(text) => RelayAction::Stop(Err(Error::new(1).with_message(text))),
        RelayEvent::WriteFailed(text) => RelayAction::Stop(Err(Error::new(1).with_message(text))),
    }
}

/// What a relay has done over a series of events.
pub struct Relayed {
    /// The bytes it handed to the sink, in order.
    pub written: Seq<u8>,
    /// How it stopped, if it did.
    pub outcome: Option<Result<(), ErrorView>>,
}

/// What a relay does over `events`, taken in order: it follows `relay_action` for each until
/// one makes it stop.
pub open spec fn relayed(events: Seq<RelayEventView>) -> Relayed
    decreases events.len(),
{
    if events.len() == 0 {
        Relayed { written: Seq::empty(), outcome: None }
    } else {
        match relay_action(events.first()) {
            RelayActionView::Write(bytes) => {
                let rest = relayed(events.drop_first());
                Relayed { written: bytes + rest.written, outcome: rest.outcome }
            },
            RelayActionView::Stop(outcome) => Relayed {
                written: Seq::empty(),
                outcome: Some(outcome),
            },
        }
    }
}

/// The chunks one after the other, as one sequence of bytes.
pub open spec fn joined(chunks: Seq<Seq<u8>>) -> Seq<u8>
    decreases chunks.len(),
{
    if chunks.len() == 0 {
        Seq::empty()
    } else {
        chunks.first() + joined(chunks.drop_first())
    }
}

/// The events of a stream that gives `chunks`, one per read, and then ends.
pub open spec fn stream_events(chunks: Seq<Seq<u8>>) -> Seq<RelayEventView> {
    Seq::new(
        chunks.len() + 1,
        |i: int|
            if i < chunks.len() {
                RelayEventView::Read(chunks[i])
            } else {
                RelayEventView::Read(Seq::empty())
            },
    )
}

/// A relay loses nothing: where every read gives at least one byte until the stream ends,
/// and no I/O error occurs, the relay writes every byte that was read, in the order in which
/// it was read, and then stops normally.
pub proof fn relay_keeps_every_byte(chunks: Seq<Seq<u8>>)
    requires
        forall|i: int| 0 <= i < chunks.len() ==> (#[trigger] chunks[i]).len() > 0,
    ensures
        relayed(stream_events(chunks)).written == joined(chunks),
        relayed(stream_events(chunks)).outcome == Some(Ok::<(), ErrorView>(())),
    decreases chunks.len(),
{
    let events = stream_events(chunks);
    if chunks.len() == 0 {
        assert(events.first() == RelayEventView::Read(Seq::empty()));
    } else {
        let rest = chunks.drop_first();
        assert(events.first() == RelayEventView::Read(chunks[0]));
        assert(events.drop_first() =~= stream_events(rest));
        assert forall|i: int| 0 <= i < rest.len() implies (#[trigger] rest[i]).len() > 0 by {
            assert(rest[i] == chunks[i + 1]);
        }
        relay_keeps_every_byte(rest);
    }
}

} // verus!
