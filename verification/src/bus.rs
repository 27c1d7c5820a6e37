//! Caller-supplied collaborators: the serial bus and the chip-select pin.
//!
//! The transfer engine is generic over both. An implementation maintains, as
//! part of its specification, a log of the byte buffers it has exchanged:
//! `sent_log` holds what each successful transfer clocked out, `recv_log`
//! what it clocked in, in transfer order. The engine's contracts are stated
//! over those logs, so chain order and checksum checking are visible to
//! callers whatever the hardware returns.

use vstd::prelude::*;

verus! {

/// A blocking full-duplex transfer over a mutable byte buffer: the buffer's
/// bytes are clocked out and replaced in place by the bytes clocked in.
pub trait SpiBus: Sized {
    /// The bus-specific failure value.
    type Fault;

    /// The buffers clocked out by successful transfers so far, oldest first.
    spec fn sent_log(&self) -> Seq<Seq<u8>>;

    /// The buffers clocked in by successful transfers so far, oldest first.
    spec fn recv_log(&self) -> Seq<Seq<u8>>;

    /// Performs one transfer. On success the buffer keeps its length, holds
    /// the received bytes, and both logs grow by exactly this exchange; on
    /// failure the logs are unchanged and the buffer's content is
    /// unspecified.
    fn transfer(&mut self, data: &mut Vec<u8>) -> (r: Result<(), Self::Fault>)
        ensures
            r is Ok ==> final(data)@.len() == old(data)@.len() && final(self).sent_log()
                == old(self).sent_log().push(old(data)@) && final(self).recv_log() == old(
                self,
            ).recv_log().push(final(data)@),
            r is Err ==> final(self).sent_log() == old(self).sent_log() && final(self).recv_log()
                == old(self).recv_log(),
    ;
}

/// Set-high/set-low control of the chip-select line. The line frames a
/// transaction: asserted (low) while one is in progress, released (high)
/// when idle.
pub trait ChipSelectPin: Sized {
    /// The pin-specific failure value.
    type Fault;

    /// True while the line is driven low (asserted).
    spec fn is_low(&self) -> bool;

    /// Asserts the line. On success the line is low; on failure its state is
    /// unspecified.
    fn set_low(&mut self) -> (r: Result<(), Self::Fault>)
        ensures
            r is Ok ==> final(self).is_low(),
    ;

    /// Releases the line. On success the line is high; on failure its state
    /// is unspecified.
    fn set_high(&mut self) -> (r: Result<(), Self::Fault>)
        ensures
            r is Ok ==> !final(self).is_low(),
    ;
}

} // verus!
