//! In-memory collaborators: a scripted bus and a scripted chip-select pin.
//!
//! Both implement the traits of [`crate::bus`] with their full contracts
//! proved, so the engine's guarantees hold of them like of any hardware
//! pair. A script decides what each exchange returns and which operations
//! fail, which is what exercising the engine's failure paths needs.

use crate::bus::ChipSelectPin;
use crate::bus::SpiBus;
use vstd::prelude::*;

verus! {

/// The failure value of the simulated collaborators.
#[derive(Clone, Copy, Debug, PartialEq, Eq)]
pub struct SimFault {}

/// One scripted exchange: reply with the given bytes, or fail.
enum SimStep {
    Reply(Vec<u8>),
    Fail,
}

/// The views of a sequence of byte vectors.
spec fn views(s: Seq<Vec<u8>>) -> Seq<Seq<u8>> {
    s.map_values(|v: Vec<u8>| v@)
}

/// Appending a vector appends its view.
proof fn lemma_views_push(s: Seq<Vec<u8>>, v: Vec<u8>)
    ensures
        views(s.push(v)) == views(s).push(v@),
{
    assert(views(s.push(v)) =~= views(s).push(v@));
}

/// An exact copy of a byte vector.
fn copy_bytes(v: &Vec<u8>) -> (r: Vec<u8>)
    ensures
        r@ == v@,
{
    let mut r: Vec<u8> = Vec::new();
    let mut i: usize = 0;
    while i < v.len()
        invariant
            i <= v@.len(),
            r@ == v@.take(i as int),
        decreases v@.len() - i as int,
    {
        r.push(v[i]);
        proof {
            assert(r@ =~= v@.take(i + 1));
        }
        i = i + 1;
    }
    proof {
        assert(v@.take(v@.len() as int) =~= v@);
    }
    r
}

/// A scripted serial bus. Each transfer consumes the next scripted step:
/// a reply overwrites the buffer with the scripted bytes, a failure (or an
/// exhausted script, or a reply whose length does not match the buffer)
/// reports a fault and leaves the logs untouched.
pub struct SimBus {
    /// Pending steps, next one first.
    script: Vec<SimStep>,
    /// Buffers clocked out by successful transfers.
    sent: Vec<Vec<u8>>,
    /// Buffers clocked in by successful transfers.
    rcvd: Vec<Vec<u8>>,
}

impl SimBus {
    /// A bus with an empty script: every transfer fails until steps are
    /// scripted.
    pub fn new() -> (r: Self)
        ensures
            r.sent_log() == Seq::<Seq<u8>>::empty(),
            r.recv_log() == Seq::<Seq<u8>>::empty(),
    {
        let r = SimBus { script: Vec::new(), sent: Vec::new(), rcvd: Vec::new() };
        proof {
            assert(r.sent_log() =~= Seq::<Seq<u8>>::empty());
            assert(r.recv_log() =~= Seq::<Seq<u8>>::empty());
        }
        r
    }

    /// Scripts the next exchange to succeed and reply with `bytes`.
    pub fn push_reply(&mut self, bytes: Vec<u8>)
        ensures
            final(self).sent_log() == old(self).sent_log(),
            final(self).recv_log() == old(self).recv_log(),
    {
        self.script.push(SimStep::Reply(bytes));
    }

    /// Scripts the next exchange to fail.
    pub fn push_fail(&mut self)
        ensures
            final(self).sent_log() == old(self).sent_log(),
            final(self).recv_log() == old(self).recv_log(),
    {
        self.script.push(SimStep::Fail);
    }

    /// The buffers clocked out so far, for inspection.
    pub fn sent_frames(&self) -> (r: &Vec<Vec<u8>>)
        ensures
            (r@.map_values(|v: Vec<u8>| v@)) == self.sent_log(),
    {
        &self.sent
    }

    /// The buffers clocked in so far, for inspection.
    pub fn received_frames(&self) -> (r: &Vec<Vec<u8>>)
        ensures
            (r@.map_values(|v: Vec<u8>| v@)) == self.recv_log(),
    {
        &self.rcvd
    }
}

impl SpiBus for SimBus {
    type Fault = SimFault;

    closed spec fn sent_log(&self) -> Seq<Seq<u8>> {
        views(self.sent@)
    }

    closed spec fn recv_log(&self) -> Seq<Seq<u8>> {
        views(self.rcvd@)
    }

    fn transfer(&mut self, data: &mut Vec<u8>) -> (r: Result<(), SimFault>) {
        if self.script.len() == 0 {
            return Err(SimFault {});
        }
        let step = self.script.remove(0);
        match step {
            SimStep::Fail => Err(SimFault {}),
            SimStep::Reply(bytes) => {
                if bytes.len() != data.len() {
                    return Err(SimFault {});
                }
                let outgoing = copy_bytes(data);
                let incoming = copy_bytes(&bytes);
                *data = bytes;
                proof {
                    lemma_views_push(self.sent@, outgoing);
                    lemma_views_push(self.rcvd@, incoming);
                }
                self.sent.push(outgoing);
                self.rcvd.push(incoming);
                Ok(())
            },
        }
    }
}

/// A scripted chip-select pin. The line starts released (high). Each
/// set-low/set-high consumes the next scripted outcome; an exhausted
/// script means success. A failed operation leaves the line as it stands.
pub struct SimPin {
    /// True while the line is driven low.
    low: bool,
    /// Pending operation outcomes, next one first; `true` means fail.
    fail_script: Vec<bool>,
}

impl SimPin {
    /// A pin with its line released and every operation succeeding.
    pub fn new() -> (r: Self)
        ensures
            !r.is_low(),
    {
        SimPin { low: false, fail_script: Vec::new() }
    }

    /// Scripts the outcome of the next pin operation; `fail` makes it
    /// report a fault.
    pub fn push_op(&mut self, fail: bool)
        ensures
            final(self).is_low() == old(self).is_low(),
    {
        self.fail_script.push(fail);
    }

    /// The line's current state, for inspection.
    pub fn reads_low(&self) -> (r: bool)
        ensures
            r == self.is_low(),
    {
        self.low
    }

    /// Consumes the next scripted outcome.
    fn next_fails(&mut self) -> (r: bool)
        ensures
            final(self).is_low() == old(self).is_low(),
    {
        if self.fail_script.len() > 0 {
            self.fail_script.remove(0)
        } else {
            false
        }
    }
}

impl ChipSelectPin for SimPin {
    type Fault = SimFault;

    closed spec fn is_low(&self) -> bool {
        self.low
    }

    fn set_low(&mut self) -> (r: Result<(), SimFault>) {
        if self.next_fails() {
            Err(SimFault {})
        } else {
            self.low = true;
            Ok(())
        }
    }

    fn set_high(&mut self) -> (r: Result<(), SimFault>) {
        if self.next_fails() {
            Err(SimFault {})
        } else {
            self.low = false;
            Ok(())
        }
    }
}

} // verus!
