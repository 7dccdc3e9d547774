//! Bus writes and the transaction that hands them out one at a time.
//!
//! A [`Transaction`] is a small state machine. Its state is the ordered list
//! of writes an operation consists of, how many of them have succeeded, and
//! whether one has failed. The caller asks for the current write, performs
//! it on its bus (after waiting the write's settling time) and reports the
//! outcome; the transaction then moves on, or stops for good at the first
//! failure.
use vstd::prelude::*;

verus! {

/// One write to the device: the bytes to send, where to send them, and how
/// long to wait before sending.
#[derive(Debug, Clone, Copy, PartialEq, Eq)]
pub struct BusWrite {
    /// Milliseconds to block before the write is put on the bus.
    pub settle_ms: u32,
    /// The seven-bit bus address the write goes to.
    pub address: u8,
    /// The register the write names: the first byte sent.
    pub register: u8,
    /// The byte for that register, sent second. A write that only names its
    /// register has none.
    pub value: Option<u8>,
}

impl BusWrite {
    /// The bytes that go over the bus, in order.
    pub open spec fn spec_bytes(self) -> Seq<u8> {
        match self.value {
            Some(v) => seq![self.register, v],
            None => seq![self.register],
        }
    }

    /// The bytes that go over the bus, in order.
    pub fn bytes(&self) -> (out: Vec<u8>)
        ensures
            out@ == self.spec_bytes(),
    {
        let mut out: Vec<u8> = Vec::new();
        out.push(self.register);
        match self.value {
            Some(v) => {
                out.push(v);
            },
            None => {},
        }
        assert(out@ =~= self.spec_bytes());
        out
    }
}

/// The one way an operation fails: the bus did not take a write.
#[derive(Debug)]
pub enum SN3193Error<E> {
    /// The transport's own error, as the bus reported it.
    I2CError(E),
}

/// What a [`Transaction`] is, mathematically.
pub struct Progress {
    /// Every write of the operation, in the order the device needs them.
    pub planned: Seq<BusWrite>,
    /// How many of them the bus has taken.
    pub completed: nat,
    /// Whether the write after those failed.
    pub aborted: bool,
}

impl Progress {
    /// The state of an operation of which nothing has been written yet.
    pub open spec fn fresh(planned: Seq<BusWrite>) -> Progress {
        Progress { planned, completed: 0, aborted: false }
    }

    /// A failed write is one of the planned writes, and no more writes
    /// succeed than were planned.
    pub open spec fn wf(self) -> bool {
        &&& self.completed <= self.planned.len()
        &&& self.aborted ==> self.completed < self.planned.len()
    }

    /// The write to perform now, if the operation still has one.
    pub open spec fn current(self) -> Option<BusWrite> {
        if !self.aborted && self.completed < self.planned.len() {
            Some(self.planned[self.completed as int])
        } else {
            None
        }
    }

    /// The state after the current write's outcome is known. With no current
    /// write the outcome changes nothing.
    pub open spec fn after(self, ok: bool) -> Progress {
        if self.current() is None {
            self
        } else if ok {
            Progress { completed: self.completed + 1, ..self }
        } else {
            Progress { aborted: true, ..self }
        }
    }

    /// The writes that have been put on the bus so far: those that
    /// succeeded, then the one that failed, if one did.
    pub open spec fn attempted(self) -> Seq<BusWrite> {
        if self.aborted {
            self.planned.take(self.completed as int + 1)
        } else {
            self.planned.take(self.completed as int)
        }
    }

    /// Whether every planned write has succeeded.
    pub open spec fn is_complete(self) -> bool {
        !self.aborted && self.completed == self.planned.len()
    }

    /// The state after a run of outcomes, reported one after another.
    pub open spec fn run(self, outcomes: Seq<bool>) -> Progress
        decreases outcomes.len(),
    {
        if outcomes.len() == 0 {
            self
        } else {
            self.after(outcomes[0]).run(outcomes.skip(1))
        }
    }
}

/// An operation on the device in progress: its writes, and how far the bus
/// has got with them.
pub struct Transaction {
    writes: Vec<BusWrite>,
    completed: usize,
    aborted: bool,
}

impl View for Transaction {
    type V = Progress;

    closed spec fn view(&self) -> Progress {
        Progress {
            planned: self.writes@,
            completed: self.completed as nat,
            aborted: self.aborted,
        }
    }
}

impl Transaction {
    #[verifier::type_invariant]
    spec fn inv(self) -> bool {
        self@.wf()
    }

    /// Starts an operation that consists of `writes`, in that order.
    pub fn new(writes: Vec<BusWrite>) -> (t: Transaction)
        ensures
            t@ == Progress::fresh(writes@),
            t@.wf(),
    {
        Transaction { writes, completed: 0, aborted: false }
    }

    /// The write to perform now. `None` once every write has succeeded or
    /// one has failed.
    pub fn current(&self) -> (next: Option<BusWrite>)
        ensures
            next == self@.current(),
            self@.wf(),
    {
        proof {
            use_type_invariant(self);
        }
        if !self.aborted && self.completed < self.writes.len() {
            Some(self.writes[self.completed])
        } else {
            None
        }
    }

    /// Takes the outcome of the current write. Success moves on to the next
    /// write; failure ends the transaction, and the transport's error comes
    /// back wrapped. The planned writes never change.
    pub fn report<E>(&mut self, outcome: Result<(), E>) -> (result: Result<(), SN3193Error<E>>)
        ensures
            final(self)@ == old(self)@.after(outcome is Ok),
            final(self)@.wf(),
            match outcome {
                Ok(_) => result is Ok,
                Err(e) => result == Err::<(), SN3193Error<E>>(SN3193Error::I2CError(e)),
            },
    {
        proof {
            use_type_invariant(&*self);
        }
        let pending: bool = !self.aborted && self.completed < self.writes.len();
        match outcome {
            Ok(_) => {
                if pending {
                    self.completed = self.completed + 1;
                }
                Ok(())
            },
            Err(e) => {
                if pending {
                    self.aborted = true;
                }
                Err(SN3193Error::I2CError(e))
            },
        }
    }

    /// Whether every write of the operation has succeeded.
    pub fn is_complete(&self) -> (done: bool)
        ensures
            done == self@.is_complete(),
    {
        proof {
            use_type_invariant(self);
        }
        !self.aborted && self.completed == self.writes.len()
    }

    /// Whether a write of the operation has failed.
    pub fn is_aborted(&self) -> (failed: bool)
        ensures
            failed == self@.aborted,
    {
        self.aborted
    }
}

} // verus!
