//! Periodic polling of live parameters over UDS. Each pass reads every
//! entry once; the pause between passes and the formula evaluation belong
//! to the caller.
use vstd::prelude::*;
use crate::definition::Pid;
use crate::error::Error;
use crate::isotp::slice_prefix;
use crate::transport::append_bytes;
use crate::uds::{read_data_by_identifier, UdsInterface};

verus! {

/// Milliseconds between two passes.
pub const POLL_PERIOD_MS: u64 = 1000;

/// A parameter to poll: its id, its data identifier and its formula.
#[derive(Debug, Clone)]
pub struct LoggerEntry {
    pub pid_id: u32,
    pub code: u16,
    pub formula: String,
}

/// One reading: the bytes that the formula sees as `a`, `b` and `c`.
#[derive(Debug, Clone)]
pub struct Sample {
    pub pid_id: u32,
    pub inputs: Vec<u8>,
}

/// The first three bytes of a data record, or all of them if fewer.
pub open spec fn formula_inputs_spec(record: Seq<u8>) -> Seq<u8> {
    if record.len() < 3 { record } else { record.subrange(0, 3) }
}

/// The bytes of a data record that the formula's variables `a`, `b`, `c` are bound to.
pub fn formula_inputs(record: &[u8]) -> (r: Vec<u8>)
    ensures
        r@ == formula_inputs_spec(record@),
{
    let n = if record.len() < 3 { record.len() } else { 3 };
    let mut v = Vec::new();
    append_bytes(&mut v, slice_prefix(record, n));
    assert(record@.subrange(0, record@.len() as int) =~= record@);
    v
}

/// Polls parameters with ReadDataByIdentifier.
pub struct UdsLogger<U: UdsInterface> {
    interface: U,
    running: bool,
    entries: Vec<LoggerEntry>,
}

impl<U: UdsInterface> UdsLogger<U> {
    pub closed spec fn running(&self) -> bool {
        self.running
    }

    pub closed spec fn entries(&self) -> Seq<LoggerEntry> {
        self.entries@
    }

    pub fn new(interface: U) -> (r: UdsLogger<U>)
        ensures
            !r.running(),
            r.entries().len() == 0,
    {
        UdsLogger { interface, running: false, entries: Vec::new() }
    }

    /// Adds a parameter to poll and returns its index.
    pub fn add_entry(&mut self, pid: &Pid) -> (r: usize)
        requires
            old(self).entries().len() < usize::MAX,
        ensures
            r == old(self).entries().len(),
            final(self).entries().len() == old(self).entries().len() + 1,
            final(self).entries().subrange(0, r as int) == old(self).entries(),
            final(self).entries()[r as int].pid_id == pid.id,
            final(self).entries()[r as int].code == pid.code,
            final(self).running() == old(self).running(),
    {
        let index = self.entries.len();
        self.entries.push(LoggerEntry { pid_id: pid.id, code: pid.code, formula: pid.formula.clone() });
        assert(self.entries@.subrange(0, index as int) =~= old(self).entries@);
        index
    }

    /// The parameter at `index`.
    pub fn entry(&self, index: usize) -> (r: &LoggerEntry)
        requires
            index < self.entries().len(),
        ensures
            *r == self.entries()[index as int],
    {
        &self.entries[index]
    }

    /// Starts polling. Only one run may be active at a time.
    pub fn start(&mut self)
        requires
            !old(self).running(),
        ensures
            final(self).running(),
            final(self).entries() == old(self).entries(),
    {
        self.running = true;
    }

    /// Asks the run to end; the pass under way, if any, still completes.
    pub fn stop(&mut self)
        ensures
            !final(self).running(),
            final(self).entries() == old(self).entries(),
    {
        self.running = false;
    }

    pub fn is_running(&self) -> (r: bool)
        ensures
            r == self.running(),
    {
        self.running
    }

    /// One pass while running: reads every entry once, in order. Once
    /// stopped it returns `None` and sends nothing.
    pub fn run_pass(&self) -> (r: Result<Option<Vec<Sample>>, Error>)
        ensures
            !self.running() ==> r matches Ok(None),
            self.running() ==> !(r matches Ok(None)),
            r matches Ok(Some(s)) ==> s@.len() == self.entries().len() && forall|i: int|
                0 <= i < s@.len() ==> (#[trigger] s@[i]).pid_id == self.entries()[i].pid_id
                    && s@[i].inputs@.len() <= 3,
    {
        if !self.running {
            return Ok(None);
        }
        let mut samples: Vec<Sample> = Vec::new();
        let mut i: usize = 0;
        while i < self.entries.len()
            invariant
                self.running(),
                i <= self.entries@.len(),
                samples@.len() == i,
                forall|j: int|
                    0 <= j < i ==> (#[trigger] samples@[j]).pid_id == self.entries@[j].pid_id
                        && samples@[j].inputs@.len() <= 3,
            decreases self.entries@.len() - i,
        {
            let entry = &self.entries[i];
            let record = match read_data_by_identifier(&self.interface, entry.code) {
                Ok(rec) => rec,
                Err(e) => return Err(e),
            };
            samples.push(Sample { pid_id: entry.pid_id, inputs: formula_inputs(record.as_slice()) });
            i = i + 1;
        }
        Ok(Some(samples))
    }
}

} // verus!
