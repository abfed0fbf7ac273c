//! A bus with one simulated chip on it: 256 byte-wide registers that keep
//! what is written to them. It records every transaction, and can be told
//! to fail after a number of them.

use vstd::prelude::*;

use crate::common::i2c::{I2cBus, Transfer};

verus! {

/// The one way in which the simulated bus fails.
#[derive(Copy, Clone, Debug, PartialEq, Eq, Structural)]
pub enum BusFault {
    /// No device answered.
    NoAcknowledge,
}

/// A transaction as the simulated bus recorded it.
#[derive(Debug, PartialEq, Eq)]
pub struct RecordedTransfer {
    /// The device address.
    pub address: u8,
    /// The bytes written.
    pub bytes: Vec<u8>,
    /// The bytes read back, if the transaction had a read phase.
    pub read: Option<Vec<u8>>,
}

impl View for RecordedTransfer {
    type V = Transfer;

    open spec fn view(&self) -> Transfer {
        match self.read {
            Some(read) => Transfer::WriteRead {
                address: self.address,
                bytes: self.bytes@,
                read: read@,
            },
            None => Transfer::Write { address: self.address, bytes: self.bytes@ },
        }
    }
}

/// The transactions that `recorded` stand for, in the same order.
pub open spec fn transfer_views(recorded: Seq<RecordedTransfer>) -> Seq<Transfer> {
    recorded.map_values(|r: RecordedTransfer| r@)
}

/// The simulated bus.
pub struct SimulatedBus {
    registers: [u8; 256],
    log: Vec<RecordedTransfer>,
    budget: Option<usize>,
}

/// The registers after `bytes` were written: a write of exactly two bytes
/// stores the second in the register that the first names; any other
/// write changes nothing.
pub open spec fn registers_after_write(registers: Seq<u8>, bytes: Seq<u8>) -> Seq<u8> {
    if bytes.len() == 2 {
        registers.update(bytes[0] as int, bytes[1])
    } else {
        registers
    }
}

/// The register that a read starts at: the one that the first written byte
/// names, or register 0 if nothing was written.
pub open spec fn read_start(bytes: Seq<u8>) -> int {
    if bytes.len() > 0 {
        bytes[0] as int
    } else {
        0
    }
}

/// What a read of `len` bytes finds: consecutive registers from the start,
/// wrapping round after the last one.
pub open spec fn registers_read(registers: Seq<u8>, bytes: Seq<u8>, len: nat) -> Seq<u8> {
    Seq::new(len, |i: int| registers[(read_start(bytes) + i) % 256])
}

/// The budget after one more transaction.
pub open spec fn budget_after(budget: Option<usize>) -> Option<usize> {
    match budget {
        Some(left) => if left > 0 {
            Some((left - 1) as usize)
        } else {
            Some(0usize)
        },
        None => None,
    }
}

impl SimulatedBus {
    /// The contents of the 256 registers.
    pub closed spec fn registers(&self) -> Seq<u8> {
        self.registers@
    }

    /// The transactions recorded so far, oldest first.
    pub closed spec fn recorded(&self) -> Seq<RecordedTransfer> {
        self.log@
    }

    /// How many more transactions succeed; `None` if there is no limit.
    pub closed spec fn budget(&self) -> Option<usize> {
        self.budget
    }

    /// Whether the next transaction succeeds.
    pub open spec fn answers(&self) -> bool {
        self.budget() != Some(0usize)
    }

    /// A bus whose registers all hold 0 and which never fails.
    pub fn new() -> (bus: Self)
        ensures
            bus.registers() == Seq::new(256, |i: int| 0u8),
            bus.recorded().len() == 0,
            bus.budget() is None,
    {
        let bus = SimulatedBus { registers: [0u8; 256], log: Vec::new(), budget: None };
        assert(bus.registers() =~= Seq::new(256, |i: int| 0u8));
        bus
    }

    /// A bus whose registers all hold 0, on which the first `transfers`
    /// transactions succeed and every later one fails.
    pub fn failing_after(transfers: usize) -> (bus: Self)
        ensures
            bus.registers() == Seq::new(256, |i: int| 0u8),
            bus.recorded().len() == 0,
            bus.budget() == Some(transfers),
    {
        let bus = SimulatedBus {
            registers: [0u8; 256],
            log: Vec::new(),
            budget: Some(transfers),
        };
        assert(bus.registers() =~= Seq::new(256, |i: int| 0u8));
        bus
    }

    /// The value that register `reg` holds.
    pub fn register(&self, reg: u8) -> (value: u8)
        ensures
            value == self.registers()[reg as int],
    {
        self.registers[reg as usize]
    }

    /// Stores `value` in register `reg` behind the bus's back: no
    /// transaction is recorded.
    pub fn set_register(&mut self, reg: u8, value: u8)
        ensures
            final(self).registers() == old(self).registers().update(reg as int, value),
            final(self).recorded() == old(self).recorded(),
            final(self).budget() == old(self).budget(),
    {
        self.registers[reg as usize] = value;
    }

    /// The transactions recorded so far, oldest first.
    pub fn log(&self) -> (log: &Vec<RecordedTransfer>)
        ensures
            log@ == self.recorded(),
    {
        &self.log
    }

    /// Uses up one transaction of the budget. Returns whether there was one
    /// left.
    fn spend(&mut self) -> (answers: bool)
        ensures
            answers == old(self).answers(),
            final(self).budget() == budget_after(old(self).budget()),
            final(self).registers() == old(self).registers(),
            final(self).recorded() == old(self).recorded(),
    {
        match self.budget {
            Some(left) => {
                if left == 0 {
                    false
                } else {
                    self.budget = Some(left - 1);
                    true
                }
            },
            None => true,
        }
    }
}

fn copy_bytes(bytes: &[u8]) -> (copy: Vec<u8>)
    ensures
        copy@ == bytes@,
{
    let mut copy: Vec<u8> = Vec::new();
    let mut i: usize = 0;
    while i < bytes.len()
        invariant
            i <= bytes.len(),
            copy@ == bytes@.take(i as int),
        decreases bytes.len() - i,
    {
        copy.push(bytes[i]);
        assert(bytes@.take(i as int + 1) =~= bytes@.take(i as int).push(bytes@[i as int]));
        i += 1;
    }
    assert(bytes@.take(i as int) =~= bytes@);
    copy
}

impl I2cBus for SimulatedBus {
    type Error = BusFault;

    fn write(&mut self, address: u8, bytes: &[u8]) -> (result: Result<(), BusFault>)
        ensures
            result is Ok <==> old(self).answers(),
            final(self).budget() == budget_after(old(self).budget()),
            final(self).registers() == if old(self).answers() {
                registers_after_write(old(self).registers(), bytes@)
            } else {
                old(self).registers()
            },
            transfer_views(final(self).recorded()) == if old(self).answers() {
                transfer_views(old(self).recorded()).push(
                    Transfer::Write { address, bytes: bytes@ },
                )
            } else {
                transfer_views(old(self).recorded())
            },
    {
        if !self.spend() {
            return Err(BusFault::NoAcknowledge);
        }
        if bytes.len() == 2 {
            self.registers[bytes[0] as usize] = bytes[1];
        }
        let ghost before = self.log@;
        let record = RecordedTransfer { address, bytes: copy_bytes(bytes), read: None };
        self.log.push(record);
        assert(transfer_views(self.log@) =~= transfer_views(before).push(
            Transfer::Write { address, bytes: bytes@ },
        ));
        Ok(())
    }

    fn write_read(&mut self, address: u8, bytes: &[u8], buffer: &mut [u8]) -> (result: Result<
        (),
        BusFault,
    >)
        ensures
            result is Ok <==> old(self).answers(),
            final(self).budget() == budget_after(old(self).budget()),
            final(self).registers() == old(self).registers(),
            result is Ok ==> final(buffer)@ == registers_read(
                old(self).registers(),
                bytes@,
                old(buffer)@.len(),
            ),
            result is Err ==> final(buffer)@ == old(buffer)@,
            transfer_views(final(self).recorded()) == if old(self).answers() {
                transfer_views(old(self).recorded()).push(
                    Transfer::WriteRead { address, bytes: bytes@, read: final(buffer)@ },
                )
            } else {
                transfer_views(old(self).recorded())
            },
    {
        if !self.spend() {
            return Err(BusFault::NoAcknowledge);
        }
        let start: usize = if bytes.len() > 0 {
            bytes[0] as usize
        } else {
            0
        };
        let len = buffer.len();
        let mut read: Vec<u8> = Vec::new();
        let mut i: usize = 0;
        while i < len
            invariant
                i <= len,
                len == buffer@.len(),
                len == old(buffer)@.len(),
                start == read_start(bytes@),
                start < 256,
                self.registers() == old(self).registers(),
                read@ == registers_read(self.registers(), bytes@, i as nat),
                buffer@.take(i as int) == read@,
            decreases len - i,
        {
            let value = self.registers[(start + i % 256) % 256];
            assert((start + i % 256) % 256 == (start + i) % 256);
            buffer[i] = value;
            read.push(value);
            assert(read@ =~= registers_read(self.registers(), bytes@, (i + 1) as nat));
            assert(buffer@.take(i as int + 1) =~= read@);
            i += 1;
        }
        assert(buffer@.take(len as int) =~= buffer@);
        let ghost before = self.log@;
        let record = RecordedTransfer { address, bytes: copy_bytes(bytes), read: Some(read) };
        self.log.push(record);
        assert(transfer_views(self.log@) =~= transfer_views(before).push(
            Transfer::WriteRead { address, bytes: bytes@, read: buffer@ },
        ));
        Ok(())
    }
}

} // verus!
