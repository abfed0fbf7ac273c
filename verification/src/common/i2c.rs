//! The two-wire bus that the codec chips hang on, as the drivers see it, and
//! the register programs that the drivers run over it.

use vstd::prelude::*;

verus! {

/// One completed transaction on the bus.
pub enum Transfer {
    /// `bytes` were written to the device at `address`.
    Write { address: u8, bytes: Seq<u8> },
    /// `bytes` were written to the device at `address`, which answered `read`.
    WriteRead { address: u8, bytes: Seq<u8>, read: Seq<u8> },
}

/// One transaction as it is asked of the bus, whatever the bus makes of it.
pub enum Request {
    /// Write `bytes` to the device at `address`.
    Write { address: u8, bytes: Seq<u8> },
    /// Write `bytes` to the device at `address` and read `len` bytes of its
    /// answer.
    WriteRead { address: u8, bytes: Seq<u8>, len: nat },
}

/// What the records of a bus hold at one moment.
pub struct Records {
    /// Every transaction that was asked of the bus, oldest first.
    pub requests: Seq<Request>,
    /// Every transaction that the bus completed, oldest first.
    pub transfers: Seq<Transfer>,
    /// The positions, among the requests, of those that the bus refused.
    pub refused: Seq<nat>,
}

/// Whether, from `before` to `after`, the bus was used as a driver uses it
/// in one call. If the call went well (`ok`), the bus refused nothing and
/// completed every transaction that was asked of it. If it did not, the
/// bus refused exactly one transaction, the one asked last: everything
/// asked before it was completed, and nothing was asked after it.
pub open spec fn answered(before: Records, after: Records, ok: bool) -> bool {
    &&& before.transfers.len() <= after.transfers.len()
    &&& after.requests.len() - before.requests.len() == after.transfers.len()
        - before.transfers.len() + if ok {
        0int
    } else {
        1int
    }
    &&& after.refused == if ok {
        before.refused
    } else {
        before.refused.push((after.requests.len() - 1) as nat)
    }
}

/// Whether nothing at all was asked of the bus from `before` to `after`.
pub open spec fn untouched(before: Records, after: Records) -> bool {
    after == before
}

/// A bus master: whatever can write bytes to a device and read its answer.
pub trait I2cBus {
    type Error;

    /// Writes `bytes` to the device at `address`.
    fn write(&mut self, address: u8, bytes: &[u8]) -> Result<(), Self::Error>;

    /// Writes `bytes` to the device at `address`, then fills `buffer` with
    /// the device's answer.
    fn write_read(&mut self, address: u8, bytes: &[u8], buffer: &mut [u8]) -> Result<
        (),
        Self::Error,
    >;
}

/// A bus together with the records of what went over it since it was
/// wrapped: every transaction that was asked of the bus, every transaction
/// that the bus completed, and which of the requests the bus refused. A
/// transaction that the bus refused is among the requests and leaves no
/// trace among the completed ones. A driver owns one and speaks to its
/// chip through it.
pub struct TracedBus<B: I2cBus> {
    bus: B,
    asked: Ghost<Seq<Request>>,
    history: Ghost<Seq<Transfer>>,
    turned_down: Ghost<Seq<nat>>,
}

impl<B: I2cBus> TracedBus<B> {
    /// The history of the bus.
    pub closed spec fn transfers(&self) -> Seq<Transfer> {
        self.history@
    }

    /// Every transaction that was asked of the bus, completed or not.
    pub closed spec fn requests(&self) -> Seq<Request> {
        self.asked@
    }

    /// The positions, among the requests, of those that the bus refused.
    pub closed spec fn refused(&self) -> Seq<nat> {
        self.turned_down@
    }

    /// The three records together.
    pub open spec fn records(&self) -> Records {
        Records {
            requests: self.requests(),
            transfers: self.transfers(),
            refused: self.refused(),
        }
    }

    /// The bus itself.
    pub closed spec fn inner(&self) -> B {
        self.bus
    }

    /// Wraps `bus`. Its records begin here, empty.
    pub fn new(bus: B) -> (traced: Self)
        ensures
            traced.transfers() == Seq::<Transfer>::empty(),
            traced.requests() == Seq::<Request>::empty(),
            traced.refused() == Seq::<nat>::empty(),
            traced.inner() == bus,
    {
        TracedBus {
            bus,
            asked: Ghost(Seq::empty()),
            history: Ghost(Seq::empty()),
            turned_down: Ghost(Seq::empty()),
        }
    }

    /// The bus, for whoever wants to look at it.
    pub fn bus(&self) -> (bus: &B)
        ensures
            *bus == self.inner(),
    {
        &self.bus
    }

    /// Gives the bus back and forgets its history.
    pub fn into_inner(self) -> (bus: B)
        ensures
            bus == self.inner(),
    {
        self.bus
    }

    /// Writes `bytes` to the device at `address`: exactly this write is
    /// asked of the bus, once, and what the bus answers is the result.
    pub fn write(&mut self, address: u8, bytes: &[u8]) -> (result: Result<(), B::Error>)
        ensures
            final(self).requests() == old(self).requests().push(
                Request::Write { address, bytes: bytes@ },
            ),
            result is Ok ==> final(self).transfers() == old(self).transfers().push(
                Transfer::Write { address, bytes: bytes@ },
            ),
            result is Err ==> final(self).transfers() == old(self).transfers(),
            answered(old(self).records(), final(self).records(), result is Ok),
    {
        let outcome = self.bus.write(address, bytes);
        self.note_write(address, bytes, outcome)
    }

    /// Writes the one byte `out` to the device at `address` and reads one
    /// byte of its answer: exactly this transaction is asked of the bus,
    /// once. If the bus completes it, the result is the byte read;
    /// otherwise it is the error of the bus.
    pub fn write_read_byte(&mut self, address: u8, out: u8) -> (result: Result<u8, B::Error>)
        ensures
            final(self).requests() == old(self).requests().push(
                Request::WriteRead { address, bytes: seq![out], len: 1 },
            ),
            result matches Ok(value) ==> final(self).transfers() == old(self).transfers().push(
                Transfer::WriteRead { address, bytes: seq![out], read: seq![value] },
            ),
            result is Err ==> final(self).transfers() == old(self).transfers(),
            answered(old(self).records(), final(self).records(), result is Ok),
    {
        let mut byte: [u8; 1] = [0; 1];
        let bytes = [out];
        let outcome = self.bus.write_read(address, &bytes, &mut byte);
        self.note_read(address, out, outcome, byte)
    }

    /// Enters into the records a write of `bytes` to the device at
    /// `address` that the bus answered with `outcome`, and hands the answer
    /// on as it is.
    fn note_write(&mut self, address: u8, bytes: &[u8], outcome: Result<(), B::Error>) -> (result:
        Result<(), B::Error>)
        ensures
            result == outcome,
            final(self).inner() == old(self).inner(),
            final(self).requests() == old(self).requests().push(
                Request::Write { address, bytes: bytes@ },
            ),
            final(self).transfers() == if outcome is Ok {
                old(self).transfers().push(Transfer::Write { address, bytes: bytes@ })
            } else {
                old(self).transfers()
            },
            final(self).refused() == if outcome is Ok {
                old(self).refused()
            } else {
                old(self).refused().push(old(self).requests().len())
            },
    {
        if outcome.is_ok() {
            self.history = Ghost(self.history@.push(Transfer::Write { address, bytes: bytes@ }));
        } else {
            self.turned_down = Ghost(self.turned_down@.push(self.asked@.len()));
        }
        self.asked = Ghost(self.asked@.push(Request::Write { address, bytes: bytes@ }));
        outcome
    }

    /// Enters into the records a read of one byte after the byte `out` was
    /// written to the device at `address`, which the bus answered with
    /// `outcome` and the byte in `answer`. A completed read gives the byte;
    /// a refused one gives the error of the bus.
    fn note_read(
        &mut self,
        address: u8,
        out: u8,
        outcome: Result<(), B::Error>,
        answer: [u8; 1],
    ) -> (result: Result<u8, B::Error>)
        ensures
            final(self).inner() == old(self).inner(),
            final(self).requests() == old(self).requests().push(
                Request::WriteRead { address, bytes: seq![out], len: 1 },
            ),
            match outcome {
                Ok(()) => {
                    &&& result == Ok::<u8, B::Error>(answer[0])
                    &&& final(self).transfers() == old(self).transfers().push(
                        Transfer::WriteRead { address, bytes: seq![out], read: seq![answer[0]] },
                    )
                    &&& final(self).refused() == old(self).refused()
                },
                Err(e) => {
                    &&& result == Err::<u8, B::Error>(e)
                    &&& final(self).transfers() == old(self).transfers()
                    &&& final(self).refused() == old(self).refused().push(
                        old(self).requests().len(),
                    )
                },
            },
    {
        if outcome.is_err() {
            self.turned_down = Ghost(self.turned_down@.push(self.asked@.len()));
        }
        self.asked = Ghost(
            self.asked@.push(Request::WriteRead { address, bytes: seq![out], len: 1 }),
        );
        match outcome {
            Ok(()) => {
                let value = answer[0];
                self.history = Ghost(
                    self.history@.push(
                        Transfer::WriteRead { address, bytes: seq![out], read: seq![value] },
                    ),
                );
                Ok(value)
            },
            Err(e) => Err(e),
        }
    }
}

/// A pause between two steps of a chip's start-up sequence.
pub trait DelayUs {
    /// Waits for at least `us` microseconds.
    fn delay_us(&mut self, us: u32);
}

/// One step of a register program.
#[derive(Copy, Clone, Debug, PartialEq, Eq, Structural)]
pub enum RegOp {
    /// Store `value` in register `reg`.
    Write { reg: u8, value: u8 },
    /// Read register `reg`, replace the bits selected by `mask` with those of
    /// `data`, and store the result in the same register.
    Update { reg: u8, mask: u8, data: u8 },
    /// Read register `reg`.
    Read { reg: u8 },
}

/// The transaction that stores `value` in register `reg` of the chip at
/// `address`.
pub open spec fn register_write(address: u8, reg: u8, value: u8) -> Transfer {
    Transfer::Write { address, bytes: seq![reg, value] }
}

/// The transaction that reads register `reg` of the chip at `address` and
/// finds `value` in it.
pub open spec fn register_read(address: u8, reg: u8, value: u8) -> Transfer {
    Transfer::WriteRead { address, bytes: seq![reg], read: seq![value] }
}

/// The request to store `value` in register `reg` of the chip at
/// `address`.
pub open spec fn write_request(address: u8, reg: u8, value: u8) -> Request {
    Request::Write { address, bytes: seq![reg, value] }
}

/// The request to read register `reg` of the chip at `address`.
pub open spec fn read_request(address: u8, reg: u8) -> Request {
    Request::WriteRead { address, bytes: seq![reg], len: 1 }
}

/// Whether `transfer` is a read of register `reg` of the chip at `address`,
/// whatever the value found.
pub open spec fn reads_register(transfer: Transfer, address: u8, reg: u8) -> bool {
    &&& transfer is WriteRead
    &&& transfer->WriteRead_address == address
    &&& transfer->WriteRead_bytes == seq![reg]
    &&& transfer->read.len() == 1
}

/// How many transactions a step takes.
pub open spec fn op_len(op: RegOp) -> nat {
    match op {
        RegOp::Write { .. } => 1,
        RegOp::Update { .. } => 2,
        RegOp::Read { .. } => 1,
    }
}

/// Whether `transfers` are exactly the transactions of one step `op` on the
/// chip at `address`. An update writes back the value that its own read
/// found, changed in the selected bits only.
pub open spec fn op_done(address: u8, op: RegOp, transfers: Seq<Transfer>) -> bool {
    match op {
        RegOp::Write { reg, value } => transfers == seq![register_write(address, reg, value)],
        RegOp::Update { reg, mask, data } => {
            &&& transfers.len() == 2
            &&& reads_register(transfers[0], address, reg)
            &&& transfers[1] == register_write(
                address,
                reg,
                crate::utils::bits::spec_update_bit(transfers[0]->read[0], mask, data),
            )
        },
        RegOp::Read { reg } => {
            &&& transfers.len() == 1
            &&& reads_register(transfers[0], address, reg)
        },
    }
}

/// Whether `transfers` are exactly the transactions of the program `ops`,
/// step by step and in order, on the chip at `address`.
pub open spec fn runs(address: u8, ops: Seq<RegOp>, transfers: Seq<Transfer>) -> bool
    decreases ops.len(),
{
    if ops.len() == 0 {
        transfers.len() == 0
    } else {
        let n = op_len(ops.last());
        &&& transfers.len() >= n
        &&& op_done(address, ops.last(), transfers.skip(transfers.len() - n))
        &&& runs(address, ops.drop_last(), transfers.take(transfers.len() - n))
    }
}

/// Whether the history `after` is the history `before` followed by exactly
/// the transactions of the program `ops` on the chip at `address`.
pub open spec fn extended_by(
    before: Seq<Transfer>,
    after: Seq<Transfer>,
    address: u8,
    ops: Seq<RegOp>,
) -> bool {
    &&& before.len() <= after.len()
    &&& after.take(before.len() as int) == before
    &&& runs(address, ops, after.skip(before.len() as int))
}

/// Whether the history `after` begins with the history `before`.
pub open spec fn continues(before: Seq<Transfer>, after: Seq<Transfer>) -> bool {
    &&& before.len() <= after.len()
    &&& after.take(before.len() as int) == before
}

/// The empty program leaves the history as it is.
pub proof fn lemma_extended_by_nothing(history: Seq<Transfer>, address: u8)
    ensures
        extended_by(history, history, address, Seq::<RegOp>::empty()),
{
    assert(history.take(history.len() as int) =~= history);
}

/// A history that was extended by one step has run a program that is one
/// step longer.
pub proof fn lemma_extended_by_step(
    before: Seq<Transfer>,
    middle: Seq<Transfer>,
    after: Seq<Transfer>,
    address: u8,
    ops: Seq<RegOp>,
    op: RegOp,
)
    requires
        extended_by(before, middle, address, ops),
        continues(middle, after),
        op_done(address, op, after.skip(middle.len() as int)),
    ensures
        extended_by(before, after, address, ops.push(op)),
{
    let tail = after.skip(before.len() as int);
    let n = op_len(op);
    let step = after.skip(middle.len() as int);
    assert(step.len() == n);
    assert(after.take(before.len() as int) =~= middle.take(before.len() as int));
    assert(tail.skip(tail.len() - n) =~= step);
    assert(tail.take(tail.len() - n) =~= middle.skip(before.len() as int));
    assert(ops.push(op).drop_last() =~= ops);
    assert(ops.push(op).last() == op);
}

/// Two programs run one after the other are the run of their concatenation.
pub proof fn lemma_extended_by_both(
    before: Seq<Transfer>,
    middle: Seq<Transfer>,
    after: Seq<Transfer>,
    address: u8,
    first: Seq<RegOp>,
    second: Seq<RegOp>,
)
    requires
        extended_by(before, middle, address, first),
        extended_by(middle, after, address, second),
    ensures
        extended_by(before, after, address, first + second),
    decreases second.len(),
{
    if second.len() == 0 {
        assert(after.skip(middle.len() as int).len() == 0);
        assert(after =~= middle);
        assert(first + second =~= first);
    } else {
        let tail = after.skip(middle.len() as int);
        let n = op_len(second.last());
        let cut = after.take(after.len() - n);
        assert(cut.take(middle.len() as int) =~= middle);
        assert(cut.skip(middle.len() as int) =~= tail.take(tail.len() - n));
        assert(extended_by(middle, cut, address, second.drop_last()));
        lemma_extended_by_both(before, middle, cut, address, first, second.drop_last());
        assert(after.take(cut.len() as int) =~= cut);
        assert(after.skip(cut.len() as int) =~= tail.skip(tail.len() - n));
        lemma_extended_by_step(
            before,
            cut,
            after,
            address,
            first + second.drop_last(),
            second.last(),
        );
        assert((first + second.drop_last()).push(second.last()) =~= first + second);
    }
}

/// A history that continues a continuation of `first` continues `first`.
pub proof fn lemma_continues_twice(
    first: Seq<Transfer>,
    second: Seq<Transfer>,
    third: Seq<Transfer>,
)
    requires
        continues(first, second),
        continues(second, third),
    ensures
        continues(first, third),
{
    assert(third.take(first.len() as int) =~= second.take(first.len() as int));
}

/// Every history continues itself.
pub proof fn lemma_continues_itself(history: Seq<Transfer>)
    ensures
        continues(history, history),
{
    assert(history.take(history.len() as int) =~= history);
}

/// A read of a register that found `found`, followed by a write of the
/// changed value or by nothing, continues the history; with the write it is
/// one complete update.
pub proof fn lemma_update_done(
    before: Seq<Transfer>,
    middle: Seq<Transfer>,
    after: Seq<Transfer>,
    address: u8,
    reg: u8,
    mask: u8,
    data: u8,
    found: u8,
)
    requires
        middle == before.push(register_read(address, reg, found)),
        after == middle || after == middle.push(
            register_write(address, reg, crate::utils::bits::spec_update_bit(found, mask, data)),
        ),
    ensures
        continues(before, after),
        after != middle ==> op_done(
            address,
            RegOp::Update { reg, mask, data },
            after.skip(before.len() as int),
        ),
{
    assert(after.take(before.len() as int) =~= before);
    if after != middle {
        let tail = after.skip(before.len() as int);
        assert(tail =~= seq![
            register_read(address, reg, found),
            register_write(address, reg, crate::utils::bits::spec_update_bit(found, mask, data)),
        ]);
        assert(tail[0]->read =~= seq![found]);
    }
}

/// Whether `transfers` are what the bus completed of a run of the program
/// `ops` that it broke off at the step `at`: the steps before that one, each
/// complete and in order, and of that step nothing, or, if the step is an
/// update whose write was refused, its read alone.
pub open spec fn broken_at(address: u8, ops: Seq<RegOp>, transfers: Seq<Transfer>, at: int) -> bool {
    &&& 0 <= at < ops.len()
    &&& {
        ||| runs(address, ops.take(at), transfers)
        ||| {
            &&& ops[at] is Update
            &&& transfers.len() > 0
            &&& runs(address, ops.take(at), transfers.drop_last())
            &&& reads_register(transfers.last(), address, ops[at]->Update_reg)
        }
    }
}

/// Whether the history `after` is the history `before` followed by what
/// the bus completed of a run of the program `ops` that it broke off at
/// one of its steps.
pub open spec fn broken_off(
    before: Seq<Transfer>,
    after: Seq<Transfer>,
    address: u8,
    ops: Seq<RegOp>,
) -> bool {
    &&& continues(before, after)
    &&& exists|at: int| #[trigger] broken_at(address, ops, after.skip(before.len() as int), at)
}

/// A program that is broken off before anything of it was completed leaves
/// the history as it is.
pub proof fn lemma_broken_off_at_once(history: Seq<Transfer>, address: u8, ops: Seq<RegOp>)
    requires
        ops.len() > 0,
    ensures
        broken_off(history, history, address, ops),
{
    lemma_continues_itself(history);
    assert(ops.take(0) =~= Seq::<RegOp>::empty());
    assert(history.skip(history.len() as int).len() == 0);
    assert(broken_at(address, ops, history.skip(history.len() as int), 0));
}

/// A program that ran, followed by one that was broken off, is their
/// concatenation broken off.
pub proof fn lemma_broken_off_later(
    before: Seq<Transfer>,
    middle: Seq<Transfer>,
    after: Seq<Transfer>,
    address: u8,
    first: Seq<RegOp>,
    second: Seq<RegOp>,
)
    requires
        extended_by(before, middle, address, first),
        broken_off(middle, after, address, second),
    ensures
        broken_off(before, after, address, first + second),
{
    lemma_continues_twice(before, middle, after);
    let tail = after.skip(middle.len() as int);
    let whole = after.skip(before.len() as int);
    let at = choose|at: int| #[trigger] broken_at(address, second, tail, at);
    let done = second.take(at);
    let both = first + second;
    let place = first.len() + at;
    assert(both.take(place) =~= first + done);
    assert(both[place] == second[at]);
    if runs(address, done, tail) {
        lemma_extended_by_both(before, middle, after, address, first, done);
    } else {
        let cut = after.drop_last();
        assert(cut.take(middle.len() as int) =~= middle);
        assert(cut.skip(middle.len() as int) =~= tail.drop_last());
        lemma_extended_by_both(before, middle, cut, address, first, done);
        assert(cut.skip(before.len() as int) =~= whole.drop_last());
        assert(whole.last() == tail.last());
    }
    assert(broken_at(address, both, whole, place));
}

/// A program that was broken off is, with any program behind it, their
/// concatenation broken off.
pub proof fn lemma_broken_off_earlier(
    before: Seq<Transfer>,
    after: Seq<Transfer>,
    address: u8,
    first: Seq<RegOp>,
    second: Seq<RegOp>,
)
    requires
        broken_off(before, after, address, first),
    ensures
        broken_off(before, after, address, first + second),
{
    let whole = after.skip(before.len() as int);
    let at = choose|at: int| #[trigger] broken_at(address, first, whole, at);
    let both = first + second;
    assert(both.take(at) =~= first.take(at));
    assert(both[at] == first[at]);
    assert(broken_at(address, both, whole, at));
}

/// A program that is broken off in its middle part is broken off: if the
/// part `done` ran and the part `stage` behind it was broken off, then the
/// whole of `done`, `stage` and any `rest` was broken off.
pub proof fn lemma_broken_off_within(
    before: Seq<Transfer>,
    reached: Seq<Transfer>,
    after: Seq<Transfer>,
    address: u8,
    done: Seq<RegOp>,
    stage: Seq<RegOp>,
    rest: Seq<RegOp>,
)
    requires
        extended_by(before, reached, address, done),
        broken_off(reached, after, address, stage),
    ensures
        broken_off(before, after, address, done + stage + rest),
{
    lemma_broken_off_later(before, reached, after, address, done, stage);
    lemma_broken_off_earlier(before, after, address, done + stage, rest);
}

/// Stores `value` in register `reg` of the chip at `address`: one write of
/// the register's number and the value is asked of the bus, and what the
/// bus answers is the result.
pub fn write_register<B: I2cBus>(bus: &mut TracedBus<B>, address: u8, reg: u8, value: u8) -> (result: Result<
    (),
    B::Error,
>)
    ensures
        final(bus).requests() == old(bus).requests().push(write_request(address, reg, value)),
        answered(old(bus).records(), final(bus).records(), result is Ok),
        result is Ok ==> final(bus).transfers() == old(bus).transfers().push(
            register_write(address, reg, value),
        ),
        result is Err ==> final(bus).transfers() == old(bus).transfers(),
{
    let bytes = [reg, value];
    assert(bytes@ =~= seq![reg, value]);
    bus.write(address, &bytes)
}

/// Reads register `reg` of the chip at `address`: one read of a byte after
/// the register's number is asked of the bus. If the bus completes it, the
/// result is the byte read; otherwise it is the error of the bus.
pub fn read_register<B: I2cBus>(bus: &mut TracedBus<B>, address: u8, reg: u8) -> (result: Result<
    u8,
    B::Error,
>)
    ensures
        final(bus).requests() == old(bus).requests().push(read_request(address, reg)),
        answered(old(bus).records(), final(bus).records(), result is Ok),
        result matches Ok(value) ==> final(bus).transfers() == old(bus).transfers().push(
            register_read(address, reg, value),
        ),
        result is Err ==> final(bus).transfers() == old(bus).transfers(),
{
    bus.write_read_byte(address, reg)
}

/// Whether the history `after` is `before` followed by an update of
/// register `reg` that the bus broke off: nothing at all, if the read was
/// refused, or the read alone, if the write was. Either way no write was
/// completed.
pub open spec fn update_broken_off(
    before: Seq<Transfer>,
    after: Seq<Transfer>,
    address: u8,
    reg: u8,
) -> bool {
    ||| after == before
    ||| after.len() == before.len() + 1 && after.drop_last() == before && reads_register(
        after.last(),
        address,
        reg,
    )
}

/// Replaces the bits of register `reg` that `mask` selects with those of
/// `data`: one read, then one write of the changed value. If the read is
/// refused, nothing is written.
pub fn update_register<B: I2cBus>(bus: &mut TracedBus<B>, address: u8, reg: u8, mask: u8, data: u8) -> (result:
    Result<(), B::Error>)
    ensures
        continues(old(bus).transfers(), final(bus).transfers()),
        answered(old(bus).records(), final(bus).records(), result is Ok),
        result is Ok ==> op_done(
            address,
            RegOp::Update { reg, mask, data },
            final(bus).transfers().skip(old(bus).transfers().len() as int),
        ),
        result is Err ==> update_broken_off(
            old(bus).transfers(),
            final(bus).transfers(),
            address,
            reg,
        ),
{
    let found = match read_register(bus, address, reg) {
        Ok(value) => value,
        Err(e) => {
            proof {
                lemma_continues_itself(bus.transfers());
            }
            return Err(e);
        },
    };
    proof {
        let middle = bus.transfers();
        assert(middle.drop_last() =~= old(bus).transfers());
        assert(middle.last()->read =~= seq![found]);
    }
    let changed = crate::utils::bits::update_bit(found, mask, data);
    let ghost middle = bus.transfers();
    let result = write_register(bus, address, reg, changed);
    proof {
        lemma_update_done(
            old(bus).transfers(),
            middle,
            bus.transfers(),
            address,
            reg,
            mask,
            data,
            found,
        );
    }
    result
}

/// Runs `program` on the chip at `address`, step by step, and stops at the
/// first transaction that the bus refuses: nothing is asked of the bus
/// after it.
pub fn run_program<B: I2cBus>(bus: &mut TracedBus<B>, address: u8, program: &[RegOp]) -> (result: Result<
    (),
    B::Error,
>)
    ensures
        continues(old(bus).transfers(), final(bus).transfers()),
        answered(old(bus).records(), final(bus).records(), result is Ok),
        result is Ok ==> extended_by(
            old(bus).transfers(),
            final(bus).transfers(),
            address,
            program@,
        ),
        result is Err ==> broken_off(
            old(bus).transfers(),
            final(bus).transfers(),
            address,
            program@,
        ),
{
    let ghost start = bus.transfers();
    proof {
        lemma_extended_by_nothing(start, address);
        assert(program@.take(0) =~= Seq::<RegOp>::empty());
    }
    let mut i: usize = 0;
    while i < program.len()
        invariant
            i <= program.len(),
            start == old(bus).transfers(),
            answered(old(bus).records(), bus.records(), true),
            extended_by(start, bus.transfers(), address, program@.take(i as int)),
        decreases program.len() - i,
    {
        let ghost middle = bus.transfers();
        let op = program[i];
        let step = match op {
            RegOp::Write { reg, value } => {
                let result = write_register(bus, address, reg, value);
                proof {
                    let after = bus.transfers();
                    assert(after.take(middle.len() as int) =~= middle);
                    if result is Ok {
                        assert(after.skip(middle.len() as int) =~= seq![
                            register_write(address, reg, value),
                        ]);
                    }
                }
                result
            },
            RegOp::Update { reg, mask, data } => update_register(bus, address, reg, mask, data),
            RegOp::Read { reg } => {
                match read_register(bus, address, reg) {
                    Ok(value) => {
                        proof {
                            let after = bus.transfers();
                            assert(after.take(middle.len() as int) =~= middle);
                            let tail = after.skip(middle.len() as int);
                            assert(tail =~= seq![register_read(address, reg, value)]);
                            assert(tail[0]->read =~= seq![value]);
                        }
                        Ok(())
                    },
                    Err(e) => {
                        proof {
                            lemma_continues_itself(middle);
                        }
                        Err(e)
                    },
                }
            },
        };
        proof {
            lemma_continues_twice(start, middle, bus.transfers());
        }
        match step {
            Ok(()) => {},
            Err(e) => {
                proof {
                    let after = bus.transfers();
                    let whole = after.skip(start.len() as int);
                    if after == middle {
                        assert(broken_at(address, program@, whole, i as int));
                    } else {
                        assert(op is Update);
                        assert(after.drop_last().skip(start.len() as int) =~= whole.drop_last());
                        assert(whole.last() == after.last());
                        assert(broken_at(address, program@, whole, i as int));
                    }
                }
                return Err(e);
            },
        }
        proof {
            lemma_extended_by_step(
                start,
                middle,
                bus.transfers(),
                address,
                program@.take(i as int),
                op,
            );
            assert(program@.take(i as int + 1) =~= program@.take(i as int).push(op));
        }
        i += 1;
    }
    assert(program@.take(i as int) =~= program@);
    Ok(())
}

} // verus!
