//! Driver for a serial-in/parallel-out shift-register chain behind four
//! digital control lines (output-enable, data, clock, latch).
//!
//! The driver owns a 64-bit output buffer that callers edit bit by bit
//! (`set`, `get`, `toggle`, one-based indices) and then serialize with
//! `shift_out`. Serialization is computed here as an exact sequence of
//! pin commands — export, direction, data/clock pulses most-significant
//! bit first, one latch pulse — which a thin I/O layer replays on the
//! hardware. The mock register produces no commands at all.

use vstd::prelude::*;

verus! {

/// Width of the output buffer in bits: one bit per downstream output cell.
pub const BUFFER_WIDTH: u64 = 64;

/// The kinds of hardware a register bank can drive.
///
/// `LED` and `RELAIS` bind the four control lines to fixed, known-good
/// pin numbers; `MOCK` binds no real pins and performs no physical I/O.
pub enum RegisterType {
    LED,
    RELAIS,
    MOCK,
}

/// Errors of the driver.
///
/// `OutOfRangeBit` is returned by the buffer accessors for a one-based
/// index outside `1..=BUFFER_WIDTH`. The pin failures carry the number
/// of the pin on which the underlying I/O call failed; export and
/// direction failures are warnings (setup continues), a write failure
/// during the serial stream is fatal for that commit.
#[derive(PartialEq, Eq, Structural, Clone, Copy, Debug)]
pub enum ShiftRegisterError {
    OutOfRangeBit,
    PinExportFailure(u64),
    PinDirectionFailure(u64),
    PinWriteFailure(u64),
}

/// One primitive operation on a physical pin, named by its pin number.
///
/// This is exactly the capability the driver consumes: export a pin,
/// configure it as an output, or drive its logic level.
#[derive(PartialEq, Eq, Structural, Clone, Copy, Debug)]
pub enum PinCommand {
    Export(u64),
    SetDirectionOut(u64),
    SetValue(u64, bool),
}

/// A shift-register bank: four control-pin numbers, the output buffer,
/// and the kind of hardware behind it.
///
/// The pin bindings are fixed at construction; only `data` ever changes,
/// and only through `set`, `toggle`, `reset` and `init`.
pub struct ShiftRegister {
    pub oe_pin: u64,
    pub ds_pin: u64,
    pub clock_pin: u64,
    pub latch_pin: u64,
    pub data: u64,
    pub register_type: RegisterType,
}

/// Whether `pos` is a zero-based bit position inside the buffer.
pub open spec fn valid_bit_pos(pos: u64) -> bool {
    pos < BUFFER_WIDTH
}

/// Whether `num` is a one-based bit index a caller may pass to
/// `set`, `get` or `toggle`.
pub open spec fn valid_bit_index(num: u64) -> bool {
    1 <= num && num <= BUFFER_WIDTH
}

/// Bit `pos` (zero-based) of `data`.
pub open spec fn spec_bit(data: u64, pos: u64) -> bool {
    (data >> pos) & 1 == 1
}

/// The buffer bit addressed by the one-based index `num`:
/// index 1 reads bit 0, index 64 reads bit 63.
pub open spec fn spec_get(data: u64, num: u64) -> bool
    recommends
        valid_bit_index(num),
{
    spec_bit(data, (num - 1) as u64)
}

/// `data` with the bit addressed by one-based index `num` set to 1.
pub open spec fn spec_set(data: u64, num: u64) -> u64
    recommends
        valid_bit_index(num),
{
    data | (1u64 << ((num - 1) as u64))
}

/// `data` with the bit addressed by one-based index `num` flipped.
pub open spec fn spec_toggle(data: u64, num: u64) -> u64
    recommends
        valid_bit_index(num),
{
    data ^ (1u64 << ((num - 1) as u64))
}

impl ShiftRegister {
    /// Whether this register is the mock, which never touches hardware.
    pub open spec fn spec_is_mock(self) -> bool {
        self.register_type is MOCK
    }

    /// The other register with the same pin bindings and kind, but
    /// buffer contents `data`.
    pub open spec fn spec_with_data(self, data: u64) -> ShiftRegister {
        ShiftRegister { data, ..self }
    }

    /// Creates a driver for the given kind of hardware.
    ///
    /// The four control lines are bound to the wiring of that kind
    /// (the mock binds pin number 0 everywhere) and the buffer starts
    /// all zero. Construction only records pin numbers; it never
    /// touches hardware and never fails.
    pub fn new(register_type: RegisterType) -> (r: ShiftRegister)
        ensures
            r.data == 0,
            r.register_type == register_type,
            register_type is LED ==> r.oe_pin == 276 && r.ds_pin == 38 && r.clock_pin == 44
                && r.latch_pin == 40,
            register_type is RELAIS ==> r.oe_pin == 277 && r.ds_pin == 45 && r.clock_pin == 39
                && r.latch_pin == 37,
            register_type is MOCK ==> r.oe_pin == 0 && r.ds_pin == 0 && r.clock_pin == 0
                && r.latch_pin == 0,
    {
        match register_type {
            RegisterType::LED => ShiftRegister {
                oe_pin: 276,
                ds_pin: 38,
                clock_pin: 44,
                latch_pin: 40,
                data: 0,
                register_type: RegisterType::LED,
            },
            RegisterType::RELAIS => ShiftRegister {
                oe_pin: 277,
                ds_pin: 45,
                clock_pin: 39,
                latch_pin: 37,
                data: 0,
                register_type: RegisterType::RELAIS,
            },
            RegisterType::MOCK => ShiftRegister {
                oe_pin: 0,
                ds_pin: 0,
                clock_pin: 0,
                latch_pin: 0,
                data: 0,
                register_type: RegisterType::MOCK,
            },
        }
    }

    /// Reads the buffer bit addressed by the one-based index `num`
    /// without side effects.
    ///
    /// Indices outside `1..=BUFFER_WIDTH` are rejected with
    /// `OutOfRangeBit`.
    pub fn get(&self, num: u64) -> (r: Result<bool, ShiftRegisterError>)
        ensures
            valid_bit_index(num) ==> r == Ok::<bool, ShiftRegisterError>(
                spec_get(self.data, num),
            ),
            !valid_bit_index(num) ==> r == Err::<bool, ShiftRegisterError>(
                ShiftRegisterError::OutOfRangeBit,
            ),
    {
        if num < 1 || num > BUFFER_WIDTH {
            return Err(ShiftRegisterError::OutOfRangeBit);
        }
        Ok((self.data >> (num - 1)) & 1 == 1)
    }

    /// Sets the buffer bit addressed by the one-based index `num` to 1,
    /// leaving every other bit and the pin bindings untouched.
    ///
    /// Indices outside `1..=BUFFER_WIDTH` are rejected with
    /// `OutOfRangeBit` and the register is left unchanged.
    pub fn set(&mut self, num: u64) -> (r: Result<(), ShiftRegisterError>)
        ensures
            valid_bit_index(num) ==> r == Ok::<(), ShiftRegisterError>(())
                && *final(self) == old(self).spec_with_data(spec_set(old(self).data, num))
                && forall|j: u64| valid_bit_index(j) ==> spec_get(final(self).data, j) == (j == num
                || spec_get(old(self).data, j)),
            !valid_bit_index(num) ==> r == Err::<(), ShiftRegisterError>(
                ShiftRegisterError::OutOfRangeBit,
            ) && *final(self) == *old(self),
    {
        if num < 1 || num > BUFFER_WIDTH {
            return Err(ShiftRegisterError::OutOfRangeBit);
        }
        self.data = self.data | (1u64 << (num - 1));
        proof {
            assert forall|j: u64| valid_bit_index(j) implies spec_get(self.data, j) == (j == num
                || spec_get(old(self).data, j)) by {
                lemma_or_mask_bit(old(self).data, (num - 1) as u64, (j - 1) as u64);
            }
        }
        Ok(())
    }

    /// Flips the buffer bit addressed by the one-based index `num`,
    /// leaving every other bit and the pin bindings untouched.
    ///
    /// Indices outside `1..=BUFFER_WIDTH` are rejected with
    /// `OutOfRangeBit` and the register is left unchanged.
    pub fn toggle(&mut self, num: u64) -> (r: Result<(), ShiftRegisterError>)
        ensures
            valid_bit_index(num) ==> r == Ok::<(), ShiftRegisterError>(())
                && *final(self) == old(self).spec_with_data(spec_toggle(old(self).data, num))
                && forall|j: u64| valid_bit_index(j) ==> spec_get(final(self).data, j) == (
                if j == num {
                    !spec_get(old(self).data, j)
                } else {
                    spec_get(old(self).data, j)
                }),
            !valid_bit_index(num) ==> r == Err::<(), ShiftRegisterError>(
                ShiftRegisterError::OutOfRangeBit,
            ) && *final(self) == *old(self),
    {
        if num < 1 || num > BUFFER_WIDTH {
            return Err(ShiftRegisterError::OutOfRangeBit);
        }
        self.data = self.data ^ (1u64 << (num - 1));
        proof {
            assert forall|j: u64| valid_bit_index(j) implies spec_get(self.data, j) == (
            if j == num {
                !spec_get(old(self).data, j)
            } else {
                spec_get(old(self).data, j)
            }) by {
                lemma_xor_mask_bit(old(self).data, (num - 1) as u64, (j - 1) as u64);
            }
        }
        Ok(())
    }

    /// Clears the whole buffer to zero without touching hardware.
    pub fn reset(&mut self)
        ensures
            *final(self) == old(self).spec_with_data(0),
    {
        self.data = 0;
    }

    /// The export commands of this register: one `Export` per control
    /// pin, output-enable first, then data, clock, latch. None for the
    /// mock.
    pub open spec fn spec_export_cmds(self) -> Seq<PinCommand> {
        if self.spec_is_mock() {
            Seq::empty()
        } else {
            seq![
                PinCommand::Export(self.oe_pin),
                PinCommand::Export(self.ds_pin),
                PinCommand::Export(self.clock_pin),
                PinCommand::Export(self.latch_pin),
            ]
        }
    }

    /// The direction-setup commands of this register: each control pin
    /// is configured as an output and then driven low — output-enable
    /// low keeps the chain's outputs enabled, the other three lines
    /// rest at their idle level. None for the mock.
    pub open spec fn spec_direction_cmds(self) -> Seq<PinCommand> {
        if self.spec_is_mock() {
            Seq::empty()
        } else {
            seq![
                PinCommand::SetDirectionOut(self.oe_pin),
                PinCommand::SetValue(self.oe_pin, false),
                PinCommand::SetDirectionOut(self.ds_pin),
                PinCommand::SetValue(self.ds_pin, false),
                PinCommand::SetDirectionOut(self.clock_pin),
                PinCommand::SetValue(self.clock_pin, false),
                PinCommand::SetDirectionOut(self.latch_pin),
                PinCommand::SetValue(self.latch_pin, false),
            ]
        }
    }

    /// The three commands that clock one buffer bit into the chain:
    /// drive the data line to the bit at position `pos`, then pulse the
    /// clock line high and low once.
    pub open spec fn spec_bit_cmds(self, pos: u64) -> Seq<PinCommand>
        recommends
            valid_bit_pos(pos),
    {
        seq![
            PinCommand::SetValue(self.ds_pin, spec_bit(self.data, pos)),
            PinCommand::SetValue(self.clock_pin, true),
            PinCommand::SetValue(self.clock_pin, false),
        ]
    }

    /// The commands that clock out the `count` most significant buffer
    /// bits, starting at position 63 and descending.
    pub open spec fn spec_clocking_cmds(self, count: nat) -> Seq<PinCommand>
        recommends
            count <= BUFFER_WIDTH,
        decreases count,
    {
        if count == 0 {
            Seq::empty()
        } else {
            self.spec_clocking_cmds((count - 1) as nat) + self.spec_bit_cmds(
                (BUFFER_WIDTH - count) as u64,
            )
        }
    }

    /// The two commands of the latch pulse that presents the freshly
    /// clocked-in bits on the chain's parallel outputs.
    pub open spec fn spec_latch_cmds(self) -> Seq<PinCommand> {
        seq![
            PinCommand::SetValue(self.latch_pin, true),
            PinCommand::SetValue(self.latch_pin, false),
        ]
    }

    /// The full serial stream of one commit: all 64 buffer bits,
    /// most significant first, each followed by one clock pulse, and
    /// one latch pulse at the end. Empty for the mock.
    pub open spec fn spec_serial_cmds(self) -> Seq<PinCommand> {
        if self.spec_is_mock() {
            Seq::empty()
        } else {
            self.spec_clocking_cmds(BUFFER_WIDTH as nat) + self.spec_latch_cmds()
        }
    }

    /// Computes the export commands for this register's four control
    /// pins; the mock register yields no commands at all.
    ///
    /// Export failures are warnings by design: the I/O layer replaying
    /// these commands should report a failed export and continue with
    /// the remaining pins.
    pub fn export_pins(&self) -> (r: Vec<PinCommand>)
        ensures
            r@ == self.spec_export_cmds(),
            self.spec_is_mock() ==> r@ == Seq::<PinCommand>::empty(),
    {
        let mut cmds: Vec<PinCommand> = Vec::new();
        match self.register_type {
            RegisterType::LED | RegisterType::RELAIS => {
                cmds.push(PinCommand::Export(self.oe_pin));
                cmds.push(PinCommand::Export(self.ds_pin));
                cmds.push(PinCommand::Export(self.clock_pin));
                cmds.push(PinCommand::Export(self.latch_pin));
                proof {
                    assert(cmds@ =~= self.spec_export_cmds());
                }
            },
            RegisterType::MOCK => {},
        }
        cmds
    }

    /// Computes the direction-setup commands: every control pin becomes
    /// an output and is driven low, output-enable (active low) first so
    /// the chain stays enabled. The mock register yields no commands.
    ///
    /// Direction failures are warnings by design, like export failures.
    pub fn set_pin_direction(&self) -> (r: Vec<PinCommand>)
        ensures
            r@ == self.spec_direction_cmds(),
            self.spec_is_mock() ==> r@ == Seq::<PinCommand>::empty(),
    {
        let mut cmds: Vec<PinCommand> = Vec::new();
        match self.register_type {
            RegisterType::LED | RegisterType::RELAIS => {
                cmds.push(PinCommand::SetDirectionOut(self.oe_pin));
                cmds.push(PinCommand::SetValue(self.oe_pin, false));
                cmds.push(PinCommand::SetDirectionOut(self.ds_pin));
                cmds.push(PinCommand::SetValue(self.ds_pin, false));
                cmds.push(PinCommand::SetDirectionOut(self.clock_pin));
                cmds.push(PinCommand::SetValue(self.clock_pin, false));
                cmds.push(PinCommand::SetDirectionOut(self.latch_pin));
                cmds.push(PinCommand::SetValue(self.latch_pin, false));
                proof {
                    assert(cmds@ =~= self.spec_direction_cmds());
                }
            },
            RegisterType::MOCK => {},
        }
        cmds
    }

    /// Computes the full commit of the current buffer as a plan of pin
    /// commands, without altering the buffer: setup (export, then
    /// direction configuration), then the serial stream that clocks all
    /// 64 bits most-significant first and pulses the latch once. The
    /// mock register yields an empty plan.
    pub fn shift_out(&self) -> (r: CommitPlan)
        ensures
            r.setup@ == self.spec_export_cmds() + self.spec_direction_cmds(),
            r.serial@ == self.spec_serial_cmds(),
            self.spec_is_mock() ==> r.setup@ == Seq::<PinCommand>::empty() && r.serial@
                == Seq::<PinCommand>::empty(),
    {
        match self.register_type {
            RegisterType::LED | RegisterType::RELAIS => {
                let mut setup = self.export_pins();
                let mut dirs = self.set_pin_direction();
                setup.append(&mut dirs);

                let mut serial: Vec<PinCommand> = Vec::new();
                let mut i: u64 = 0;
                while i < BUFFER_WIDTH
                    invariant
                        i <= BUFFER_WIDTH,
                        serial@ == self.spec_clocking_cmds(i as nat),
                    decreases BUFFER_WIDTH - i,
                {
                    let pos = BUFFER_WIDTH - 1 - i;
                    let level = (self.data >> pos) & 1 == 1;
                    serial.push(PinCommand::SetValue(self.ds_pin, level));
                    serial.push(PinCommand::SetValue(self.clock_pin, true));
                    serial.push(PinCommand::SetValue(self.clock_pin, false));
                    proof {
                        assert(self.spec_clocking_cmds((i + 1) as nat) == self.spec_clocking_cmds(
                            i as nat,
                        ) + self.spec_bit_cmds((BUFFER_WIDTH - (i + 1)) as u64));
                        assert(serial@ =~= self.spec_clocking_cmds((i + 1) as nat));
                    }
                    i = i + 1;
                }
                serial.push(PinCommand::SetValue(self.latch_pin, true));
                serial.push(PinCommand::SetValue(self.latch_pin, false));
                proof {
                    assert(serial@ =~= self.spec_serial_cmds());
                }
                CommitPlan { setup, serial }
            },
            RegisterType::MOCK => CommitPlan { setup: Vec::new(), serial: Vec::new() },
        }
    }

    /// Clears the buffer to zero and computes the commit plan that
    /// drives the all-zero state out, bringing a chain whose physical
    /// state is unknown after power-up to known all-zero outputs once
    /// the plan is replayed.
    pub fn init(&mut self) -> (r: CommitPlan)
        ensures
            *final(self) == old(self).spec_with_data(0),
            r.setup@ == final(self).spec_export_cmds() + final(self).spec_direction_cmds(),
            r.serial@ == final(self).spec_serial_cmds(),
    {
        self.reset();
        self.shift_out()
    }
}

/// Clocking out `count` bits takes exactly three commands per bit.
pub proof fn lemma_clocking_cmds_len(reg: ShiftRegister, count: nat)
    ensures
        reg.spec_clocking_cmds(count).len() == 3 * count,
    decreases count,
{
    if count > 0 {
        lemma_clocking_cmds_len(reg, (count - 1) as nat);
    }
}

/// Within the clocked part of the stream, the k-th clocked bit is the
/// bit at position `63 - k`: the most significant bit goes first, and
/// each bit is followed by exactly one clock pulse, high then low.
pub proof fn lemma_clocking_cmds_indexed(reg: ShiftRegister, count: nat, k: nat)
    requires
        count <= BUFFER_WIDTH,
        k < count,
    ensures
        reg.spec_clocking_cmds(count).len() == 3 * count,
        reg.spec_clocking_cmds(count)[3 * k as int] == PinCommand::SetValue(
            reg.ds_pin,
            spec_bit(reg.data, (BUFFER_WIDTH - 1 - k) as u64),
        ),
        reg.spec_clocking_cmds(count)[3 * k as int + 1] == PinCommand::SetValue(
            reg.clock_pin,
            true,
        ),
        reg.spec_clocking_cmds(count)[3 * k as int + 2] == PinCommand::SetValue(
            reg.clock_pin,
            false,
        ),
    decreases count,
{
    lemma_clocking_cmds_len(reg, count);
    lemma_clocking_cmds_len(reg, (count - 1) as nat);
    if k < count - 1 {
        lemma_clocking_cmds_indexed(reg, (count - 1) as nat, k);
    }
}

/// The full serial stream of a non-mock register: 194 commands — for
/// each k in `0..64` the commands at indices `3k`, `3k+1`, `3k+2`
/// drive the data line to buffer bit `63 - k` and pulse the clock high
/// then low, and the last two commands pulse the latch high then low.
/// So the stream is most-significant-bit first, one clock pulse per
/// bit, one latch pulse after all 64 bits.
pub proof fn lemma_serial_stream_order(reg: ShiftRegister, k: nat)
    requires
        !reg.spec_is_mock(),
        k < BUFFER_WIDTH,
    ensures
        reg.spec_serial_cmds().len() == 194,
        reg.spec_serial_cmds()[3 * k as int] == PinCommand::SetValue(
            reg.ds_pin,
            spec_bit(reg.data, (BUFFER_WIDTH - 1 - k) as u64),
        ),
        reg.spec_serial_cmds()[3 * k as int + 1] == PinCommand::SetValue(reg.clock_pin, true),
        reg.spec_serial_cmds()[3 * k as int + 2] == PinCommand::SetValue(reg.clock_pin, false),
        reg.spec_serial_cmds()[192] == PinCommand::SetValue(reg.latch_pin, true),
        reg.spec_serial_cmds()[193] == PinCommand::SetValue(reg.latch_pin, false),
{
    lemma_clocking_cmds_indexed(reg, BUFFER_WIDTH as nat, k);
}

/// A computed commit: `setup` exports the pins and configures their
/// directions (failures there are warnings), `serial` is the
/// data/clock/latch stream (a failure there must abort the commit).
pub struct CommitPlan {
    pub setup: Vec<PinCommand>,
    pub serial: Vec<PinCommand>,
}

/// Effect of raising one bit: `data | (1 << n)` agrees with `data` on
/// every position but `n`, where it reads 1.
pub proof fn lemma_or_mask_bit(data: u64, n: u64, p: u64)
    requires
        valid_bit_pos(n),
        valid_bit_pos(p),
    ensures
        spec_bit(data | (1u64 << n), p) == (p == n || spec_bit(data, p)),
{
    assert((((data | (1u64 << n)) >> p) & 1 == 1) == (p == n || ((data >> p) & 1 == 1)))
        by (bit_vector)
        requires
            n < 64,
            p < 64,
    ;
}

/// Effect of flipping one bit: `data ^ (1 << n)` agrees with `data` on
/// every position but `n`, where it reads inverted.
pub proof fn lemma_xor_mask_bit(data: u64, n: u64, p: u64)
    requires
        valid_bit_pos(n),
        valid_bit_pos(p),
    ensures
        spec_bit(data ^ (1u64 << n), p) == (if p == n {
            !spec_bit(data, p)
        } else {
            spec_bit(data, p)
        }),
{
    assert((((data ^ (1u64 << n)) >> p) & 1 == 1) == (if p == n {
        !((data >> p) & 1 == 1)
    } else {
        ((data >> p) & 1 == 1)
    })) by (bit_vector)
        requires
            n < 64,
            p < 64,
    ;
}

/// A cleared buffer has every bit clear: a fresh register answers
/// `false` for every valid index.
pub proof fn lemma_fresh_buffer_clear(num: u64)
    requires
        valid_bit_index(num),
    ensures
        !spec_get(0, num),
{
    let p = (num - 1) as u64;
    assert((0u64 >> p) & 1 != 1) by (bit_vector);
}

/// Setting a bit twice is idempotent: the buffer equals the one after a
/// single `set`.
pub proof fn lemma_set_idempotent(data: u64, num: u64)
    requires
        valid_bit_index(num),
    ensures
        spec_set(spec_set(data, num), num) == spec_set(data, num),
{
    let n = (num - 1) as u64;
    assert((data | (1u64 << n)) | (1u64 << n) == data | (1u64 << n)) by (bit_vector);
}

/// Toggling a bit twice restores the buffer exactly.
pub proof fn lemma_toggle_involutive(data: u64, num: u64)
    requires
        valid_bit_index(num),
    ensures
        spec_toggle(spec_toggle(data, num), num) == data,
{
    let n = (num - 1) as u64;
    assert((data ^ (1u64 << n)) ^ (1u64 << n) == data) by (bit_vector);
}

/// The buffer after toggling one bit `count` times in a row.
pub open spec fn spec_toggle_n(data: u64, num: u64, count: nat) -> u64
    recommends
        valid_bit_index(num),
    decreases count,
{
    if count == 0 {
        data
    } else {
        spec_toggle(spec_toggle_n(data, num, (count - 1) as nat), num)
    }
}

/// Toggling one bit an even number of times leaves the buffer as it
/// was; an odd number of times leaves it as after a single toggle.
pub proof fn lemma_toggle_parity(data: u64, num: u64, count: nat)
    requires
        valid_bit_index(num),
    ensures
        count % 2 == 0 ==> spec_toggle_n(data, num, count) == data,
        count % 2 == 1 ==> spec_toggle_n(data, num, count) == spec_toggle(data, num),
        count % 2 == 0 ==> spec_get(spec_toggle_n(data, num, count), num) == spec_get(data, num),
        count % 2 == 1 ==> spec_get(spec_toggle_n(data, num, count), num) == !spec_get(data, num),
    decreases count,
{
    lemma_xor_mask_bit(data, (num - 1) as u64, (num - 1) as u64);
    if count == 1 {
        assert(spec_toggle_n(data, num, 1) == spec_toggle(spec_toggle_n(data, num, 0), num));
        assert(spec_toggle_n(data, num, 0) == data);
    }
    if count >= 2 {
        let x = spec_toggle_n(data, num, (count - 2) as nat);
        assert(spec_toggle_n(data, num, (count - 1) as nat) == spec_toggle(x, num));
        assert(spec_toggle_n(data, num, count) == spec_toggle(spec_toggle(x, num), num));
        lemma_toggle_parity(data, num, (count - 2) as nat);
        lemma_toggle_involutive(x, num);
    }
}

} // verus!
