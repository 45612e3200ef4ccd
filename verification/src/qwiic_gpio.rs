//! Driver for an 8-pin GPIO expander with direct register framing: four
//! one-byte registers (input, output, polarity, direction), a write is
//! `[register, value]`, a read is one atomic write-then-read of the
//! register address.
//!
//! Per-pin operations are read-modify-write: the register is read, one bit
//! is changed, and the result written back, as one logical operation. If
//! the read fails the write is never issued, so the device keeps its prior
//! state.

use vstd::prelude::*;

use crate::bits::{bit_clear, bit_get, bit_set, bit_toggle, flip_bit, read_bit, write_bit};
use crate::bits::{lemma_write_bit_effect, lemma_write_bit_idempotent};
use crate::bus::{BusHandle, Transaction};

verus! {

/// Default bus address of the expander.
pub const DEFAULT_DEVICE_ADDRESS: u8 = 0x27;

/// Input port register - read only. Reflects the incoming logic levels.
pub const REG_INPUT: u8 = 0x00;

/// Output port register: the outgoing logic levels of the output pins.
pub const REG_OUTPUT: u8 = 0x01;

/// Polarity inversion register: a set bit inverts the matching input bit.
pub const REG_POLARITY: u8 = 0x02;

/// Configuration register: a set bit makes the pin an input (the default),
/// a cleared bit an output.
pub const REG_CONFIG: u8 = 0x03;

/// All pins configured as inputs.
pub const ALL_INPUTS: u8 = 0xFF;

/// All pins configured as outputs.
pub const ALL_OUTPUTS: u8 = 0x00;

/// All pins normal polarity.
pub const ALL_NORMAL_POLARITY: u8 = 0x00;

/// All pins inverted polarity.
pub const ALL_INVERTED_POLARITY: u8 = 0xFF;

/// All outputs low.
pub const ALL_OUTPUTS_LOW: u8 = 0x00;

/// All outputs high.
pub const ALL_OUTPUTS_HIGH: u8 = 0xFF;

/// Errors reported by the expander driver.
#[derive(Debug, Clone, Copy, PartialEq, Eq, Structural)]
pub enum Error {
    /// The transport reported a bus-level failure.
    I2C,
    /// Invalid input data provided.
    InvalidInputData,
}

/// Pin direction.
#[derive(Debug, Clone, Copy, PartialEq, Eq, Structural)]
pub enum PinConfig {
    /// Pin configured as input (high impedance) - the default.
    Input,
    /// Pin configured as output (can drive high or low).
    Output,
}

impl PinConfig {
    /// The direction's bit value in the configuration register.
    pub open spec fn spec_bits(self) -> u8 {
        match self {
            PinConfig::Input => 1,
            PinConfig::Output => 0,
        }
    }

    /// Get the direction's register bit value.
    pub fn bits(self) -> (r: u8)
        ensures
            r == self.spec_bits(),
    {
        match self {
            PinConfig::Input => 1,
            PinConfig::Output => 0,
        }
    }
}

/// Pin polarity setting for input reads.
#[derive(Debug, Clone, Copy, PartialEq, Eq, Structural)]
pub enum PinPolarity {
    /// Normal polarity (the default): the input bit reflects the pin.
    Normal,
    /// Inverted polarity: the input bit reflects the inverted pin.
    Inverted,
}

impl PinPolarity {
    /// The polarity's bit value in the polarity register.
    pub open spec fn spec_bits(self) -> u8 {
        match self {
            PinPolarity::Normal => 0,
            PinPolarity::Inverted => 1,
        }
    }

    /// Get the polarity's register bit value.
    pub fn bits(self) -> (r: u8)
        ensures
            r == self.spec_bits(),
    {
        match self {
            PinPolarity::Normal => 0,
            PinPolarity::Inverted => 1,
        }
    }
}

/// Pin logic level.
#[derive(Debug, Clone, Copy, PartialEq, Eq, Structural)]
pub enum PinLevel {
    /// Logic low.
    Low,
    /// Logic high.
    High,
}

impl PinLevel {
    /// The level's bit value in the output register.
    pub open spec fn spec_bits(self) -> u8 {
        match self {
            PinLevel::Low => 0,
            PinLevel::High => 1,
        }
    }

    /// Get the level's register bit value.
    pub fn bits(self) -> (r: u8)
        ensures
            r == self.spec_bits(),
    {
        match self {
            PinLevel::Low => 0,
            PinLevel::High => 1,
        }
    }
}

/// The transaction of a direct register write: `[register, value]`.
pub open spec fn spec_write_txn(address: u8, register: u8, value: u8) -> Transaction {
    Transaction::Write { address, bytes: seq![register, value] }
}

/// The transaction of a direct one-byte register read that got `value`.
pub open spec fn spec_read_txn(address: u8, register: u8, value: u8) -> Transaction {
    Transaction::WriteRead { address, out: seq![register], response: seq![value] }
}

/// The three initialisation writes, in their significant order: all pins
/// inputs, all outputs low, all polarities normal. Direction is set before
/// the output value to avoid a transient drive glitch.
pub open spec fn spec_init_txns(address: u8) -> Seq<Transaction> {
    seq![
        spec_write_txn(address, REG_CONFIG, ALL_INPUTS),
        spec_write_txn(address, REG_OUTPUT, ALL_OUTPUTS_LOW),
        spec_write_txn(address, REG_POLARITY, ALL_NORMAL_POLARITY),
    ]
}

/// The two transactions of a read-modify-write: read `cur` from a
/// register, write back `new`.
pub open spec fn spec_rmw_txns(address: u8, register: u8, cur: u8, new: u8) -> Seq<Transaction> {
    seq![spec_read_txn(address, register, cur), spec_write_txn(address, register, new)]
}

/// The output byte after driving one pin to a level: that pin's bit is the
/// level's bit value, the other bits are unchanged.
pub open spec fn spec_apply_level(cur: u8, pin: u8, level: PinLevel) -> u8 {
    match level {
        PinLevel::High => bit_set(cur, pin),
        PinLevel::Low => bit_clear(cur, pin),
    }
}

/// The configuration byte after setting one pin's direction.
pub open spec fn spec_apply_config(cur: u8, pin: u8, config: PinConfig) -> u8 {
    match config {
        PinConfig::Input => bit_set(cur, pin),
        PinConfig::Output => bit_clear(cur, pin),
    }
}

/// The polarity byte after setting one pin's polarity.
pub open spec fn spec_apply_polarity(cur: u8, pin: u8, polarity: PinPolarity) -> u8 {
    match polarity {
        PinPolarity::Inverted => bit_set(cur, pin),
        PinPolarity::Normal => bit_clear(cur, pin),
    }
}

/// An interrupted initialisation: the history grew by exactly the writes
/// that completed before the failing one, a strict prefix of the three.
pub open spec fn spec_init_partial(pre: Seq<Transaction>, post: Seq<Transaction>, address: u8) -> bool {
    exists|k: int| 0 <= k < 3 && post == pre + #[trigger] spec_init_txns(address).take(k)
}

/// An interrupted read-modify-write: either the read itself failed and the
/// history is unchanged, or the read completed and the write failed, and
/// the history grew by the read alone. Either way no write was issued, so
/// the device keeps its prior register value.
pub open spec fn spec_rmw_partial(
    pre: Seq<Transaction>,
    post: Seq<Transaction>,
    address: u8,
    register: u8,
) -> bool {
    post == pre || exists|cur: u8| post == pre.push(#[trigger] spec_read_txn(address, register, cur))
}

/// A completed set-pin-output: one read of the output register returning
/// some byte, then one write of that byte with the pin driven to the level.
pub open spec fn spec_set_pin_output_ok(
    pre: Seq<Transaction>,
    post: Seq<Transaction>,
    address: u8,
    pin: u8,
    level: PinLevel,
) -> bool {
    exists|cur: u8|
        post == pre + #[trigger] spec_rmw_txns(
            address,
            REG_OUTPUT,
            cur,
            spec_apply_level(cur, pin, level),
        )
}

/// A completed toggle: one read of the output register, then one write of
/// the read byte with the pin's bit flipped.
pub open spec fn spec_toggle_pin_output_ok(
    pre: Seq<Transaction>,
    post: Seq<Transaction>,
    address: u8,
    pin: u8,
) -> bool {
    exists|cur: u8|
        post == pre + #[trigger] spec_rmw_txns(address, REG_OUTPUT, cur, bit_toggle(cur, pin))
}

/// A completed set-pin-config: read-modify-write of the configuration
/// register, the pin's bit driven to the direction's bit value.
pub open spec fn spec_set_pin_config_ok(
    pre: Seq<Transaction>,
    post: Seq<Transaction>,
    address: u8,
    pin: u8,
    config: PinConfig,
) -> bool {
    exists|cur: u8|
        post == pre + #[trigger] spec_rmw_txns(
            address,
            REG_CONFIG,
            cur,
            spec_apply_config(cur, pin, config),
        )
}

/// A completed set-pin-polarity: read-modify-write of the polarity
/// register, the pin's bit driven to the polarity's bit value.
pub open spec fn spec_set_pin_polarity_ok(
    pre: Seq<Transaction>,
    post: Seq<Transaction>,
    address: u8,
    pin: u8,
    polarity: PinPolarity,
) -> bool {
    exists|cur: u8|
        post == pre + #[trigger] spec_rmw_txns(
            address,
            REG_POLARITY,
            cur,
            spec_apply_polarity(cur, pin, polarity),
        )
}

/// A completed single-pin input read: one read of the input register
/// returning some byte whose bit `pin` decodes to the level.
pub open spec fn spec_read_pin_ok(
    pre: Seq<Transaction>,
    post: Seq<Transaction>,
    address: u8,
    pin: u8,
    level: PinLevel,
) -> bool {
    exists|v: u8|
        post == pre.push(#[trigger] spec_read_txn(address, REG_INPUT, v)) && level == (if bit_get(
            v,
            pin,
        ) {
            PinLevel::High
        } else {
            PinLevel::Low
        })
}

/// GPIO expander driver handle. Owns the transport exclusively.
pub struct SparkfunQwiicGpio<I2C> {
    bus: BusHandle<I2C>,
}

impl<I2C> SparkfunQwiicGpio<I2C> {
    /// The transactions this handle has completed, oldest first.
    pub closed spec fn log(self) -> Seq<Transaction> {
        self.bus.log()
    }

    /// The bus address this handle directs transactions to.
    pub closed spec fn addr(self) -> u8 {
        self.bus.addr()
    }

    /// Create a new expander handle at the default address; no transaction
    /// is issued.
    pub fn new(i2c: I2C) -> (r: Self)
        ensures
            r.addr() == DEFAULT_DEVICE_ADDRESS,
            r.log() == Seq::<Transaction>::empty(),
    {
        SparkfunQwiicGpio { bus: BusHandle::new(i2c, DEFAULT_DEVICE_ADDRESS) }
    }

    /// Create a new expander handle at an explicit address; no transaction
    /// is issued.
    pub fn new_with_address(i2c: I2C, address: u8) -> (r: Self)
        ensures
            r.addr() == address,
            r.log() == Seq::<Transaction>::empty(),
    {
        SparkfunQwiicGpio { bus: BusHandle::new(i2c, address) }
    }

    /// Destroy the handle and give the transport back; the terminal
    /// operation on this handle.
    pub fn destroy(self) -> I2C {
        self.bus.release()
    }
}

impl<I2C: embedded_hal::i2c::I2c> SparkfunQwiicGpio<I2C> {
    /// Write one register directly: `[register, value]` as one write.
    pub fn write_register(&mut self, register: u8, value: u8) -> (r: Result<(), Error>)
        ensures
            final(self).addr() == old(self).addr(),
            match r {
                Ok(()) => final(self).log() == old(self).log().push(
                    spec_write_txn(old(self).addr(), register, value),
                ),
                Err(e) => e == Error::I2C && final(self).log() == old(self).log(),
            },
    {
        let mut bytes: Vec<u8> = Vec::new();
        bytes.push(register);
        bytes.push(value);
        proof {
            assert(bytes@ =~= seq![register, value]);
        }
        match self.bus.write(&bytes) {
            Ok(()) => Ok(()),
            Err(_) => Err(Error::I2C),
        }
    }

    /// Read one register: one atomic write-then-read of the register
    /// address, consuming exactly one response byte.
    pub fn read_register(&mut self, register: u8) -> (r: Result<u8, Error>)
        ensures
            final(self).addr() == old(self).addr(),
            match r {
                Ok(v) => final(self).log() == old(self).log().push(
                    spec_read_txn(old(self).addr(), register, v),
                ),
                Err(e) => e == Error::I2C && final(self).log() == old(self).log(),
            },
    {
        let mut bytes: Vec<u8> = Vec::new();
        bytes.push(register);
        proof {
            assert(bytes@ =~= seq![register]);
        }
        match self.bus.write_read(&bytes, 1) {
            Ok(data) => {
                let v = data[0];
                proof {
                    assert(data@ =~= seq![v]);
                }
                Ok(v)
            },
            Err(_) => Err(Error::I2C),
        }
    }

    /// Initialise the device with its default settings: exactly three
    /// writes in order - all pins inputs, all outputs low, all polarities
    /// normal - regardless of prior device state. A failure aborts the
    /// sequence: the writes after the failing one are never issued.
    pub fn init(&mut self) -> (r: Result<(), Error>)
        ensures
            final(self).addr() == old(self).addr(),
            match r {
                Ok(()) => final(self).log() == old(self).log() + spec_init_txns(old(self).addr()),
                Err(e) => e == Error::I2C && spec_init_partial(
                    old(self).log(),
                    final(self).log(),
                    old(self).addr(),
                ),
            },
    {
        let ghost pre = self.log();
        let ghost a = self.addr();
        match self.write_register(REG_CONFIG, ALL_INPUTS) {
            Ok(()) => (),
            Err(e) => {
                proof {
                    assert(self.log() =~= pre + spec_init_txns(a).take(0));
                    assert(spec_init_partial(pre, self.log(), a));
                }
                return Err(e);
            },
        }
        match self.write_register(REG_OUTPUT, ALL_OUTPUTS_LOW) {
            Ok(()) => (),
            Err(e) => {
                proof {
                    assert(self.log() =~= pre + spec_init_txns(a).take(1));
                    assert(spec_init_partial(pre, self.log(), a));
                }
                return Err(e);
            },
        }
        match self.write_register(REG_POLARITY, ALL_NORMAL_POLARITY) {
            Ok(()) => (),
            Err(e) => {
                proof {
                    assert(self.log() =~= pre + spec_init_txns(a).take(2));
                    assert(spec_init_partial(pre, self.log(), a));
                }
                return Err(e);
            },
        }
        proof {
            assert(self.log() =~= pre + spec_init_txns(a));
        }
        Ok(())
    }

    /// Read all input pins at once.
    pub fn read_input_port(&mut self) -> (r: Result<u8, Error>)
        ensures
            final(self).addr() == old(self).addr(),
            match r {
                Ok(v) => final(self).log() == old(self).log().push(
                    spec_read_txn(old(self).addr(), REG_INPUT, v),
                ),
                Err(e) => e == Error::I2C && final(self).log() == old(self).log(),
            },
    {
        self.read_register(REG_INPUT)
    }

    /// Read one input pin: one read of the input register, decoded at the
    /// pin's bit.
    pub fn read_pin_input(&mut self, pin: u8) -> (r: Result<PinLevel, Error>)
        requires
            pin < 8,
        ensures
            final(self).addr() == old(self).addr(),
            match r {
                Ok(level) => spec_read_pin_ok(
                    old(self).log(),
                    final(self).log(),
                    old(self).addr(),
                    pin,
                    level,
                ),
                Err(e) => e == Error::I2C && final(self).log() == old(self).log(),
            },
    {
        let ghost pre = self.log();
        let ghost a = self.addr();
        let port_value = match self.read_input_port() {
            Ok(v) => v,
            Err(e) => {
                return Err(e);
            },
        };
        let level = if read_bit(port_value, pin) {
            PinLevel::High
        } else {
            PinLevel::Low
        };
        proof {
            assert(self.log() == pre.push(spec_read_txn(a, REG_INPUT, port_value)));
            assert(spec_read_pin_ok(pre, self.log(), a, pin, level));
        }
        Ok(level)
    }

    /// Write all output pins at once.
    pub fn write_output_port(&mut self, value: u8) -> (r: Result<(), Error>)
        ensures
            final(self).addr() == old(self).addr(),
            match r {
                Ok(()) => final(self).log() == old(self).log().push(
                    spec_write_txn(old(self).addr(), REG_OUTPUT, value),
                ),
                Err(e) => e == Error::I2C && final(self).log() == old(self).log(),
            },
    {
        self.write_register(REG_OUTPUT, value)
    }

    /// Read the current output port register value.
    pub fn read_output_port(&mut self) -> (r: Result<u8, Error>)
        ensures
            final(self).addr() == old(self).addr(),
            match r {
                Ok(v) => final(self).log() == old(self).log().push(
                    spec_read_txn(old(self).addr(), REG_OUTPUT, v),
                ),
                Err(e) => e == Error::I2C && final(self).log() == old(self).log(),
            },
    {
        self.read_register(REG_OUTPUT)
    }

    /// Drive one output pin to a level: a read-modify-write of the output
    /// register, one logical operation. If the read fails, the write is
    /// never issued and the device keeps its prior output byte.
    pub fn set_pin_output(&mut self, pin: u8, level: PinLevel) -> (r: Result<(), Error>)
        requires
            pin < 8,
        ensures
            final(self).addr() == old(self).addr(),
            match r {
                Ok(()) => spec_set_pin_output_ok(
                    old(self).log(),
                    final(self).log(),
                    old(self).addr(),
                    pin,
                    level,
                ),
                Err(e) => e == Error::I2C && spec_rmw_partial(
                    old(self).log(),
                    final(self).log(),
                    old(self).addr(),
                    REG_OUTPUT,
                ),
            },
    {
        let ghost pre = self.log();
        let ghost a = self.addr();
        let cur = match self.read_output_port() {
            Ok(v) => v,
            Err(e) => {
                return Err(e);
            },
        };
        let set = match level {
            PinLevel::High => true,
            PinLevel::Low => false,
        };
        let new = write_bit(cur, pin, set);
        match self.write_output_port(new) {
            Ok(()) => {
                proof {
                    assert(self.log() =~= pre + spec_rmw_txns(
                        a,
                        REG_OUTPUT,
                        cur,
                        spec_apply_level(cur, pin, level),
                    ));
                    assert(spec_set_pin_output_ok(pre, self.log(), a, pin, level));
                }
                Ok(())
            },
            Err(e) => {
                proof {
                    assert(self.log() == pre.push(spec_read_txn(a, REG_OUTPUT, cur)));
                    assert(spec_rmw_partial(pre, self.log(), a, REG_OUTPUT));
                }
                Err(e)
            },
        }
    }

    /// Flip one output pin: a read-modify-write of the output register
    /// with the pin's bit toggled.
    pub fn toggle_pin_output(&mut self, pin: u8) -> (r: Result<(), Error>)
        requires
            pin < 8,
        ensures
            final(self).addr() == old(self).addr(),
            match r {
                Ok(()) => spec_toggle_pin_output_ok(
                    old(self).log(),
                    final(self).log(),
                    old(self).addr(),
                    pin,
                ),
                Err(e) => e == Error::I2C && spec_rmw_partial(
                    old(self).log(),
                    final(self).log(),
                    old(self).addr(),
                    REG_OUTPUT,
                ),
            },
    {
        let ghost pre = self.log();
        let ghost a = self.addr();
        let cur = match self.read_output_port() {
            Ok(v) => v,
            Err(e) => {
                return Err(e);
            },
        };
        let new = flip_bit(cur, pin);
        match self.write_output_port(new) {
            Ok(()) => {
                proof {
                    assert(self.log() =~= pre + spec_rmw_txns(a, REG_OUTPUT, cur, bit_toggle(cur, pin)));
                    assert(spec_toggle_pin_output_ok(pre, self.log(), a, pin));
                }
                Ok(())
            },
            Err(e) => {
                proof {
                    assert(self.log() == pre.push(spec_read_txn(a, REG_OUTPUT, cur)));
                    assert(spec_rmw_partial(pre, self.log(), a, REG_OUTPUT));
                }
                Err(e)
            },
        }
    }

    /// Set one pin's direction: a read-modify-write of the configuration
    /// register.
    pub fn set_pin_config(&mut self, pin: u8, config: PinConfig) -> (r: Result<(), Error>)
        requires
            pin < 8,
        ensures
            final(self).addr() == old(self).addr(),
            match r {
                Ok(()) => spec_set_pin_config_ok(
                    old(self).log(),
                    final(self).log(),
                    old(self).addr(),
                    pin,
                    config,
                ),
                Err(e) => e == Error::I2C && spec_rmw_partial(
                    old(self).log(),
                    final(self).log(),
                    old(self).addr(),
                    REG_CONFIG,
                ),
            },
    {
        let ghost pre = self.log();
        let ghost a = self.addr();
        let cur = match self.read_register(REG_CONFIG) {
            Ok(v) => v,
            Err(e) => {
                return Err(e);
            },
        };
        let set = match config {
            PinConfig::Input => true,
            PinConfig::Output => false,
        };
        let new = write_bit(cur, pin, set);
        match self.write_register(REG_CONFIG, new) {
            Ok(()) => {
                proof {
                    assert(self.log() =~= pre + spec_rmw_txns(
                        a,
                        REG_CONFIG,
                        cur,
                        spec_apply_config(cur, pin, config),
                    ));
                    assert(spec_set_pin_config_ok(pre, self.log(), a, pin, config));
                }
                Ok(())
            },
            Err(e) => {
                proof {
                    assert(self.log() == pre.push(spec_read_txn(a, REG_CONFIG, cur)));
                    assert(spec_rmw_partial(pre, self.log(), a, REG_CONFIG));
                }
                Err(e)
            },
        }
    }

    /// Set every pin's direction at once.
    pub fn set_port_config(&mut self, config: u8) -> (r: Result<(), Error>)
        ensures
            final(self).addr() == old(self).addr(),
            match r {
                Ok(()) => final(self).log() == old(self).log().push(
                    spec_write_txn(old(self).addr(), REG_CONFIG, config),
                ),
                Err(e) => e == Error::I2C && final(self).log() == old(self).log(),
            },
    {
        self.write_register(REG_CONFIG, config)
    }

    /// Set one pin's input polarity: a read-modify-write of the polarity
    /// register.
    pub fn set_pin_polarity(&mut self, pin: u8, polarity: PinPolarity) -> (r: Result<(), Error>)
        requires
            pin < 8,
        ensures
            final(self).addr() == old(self).addr(),
            match r {
                Ok(()) => spec_set_pin_polarity_ok(
                    old(self).log(),
                    final(self).log(),
                    old(self).addr(),
                    pin,
                    polarity,
                ),
                Err(e) => e == Error::I2C && spec_rmw_partial(
                    old(self).log(),
                    final(self).log(),
                    old(self).addr(),
                    REG_POLARITY,
                ),
            },
    {
        let ghost pre = self.log();
        let ghost a = self.addr();
        let cur = match self.read_register(REG_POLARITY) {
            Ok(v) => v,
            Err(e) => {
                return Err(e);
            },
        };
        let set = match polarity {
            PinPolarity::Inverted => true,
            PinPolarity::Normal => false,
        };
        let new = write_bit(cur, pin, set);
        match self.write_register(REG_POLARITY, new) {
            Ok(()) => {
                proof {
                    assert(self.log() =~= pre + spec_rmw_txns(
                        a,
                        REG_POLARITY,
                        cur,
                        spec_apply_polarity(cur, pin, polarity),
                    ));
                    assert(spec_set_pin_polarity_ok(pre, self.log(), a, pin, polarity));
                }
                Ok(())
            },
            Err(e) => {
                proof {
                    assert(self.log() == pre.push(spec_read_txn(a, REG_POLARITY, cur)));
                    assert(spec_rmw_partial(pre, self.log(), a, REG_POLARITY));
                }
                Err(e)
            },
        }
    }

    /// Set every pin's polarity at once.
    pub fn set_port_polarity(&mut self, polarity: u8) -> (r: Result<(), Error>)
        ensures
            final(self).addr() == old(self).addr(),
            match r {
                Ok(()) => final(self).log() == old(self).log().push(
                    spec_write_txn(old(self).addr(), REG_POLARITY, polarity),
                ),
                Err(e) => e == Error::I2C && final(self).log() == old(self).log(),
            },
    {
        self.write_register(REG_POLARITY, polarity)
    }

    /// Read the configuration register.
    pub fn read_port_config(&mut self) -> (r: Result<u8, Error>)
        ensures
            final(self).addr() == old(self).addr(),
            match r {
                Ok(v) => final(self).log() == old(self).log().push(
                    spec_read_txn(old(self).addr(), REG_CONFIG, v),
                ),
                Err(e) => e == Error::I2C && final(self).log() == old(self).log(),
            },
    {
        self.read_register(REG_CONFIG)
    }

    /// Read the polarity register.
    pub fn read_port_polarity(&mut self) -> (r: Result<u8, Error>)
        ensures
            final(self).addr() == old(self).addr(),
            match r {
                Ok(v) => final(self).log() == old(self).log().push(
                    spec_read_txn(old(self).addr(), REG_POLARITY, v),
                ),
                Err(e) => e == Error::I2C && final(self).log() == old(self).log(),
            },
    {
        self.read_register(REG_POLARITY)
    }
}

/// Driving a pin to a level is idempotent: the byte a second, identical
/// set-pin-output would write equals the byte the first one wrote, each
/// write leaves the pin's bit at the level's value, and toggling a pin
/// twice restores the original byte.
/// Every completed set-pin-output appends exactly one read-then-write
/// pair, and the written byte leaves the pin's bit at the level's value:
/// two calls in succession issue two such pairs, and after each one the
/// output register's bit for the pin is set exactly when the level is
/// high, whatever bytes the reads returned.
pub proof fn lemma_set_pin_output_writes_level(
    pre: Seq<Transaction>,
    post: Seq<Transaction>,
    address: u8,
    pin: u8,
    level: PinLevel,
)
    requires
        pin < 8,
        spec_set_pin_output_ok(pre, post, address, pin, level),
    ensures
        post.len() == pre.len() + 2,
        post.take(pre.len() as int) == pre,
        post.last() matches Transaction::Write { address: wa, bytes } && wa == address
            && bytes.len() == 2 && bytes[0] == REG_OUTPUT && (bit_get(bytes[1], pin) <==> level
            == PinLevel::High),
{
    let cur = choose|cur: u8|
        post == pre + spec_rmw_txns(address, REG_OUTPUT, cur, spec_apply_level(cur, pin, level));
    assert(post.take(pre.len() as int) =~= pre);
    lemma_write_bit_effect(cur, pin, pin);
}

pub proof fn lemma_set_pin_output_idempotent(cur: u8, pin: u8, level: PinLevel)
    requires
        pin < 8,
    ensures
        spec_apply_level(spec_apply_level(cur, pin, level), pin, level) == spec_apply_level(
            cur,
            pin,
            level,
        ),
        bit_get(spec_apply_level(cur, pin, PinLevel::High), pin),
        !bit_get(spec_apply_level(cur, pin, PinLevel::Low), pin),
        bit_toggle(bit_toggle(cur, pin), pin) == cur,
{
    lemma_write_bit_idempotent(cur, pin);
    lemma_write_bit_effect(cur, pin, pin);
}

} // verus!
