//! Driver for a force sensor whose registers are reached through a
//! command-framed protocol: every transaction wraps the register address in
//! an opcode/register/length/terminator envelope.
//!
//! Multi-byte register values are big-endian: the byte read from the lower
//! register address is the most significant. The measurement frame follows
//! the same convention for all three of its 16-bit fields.

use vstd::prelude::*;

use crate::bus::{BusHandle, Transaction};

verus! {

/// Default bus address of the sensor.
pub const DEFAULT_DEVICE_ADDRESS: u8 = 0x04;

/// Opcode of a read command frame.
pub const READ_COMMAND: u8 = 0x01;

/// Opcode of a write command frame.
pub const WRITE_COMMAND: u8 = 0x02;

/// Sentinel byte closing every command frame.
pub const END_OF_PACKET: u8 = 0xFF;

/// Register holding the sensor's bus address.
pub const REG_ADDRESS: u8 = 0x00;

/// First register of the two-byte serial number.
pub const REG_SERIAL: u8 = 0x01;

/// Register holding the firmware revision.
pub const REG_FIRMWARE: u8 = 0x07;

/// First register of the two-byte baseline value.
pub const REG_BASELINE: u8 = 0x29;

/// First register of the six-byte measurement frame.
pub const REG_OUTPUT_DATA: u8 = 0x84;

/// Errors reported by the sensor driver.
#[derive(Debug, Clone, Copy, PartialEq, Eq, Structural)]
pub enum Error {
    /// The transport reported a bus-level failure.
    I2C,
    /// Invalid input data provided.
    InvalidInputData,
}

/// Snapshot of the sensor's identity registers.
#[derive(Debug, Clone, Copy, PartialEq, Eq, Hash, Structural)]
pub struct SensorInfo {
    /// Sensor configured address.
    pub address: u8,
    /// Sensor serial number.
    pub serial: u16,
    /// Sensor firmware revision.
    pub firmware: u8,
    /// Sensor baseline value.
    pub baseline: u16,
}

/// One decoded measurement frame.
#[derive(Debug, Clone, Copy, PartialEq, Eq, Hash, Structural)]
pub struct SensorFrameMeasurement {
    /// Frame index.
    pub index: u16,
    /// Sensor timestamp (0.1 ms increments).
    pub timestamp: u16,
    /// Sensor output (10 bit raw count).
    pub output: u16,
}

/// The command frame writing `value` to one register:
/// `[opcode, register, length, value, terminator]`.
pub open spec fn spec_write_frame(register: u8, value: u8) -> Seq<u8> {
    seq![WRITE_COMMAND, register, 0x01u8, value, END_OF_PACKET]
}

/// The command frame requesting `count` bytes starting at a register:
/// `[opcode, register, length, terminator]`.
pub open spec fn spec_read_frame(register: u8, count: u8) -> Seq<u8> {
    seq![READ_COMMAND, register, count, END_OF_PACKET]
}

/// The 16-bit value of two consecutive registers, high byte first.
pub open spec fn spec_be16(hi: u8, lo: u8) -> u16 {
    ((hi as int) * 256 + (lo as int)) as u16
}

/// The transaction of a framed register write.
pub open spec fn spec_write_txn(address: u8, register: u8, value: u8) -> Transaction {
    Transaction::Write { address, bytes: spec_write_frame(register, value) }
}

/// The transaction of a framed read of `count` bytes that got `response`.
pub open spec fn spec_read_txn(address: u8, register: u8, count: u8, response: Seq<u8>) -> Transaction {
    Transaction::WriteRead { address, out: spec_read_frame(register, count), response }
}

/// Build the command frame writing `value` to one register.
pub fn write_frame(register: u8, value: u8) -> (frame: Vec<u8>)
    ensures
        frame@ == spec_write_frame(register, value),
{
    let mut frame: Vec<u8> = Vec::new();
    frame.push(WRITE_COMMAND);
    frame.push(register);
    frame.push(0x01);
    frame.push(value);
    frame.push(END_OF_PACKET);
    proof {
        assert(frame@ =~= spec_write_frame(register, value));
    }
    frame
}

/// Build the command frame requesting `count` bytes starting at a register.
pub fn read_frame(register: u8, count: u8) -> (frame: Vec<u8>)
    ensures
        frame@ == spec_read_frame(register, count),
{
    let mut frame: Vec<u8> = Vec::new();
    frame.push(READ_COMMAND);
    frame.push(register);
    frame.push(count);
    frame.push(END_OF_PACKET);
    proof {
        assert(frame@ =~= spec_read_frame(register, count));
    }
    frame
}

/// Combine two consecutive register bytes into their 16-bit value, high
/// byte first.
pub fn be16(hi: u8, lo: u8) -> (r: u16)
    ensures
        r == spec_be16(hi, lo),
{
    (hi as u16) * 256 + (lo as u16)
}

/// Decode a six-byte measurement frame: index, timestamp and output, each
/// two registers big-endian.
pub fn decode_sensor_frame(data: &Vec<u8>) -> (m: SensorFrameMeasurement)
    requires
        data@.len() == 6,
    ensures
        m == (SensorFrameMeasurement {
            index: spec_be16(data@[0], data@[1]),
            timestamp: spec_be16(data@[2], data@[3]),
            output: spec_be16(data@[4], data@[5]),
        }),
{
    SensorFrameMeasurement {
        index: be16(data[0], data[1]),
        timestamp: be16(data[2], data[3]),
        output: be16(data[4], data[5]),
    }
}

/// The four reads of an identity snapshot, in issue order: address, serial,
/// firmware, baseline.
pub open spec fn spec_get_info_txns(
    address: u8,
    addr_byte: u8,
    serial: Seq<u8>,
    firmware: u8,
    baseline: Seq<u8>,
) -> Seq<Transaction> {
    seq![
        spec_read_txn(address, REG_ADDRESS, 1, seq![addr_byte]),
        spec_read_txn(address, REG_SERIAL, 2, serial),
        spec_read_txn(address, REG_FIRMWARE, 1, seq![firmware]),
        spec_read_txn(address, REG_BASELINE, 2, baseline),
    ]
}

/// A successful identity snapshot: the history grew by exactly the four
/// reads in order, and every field of the snapshot is decoded from the
/// bytes those reads returned, the two-byte fields big-endian.
pub open spec fn spec_get_info_ok(
    pre: Seq<Transaction>,
    post: Seq<Transaction>,
    address: u8,
    info: SensorInfo,
) -> bool {
    exists|serial: Seq<u8>, baseline: Seq<u8>|
        serial.len() == 2 && baseline.len() == 2 && post == pre + #[trigger] spec_get_info_txns(
            address,
            info.address,
            serial,
            info.firmware,
            baseline,
        ) && info.serial == spec_be16(serial[0], serial[1]) && info.baseline == spec_be16(
            baseline[0],
            baseline[1],
        )
}

/// A failed identity snapshot: the history grew by exactly the reads that
/// completed before the failing one, a strict prefix of the four.
pub open spec fn spec_get_info_partial(
    pre: Seq<Transaction>,
    post: Seq<Transaction>,
    address: u8,
) -> bool {
    exists|addr_byte: u8, serial: Seq<u8>, firmware: u8, baseline: Seq<u8>, k: int|
        serial.len() == 2 && baseline.len() == 2 && 0 <= k < 4 && post == pre
            + #[trigger] spec_get_info_txns(address, addr_byte, serial, firmware, baseline).take(k)
}

/// Force sensor driver handle. Owns the transport exclusively.
pub struct SingleTact<I2C> {
    bus: BusHandle<I2C>,
}

impl<I2C> SingleTact<I2C> {
    /// The transactions this handle has completed, oldest first.
    pub closed spec fn log(self) -> Seq<Transaction> {
        self.bus.log()
    }

    /// The bus address this handle directs transactions to.
    pub closed spec fn addr(self) -> u8 {
        self.bus.addr()
    }

    /// Create a new sensor handle at the given address; no transaction is
    /// issued.
    pub fn new(i2c: I2C, address: u8) -> (r: Self)
        ensures
            r.addr() == address,
            r.log() == Seq::<Transaction>::empty(),
    {
        SingleTact { bus: BusHandle::new(i2c, address) }
    }

    /// Destroy the handle and give the transport back; the terminal
    /// operation on this handle.
    pub fn destroy(self) -> I2C {
        self.bus.release()
    }
}

impl<I2C: embedded_hal::i2c::I2c> SingleTact<I2C> {
    /// Write one register through a command frame.
    pub fn write_register(&mut self, register: u8, value: u8) -> (r: Result<(), Error>)
        ensures
            final(self).addr() == old(self).addr(),
            match r {
                Ok(()) => final(self).log() == old(self).log().push(
                    spec_write_txn(old(self).addr(), register, value),
                ),
                Err(e) => e == Error::I2C && final(self).log() == old(self).log(),
            },
    {
        let frame = write_frame(register, value);
        match self.bus.write(&frame) {
            Ok(()) => Ok(()),
            Err(_) => Err(Error::I2C),
        }
    }

    /// Read one register through a command frame; exactly one response
    /// byte is consumed.
    pub fn read_register(&mut self, register: u8) -> (r: Result<u8, Error>)
        ensures
            final(self).addr() == old(self).addr(),
            match r {
                Ok(v) => final(self).log() == old(self).log().push(
                    spec_read_txn(old(self).addr(), register, 1, seq![v]),
                ),
                Err(e) => e == Error::I2C && final(self).log() == old(self).log(),
            },
    {
        let frame = read_frame(register, 1);
        match self.bus.write_read(&frame, 1) {
            Ok(data) => {
                let v = data[0];
                proof {
                    assert(data@ =~= seq![v]);
                }
                Ok(v)
            },
            Err(_) => Err(Error::I2C),
        }
    }

    /// Read `count` consecutive registers through one command frame.
    pub fn read_registers(&mut self, register: u8, count: u8) -> (r: Result<Vec<u8>, Error>)
        ensures
            final(self).addr() == old(self).addr(),
            match r {
                Ok(data) => data@.len() == count && final(self).log() == old(self).log().push(
                    spec_read_txn(old(self).addr(), register, count, data@),
                ),
                Err(e) => e == Error::I2C && final(self).log() == old(self).log(),
            },
    {
        let frame = read_frame(register, count);
        match self.bus.write_read(&frame, count as usize) {
            Ok(data) => Ok(data),
            Err(_) => Err(Error::I2C),
        }
    }

    /// Set the device address: write the address register, then direct all
    /// subsequent transactions to the new address. On failure the handle
    /// keeps its old address.
    pub fn set_address(&mut self, address: u8) -> (r: Result<(), Error>)
        ensures
            match r {
                Ok(()) => final(self).addr() == address && final(self).log() == old(
                    self,
                ).log().push(spec_write_txn(old(self).addr(), REG_ADDRESS, address)),
                Err(e) => e == Error::I2C && final(self).addr() == old(self).addr()
                    && final(self).log() == old(self).log(),
            },
    {
        match self.write_register(REG_ADDRESS, address) {
            Ok(()) => {
                self.bus.retarget(address);
                Ok(())
            },
            Err(e) => Err(e),
        }
    }

    /// Read the sensor's identity snapshot: four framed reads in fixed
    /// order (address, two-byte serial, firmware, two-byte baseline),
    /// decoded big-endian. A failure aborts before any later read: the
    /// history then grew by exactly the reads already completed.
    pub fn get_info(&mut self) -> (r: Result<SensorInfo, Error>)
        ensures
            final(self).addr() == old(self).addr(),
            match r {
                Ok(info) => spec_get_info_ok(
                    old(self).log(),
                    final(self).log(),
                    old(self).addr(),
                    info,
                ),
                Err(e) => e == Error::I2C && spec_get_info_partial(
                    old(self).log(),
                    final(self).log(),
                    old(self).addr(),
                ),
            },
    {
        let ghost pre = self.log();
        let ghost a = self.addr();
        let address = match self.read_register(REG_ADDRESS) {
            Ok(v) => v,
            Err(e) => {
                proof {
                    assert(self.log() =~= pre + spec_get_info_txns(
                        a,
                        0,
                        seq![0u8, 0u8],
                        0,
                        seq![0u8, 0u8],
                    ).take(0));
                    assert(spec_get_info_partial(pre, self.log(), a));
                }
                return Err(e);
            },
        };
        let serial_bytes = match self.read_registers(REG_SERIAL, 2) {
            Ok(v) => v,
            Err(e) => {
                proof {
                    assert(self.log() =~= pre + spec_get_info_txns(
                        a,
                        address,
                        seq![0u8, 0u8],
                        0,
                        seq![0u8, 0u8],
                    ).take(1));
                    assert(spec_get_info_partial(pre, self.log(), a));
                }
                return Err(e);
            },
        };
        let serial = be16(serial_bytes[0], serial_bytes[1]);
        let firmware = match self.read_register(REG_FIRMWARE) {
            Ok(v) => v,
            Err(e) => {
                proof {
                    assert(self.log() =~= pre + spec_get_info_txns(
                        a,
                        address,
                        serial_bytes@,
                        0,
                        seq![0u8, 0u8],
                    ).take(2));
                    assert(spec_get_info_partial(pre, self.log(), a));
                }
                return Err(e);
            },
        };
        let baseline_bytes = match self.read_registers(REG_BASELINE, 2) {
            Ok(v) => v,
            Err(e) => {
                proof {
                    assert(self.log() =~= pre + spec_get_info_txns(
                        a,
                        address,
                        serial_bytes@,
                        firmware,
                        seq![0u8, 0u8],
                    ).take(3));
                    assert(spec_get_info_partial(pre, self.log(), a));
                }
                return Err(e);
            },
        };
        let baseline = be16(baseline_bytes[0], baseline_bytes[1]);
        let info = SensorInfo { address, serial, firmware, baseline };
        proof {
            assert(self.log() =~= pre + spec_get_info_txns(
                a,
                info.address,
                serial_bytes@,
                info.firmware,
                baseline_bytes@,
            ));
            assert(spec_get_info_ok(pre, self.log(), a, info));
        }
        Ok(info)
    }

    /// Read the six-byte measurement frame in one transaction and decode
    /// its three big-endian 16-bit fields.
    pub fn read_sensor_frame(&mut self) -> (r: Result<SensorFrameMeasurement, Error>)
        ensures
            final(self).addr() == old(self).addr(),
            match r {
                Ok(m) => exists|data: Seq<u8>|
                    data.len() == 6 && final(self).log() == old(self).log().push(
                        spec_read_txn(old(self).addr(), REG_OUTPUT_DATA, 6, data),
                    ) && m == (SensorFrameMeasurement {
                        index: spec_be16(data[0], data[1]),
                        timestamp: spec_be16(data[2], data[3]),
                        output: spec_be16(data[4], data[5]),
                    }),
                Err(e) => e == Error::I2C && final(self).log() == old(self).log(),
            },
    {
        let data = match self.read_registers(REG_OUTPUT_DATA, 6) {
            Ok(v) => v,
            Err(e) => {
                return Err(e);
            },
        };
        Ok(decode_sensor_frame(&data))
    }
}

} // verus!
