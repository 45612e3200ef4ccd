//! Driver for an 8-channel bus multiplexer controlled by one port-enable
//! byte: bit `i` of the control byte enables channel `i`.
//!
//! The handle keeps a cached copy of the last port state successfully
//! written; the device is never read back. The cache is updated only after
//! the write transaction succeeds, so a failure leaves both the cache and
//! the recorded transaction history unchanged.

use vstd::prelude::*;

use crate::bits::bit_get;
use crate::bus::{BusHandle, Transaction};

verus! {

broadcast use vstd::array::group_array_axioms;

/// Default bus address of the multiplexer, all strap pins low.
pub const DEFAULT_DEVICE_ADDRESS: u8 = 0x70;

/// Errors reported by the multiplexer driver.
#[derive(Debug, Clone, Copy, PartialEq, Eq, Structural)]
pub enum PCA9548Error {
    /// The transport reported a bus-level failure.
    I2CError,
    /// The port index names no port of this 8-channel device.
    PortError,
}

/// Whether one multiplexer port is enabled.
#[derive(Debug, Clone, Copy, PartialEq, Eq, Structural)]
pub enum PortState {
    Enabled,
    Disabled,
}

impl From<bool> for PortState {
    /// `true` means enabled.
    fn from(value: bool) -> (r: Self) {
        if value {
            PortState::Enabled
        } else {
            PortState::Disabled
        }
    }
}

impl vstd::std_specs::convert::FromSpecImpl<bool> for PortState {
    open spec fn obeys_from_spec() -> bool {
        true
    }

    open spec fn from_spec(value: bool) -> Self {
        if value {
            PortState::Enabled
        } else {
            PortState::Disabled
        }
    }
}

/// The control byte for a full port state: bit `i` is set iff `states[i]`,
/// and no other bit is set.
pub open spec fn spec_port_code(states: Seq<bool>) -> u8
    recommends
        states.len() == 8,
{
    (if states[0] {
        0x01u8
    } else {
        0x00u8
    }) | (if states[1] {
        0x02u8
    } else {
        0x00u8
    }) | (if states[2] {
        0x04u8
    } else {
        0x00u8
    }) | (if states[3] {
        0x08u8
    } else {
        0x00u8
    }) | (if states[4] {
        0x10u8
    } else {
        0x00u8
    }) | (if states[5] {
        0x20u8
    } else {
        0x00u8
    }) | (if states[6] {
        0x40u8
    } else {
        0x00u8
    }) | (if states[7] {
        0x80u8
    } else {
        0x00u8
    })
}

/// The port state encoded by a control byte: element `i` is bit `i`.
pub open spec fn spec_code_states(code: u8) -> Seq<bool> {
    Seq::new(8, |i: int| bit_get(code, i as u8))
}

/// The bus address selected by the three hardware strap pins: the base
/// address with bit 0 from `a0`, bit 1 from `a1` and bit 2 from `a2`.
pub open spec fn spec_address_from_pins(a0: bool, a1: bool, a2: bool) -> u8 {
    (if a0 {
        0x71u8
    } else {
        0x70u8
    }) | (if a1 {
        0x02u8
    } else {
        0x00u8
    }) | (if a2 {
        0x04u8
    } else {
        0x00u8
    })
}

/// Derive the multiplexer's bus address from the three strap pins.
pub fn address_from_pins(a0: bool, a1: bool, a2: bool) -> (address: u8)
    ensures
        address == spec_address_from_pins(a0, a1, a2),
{
    (if a0 {
        0x71u8
    } else {
        0x70u8
    }) | (if a1 {
        0x02u8
    } else {
        0x00u8
    }) | (if a2 {
        0x04u8
    } else {
        0x00u8
    })
}

/// Bit `i` of the packed control byte is exactly channel `i`'s state, for
/// every 8-channel state and every bit position.
pub proof fn lemma_port_code_bit(states: Seq<bool>, i: u8)
    requires
        states.len() == 8,
        i < 8,
    ensures
        bit_get(spec_port_code(states), i) == states[i as int],
{
    let x0: u8 = if states[0] {
        0x01
    } else {
        0x00
    };
    let x1: u8 = if states[1] {
        0x02
    } else {
        0x00
    };
    let x2: u8 = if states[2] {
        0x04
    } else {
        0x00
    };
    let x3: u8 = if states[3] {
        0x08
    } else {
        0x00
    };
    let x4: u8 = if states[4] {
        0x10
    } else {
        0x00
    };
    let x5: u8 = if states[5] {
        0x20
    } else {
        0x00
    };
    let x6: u8 = if states[6] {
        0x40
    } else {
        0x00
    };
    let x7: u8 = if states[7] {
        0x80
    } else {
        0x00
    };
    let c = spec_port_code(states);
    assert(c == x0 | x1 | x2 | x3 | x4 | x5 | x6 | x7);
    assert((((c >> 0u8) & 1 == 1) == (x0 == 0x01)) && (((c >> 1u8) & 1 == 1) == (x1 == 0x02)) && ((
    (c >> 2u8) & 1 == 1) == (x2 == 0x04)) && (((c >> 3u8) & 1 == 1) == (x3 == 0x08)) && (((c >> 4u8)
        & 1 == 1) == (x4 == 0x10)) && (((c >> 5u8) & 1 == 1) == (x5 == 0x20)) && (((c >> 6u8) & 1
        == 1) == (x6 == 0x40)) && (((c >> 7u8) & 1 == 1) == (x7 == 0x80))) by (bit_vector)
        requires
            c == x0 | x1 | x2 | x3 | x4 | x5 | x6 | x7,
            x0 == 0x00u8 || x0 == 0x01u8,
            x1 == 0x00u8 || x1 == 0x02u8,
            x2 == 0x00u8 || x2 == 0x04u8,
            x3 == 0x00u8 || x3 == 0x08u8,
            x4 == 0x00u8 || x4 == 0x10u8,
            x5 == 0x00u8 || x5 == 0x20u8,
            x6 == 0x00u8 || x6 == 0x40u8,
            x7 == 0x00u8 || x7 == 0x80u8,
    ;
    if i == 0 {
        assert(bit_get(c, i) == states[0]);
    } else if i == 1 {
        assert(bit_get(c, i) == states[1]);
    } else if i == 2 {
        assert(bit_get(c, i) == states[2]);
    } else if i == 3 {
        assert(bit_get(c, i) == states[3]);
    } else if i == 4 {
        assert(bit_get(c, i) == states[4]);
    } else if i == 5 {
        assert(bit_get(c, i) == states[5]);
    } else if i == 6 {
        assert(bit_get(c, i) == states[6]);
    } else {
        assert(bit_get(c, i) == states[7]);
    }
}

/// Packing is injective: two 8-channel states with the same control byte
/// are the same state.
pub proof fn lemma_port_code_injective(s1: Seq<bool>, s2: Seq<bool>)
    requires
        s1.len() == 8,
        s2.len() == 8,
        spec_port_code(s1) == spec_port_code(s2),
    ensures
        s1 == s2,
{
    assert forall|i: int| 0 <= i < 8 implies s1[i] == s2[i] by {
        lemma_port_code_bit(s1, i as u8);
        lemma_port_code_bit(s2, i as u8);
    }
    assert(s1 =~= s2);
}

/// Unpacking inverts packing: reading the bits of a state's control byte
/// gives the state back.
pub proof fn lemma_code_states_of_port_code(s: Seq<bool>)
    requires
        s.len() == 8,
    ensures
        spec_code_states(spec_port_code(s)) == s,
{
    assert forall|i: int| 0 <= i < 8 implies spec_code_states(spec_port_code(s))[i] == s[i] by {
        lemma_port_code_bit(s, i as u8);
    }
    assert(spec_code_states(spec_port_code(s)) =~= s);
}

/// Packing is onto: every byte is the control byte of the state read off
/// its bits, so packing is a bijection between 8-channel states and bytes.
pub proof fn lemma_port_code_of_code_states(code: u8)
    ensures
        spec_code_states(code).len() == 8,
        spec_port_code(spec_code_states(code)) == code,
{
    let s = spec_code_states(code);
    let c2 = spec_port_code(s);
    assert forall|i: u8| i < 8 implies bit_get(c2, i) == bit_get(code, i) by {
        lemma_port_code_bit(s, i);
        assert(s[i as int] == bit_get(code, i));
    }
    assert(bit_get(c2, 0) == bit_get(code, 0));
    assert(bit_get(c2, 1) == bit_get(code, 1));
    assert(bit_get(c2, 2) == bit_get(code, 2));
    assert(bit_get(c2, 3) == bit_get(code, 3));
    assert(bit_get(c2, 4) == bit_get(code, 4));
    assert(bit_get(c2, 5) == bit_get(code, 5));
    assert(bit_get(c2, 6) == bit_get(code, 6));
    assert(bit_get(c2, 7) == bit_get(code, 7));
    assert(c2 == code) by (bit_vector)
        requires
            (((c2 >> 0u8) & 1 == 1) == ((code >> 0u8) & 1 == 1)),
            (((c2 >> 1u8) & 1 == 1) == ((code >> 1u8) & 1 == 1)),
            (((c2 >> 2u8) & 1 == 1) == ((code >> 2u8) & 1 == 1)),
            (((c2 >> 3u8) & 1 == 1) == ((code >> 3u8) & 1 == 1)),
            (((c2 >> 4u8) & 1 == 1) == ((code >> 4u8) & 1 == 1)),
            (((c2 >> 5u8) & 1 == 1) == ((code >> 5u8) & 1 == 1)),
            (((c2 >> 6u8) & 1 == 1) == ((code >> 6u8) & 1 == 1)),
            (((c2 >> 7u8) & 1 == 1) == ((code >> 7u8) & 1 == 1)),
    ;
}

/// The one transaction a port-state write issues: the packed control byte
/// sent as a single-byte write.
pub open spec fn spec_port_write_txn(address: u8, states: Seq<bool>) -> Transaction {
    Transaction::Write { address, bytes: seq![spec_port_code(states)] }
}

/// Multiplexer driver handle. Owns the transport exclusively.
pub struct PCA9548<I2C> {
    bus: BusHandle<I2C>,
    state: [bool; 8],
}

impl<I2C> PCA9548<I2C> {
    /// The transactions this handle has completed, oldest first.
    pub closed spec fn log(self) -> Seq<Transaction> {
        self.bus.log()
    }

    /// The bus address this handle directs transactions to.
    pub closed spec fn addr(self) -> u8 {
        self.bus.addr()
    }

    /// The cached port state: the last state successfully written.
    pub closed spec fn states(self) -> Seq<bool> {
        self.state@
    }

    /// Create a new multiplexer handle at the default address, with every
    /// port recorded as disabled. No transaction is issued.
    pub fn new(i2c: I2C) -> (r: Self)
        ensures
            r.addr() == DEFAULT_DEVICE_ADDRESS,
            r.states() == Seq::new(8, |i: int| false),
            r.log() == Seq::<Transaction>::empty(),
    {
        let r = PCA9548 { bus: BusHandle::new(i2c, DEFAULT_DEVICE_ADDRESS), state: [false;8] };
        proof {
            assert(r.states() =~= Seq::new(8, |i: int| false));
        }
        r
    }

    /// Select the address according to the hardware strap pins.
    pub fn with_address_pins(self, a0: bool, a1: bool, a2: bool) -> (r: Self)
        ensures
            r.addr() == spec_address_from_pins(a0, a1, a2),
            r.states() == self.states(),
            r.log() == self.log(),
    {
        let mut this = self;
        this.bus.retarget(address_from_pins(a0, a1, a2));
        this
    }

    /// Select an explicit bus address.
    pub fn with_address(self, address: u8) -> (r: Self)
        ensures
            r.addr() == address,
            r.states() == self.states(),
            r.log() == self.log(),
    {
        let mut this = self;
        this.bus.retarget(address);
        this
    }

    /// Pack a full port state into its control byte.
    pub fn port_code(states: [bool; 8]) -> (code: u8)
        ensures
            code == spec_port_code(states@),
    {
        (if states[0] {
            0x01u8
        } else {
            0x00u8
        }) | (if states[1] {
            0x02u8
        } else {
            0x00u8
        }) | (if states[2] {
            0x04u8
        } else {
            0x00u8
        }) | (if states[3] {
            0x08u8
        } else {
            0x00u8
        }) | (if states[4] {
            0x10u8
        } else {
            0x00u8
        }) | (if states[5] {
            0x20u8
        } else {
            0x00u8
        }) | (if states[6] {
            0x40u8
        } else {
            0x00u8
        }) | (if states[7] {
            0x80u8
        } else {
            0x00u8
        })
    }

    /// Destroy the handle and give the transport back; the terminal
    /// operation on this handle.
    pub fn destroy(self) -> I2C {
        self.bus.release()
    }
}

impl<I2C: embedded_hal::i2c::I2c> PCA9548<I2C> {
    /// Enable or disable one port, leaving the other ports as cached.
    ///
    /// A port index of 8 or more is rejected before any transaction is
    /// issued. Otherwise one write of the packed control byte is performed;
    /// the cache is updated only if that write succeeds.
    pub fn set_port(&mut self, port: u8, state: bool) -> (r: Result<(), PCA9548Error>)
        ensures
            final(self).addr() == old(self).addr(),
            match r {
                Ok(()) => port < 8 && final(self).states() == old(self).states().update(
                    port as int,
                    state,
                ) && final(self).log() == old(self).log().push(
                    spec_port_write_txn(old(self).addr(), final(self).states()),
                ),
                Err(e) => final(self).states() == old(self).states() && final(self).log() == old(
                    self,
                ).log() && e == if port >= 8 {
                    PCA9548Error::PortError
                } else {
                    PCA9548Error::I2CError
                },
            },
    {
        if port >= 8 {
            return Err(PCA9548Error::PortError);
        }
        let mut desired = self.state;
        desired[port as usize] = state;
        self.write_ports(desired)
    }

    /// Enable or disable one port, returning the handle for chaining.
    pub fn with_port(self, port: u8, state: bool) -> (r: Result<Self, PCA9548Error>)
        ensures
            match r {
                Ok(d) => port < 8 && d.addr() == self.addr() && d.states() == self.states().update(
                    port as int,
                    state,
                ) && d.log() == self.log().push(spec_port_write_txn(self.addr(), d.states())),
                Err(e) => e == if port >= 8 {
                    PCA9548Error::PortError
                } else {
                    PCA9548Error::I2CError
                },
            },
    {
        let mut this = self;
        match this.set_port(port, state) {
            Ok(()) => Ok(this),
            Err(e) => Err(e),
        }
    }

    /// Set every port at once from an explicit state array.
    pub fn set_ports(&mut self, ports: [bool; 8]) -> (r: Result<(), PCA9548Error>)
        ensures
            final(self).addr() == old(self).addr(),
            match r {
                Ok(()) => final(self).states() == ports@ && final(self).log() == old(
                    self,
                ).log().push(spec_port_write_txn(old(self).addr(), ports@)),
                Err(e) => e == PCA9548Error::I2CError && final(self).states() == old(self).states()
                    && final(self).log() == old(self).log(),
            },
    {
        self.write_ports(ports)
    }

    /// Set every port at once, returning the handle for chaining.
    pub fn with_ports(self, ports: [bool; 8]) -> (r: Result<Self, PCA9548Error>)
        ensures
            match r {
                Ok(d) => d.addr() == self.addr() && d.states() == ports@ && d.log()
                    == self.log().push(spec_port_write_txn(self.addr(), ports@)),
                Err(e) => e == PCA9548Error::I2CError,
            },
    {
        let mut this = self;
        match this.set_ports(ports) {
            Ok(()) => Ok(this),
            Err(e) => Err(e),
        }
    }

    /// Disable all ports.
    pub fn set_ports_disabled(&mut self) -> (r: Result<(), PCA9548Error>)
        ensures
            final(self).addr() == old(self).addr(),
            match r {
                Ok(()) => final(self).states() == Seq::new(8, |i: int| false) && final(self).log()
                    == old(self).log().push(
                    spec_port_write_txn(old(self).addr(), final(self).states()),
                ),
                Err(e) => e == PCA9548Error::I2CError && final(self).states() == old(self).states()
                    && final(self).log() == old(self).log(),
            },
    {
        let all_off: [bool; 8] = [false;8];
        proof {
            assert(all_off@ =~= Seq::new(8, |i: int| false));
        }
        self.set_ports(all_off)
    }

    /// Disable all ports, returning the handle for chaining.
    pub fn with_ports_disabled(self) -> (r: Result<Self, PCA9548Error>)
        ensures
            match r {
                Ok(d) => d.addr() == self.addr() && d.states() == Seq::new(8, |i: int| false)
                    && d.log() == self.log().push(spec_port_write_txn(self.addr(), d.states())),
                Err(e) => e == PCA9548Error::I2CError,
            },
    {
        let mut this = self;
        match this.set_ports_disabled() {
            Ok(()) => Ok(this),
            Err(e) => Err(e),
        }
    }

    /// Enable all ports.
    pub fn set_ports_enabled(&mut self) -> (r: Result<(), PCA9548Error>)
        ensures
            final(self).addr() == old(self).addr(),
            match r {
                Ok(()) => final(self).states() == Seq::new(8, |i: int| true) && final(self).log()
                    == old(self).log().push(
                    spec_port_write_txn(old(self).addr(), final(self).states()),
                ),
                Err(e) => e == PCA9548Error::I2CError && final(self).states() == old(self).states()
                    && final(self).log() == old(self).log(),
            },
    {
        let all_on: [bool; 8] = [true;8];
        proof {
            assert(all_on@ =~= Seq::new(8, |i: int| true));
        }
        self.set_ports(all_on)
    }

    /// Enable all ports, returning the handle for chaining.
    pub fn with_ports_enabled(self) -> (r: Result<Self, PCA9548Error>)
        ensures
            match r {
                Ok(d) => d.addr() == self.addr() && d.states() == Seq::new(8, |i: int| true)
                    && d.log() == self.log().push(spec_port_write_txn(self.addr(), d.states())),
                Err(e) => e == PCA9548Error::I2CError,
            },
    {
        let mut this = self;
        match this.set_ports_enabled() {
            Ok(()) => Ok(this),
            Err(e) => Err(e),
        }
    }

    /// Pack the desired state, write it as one transaction, and commit it
    /// to the cache only on success.
    fn write_ports(&mut self, desired: [bool; 8]) -> (r: Result<(), PCA9548Error>)
        ensures
            final(self).addr() == old(self).addr(),
            match r {
                Ok(()) => final(self).states() == desired@ && final(self).log() == old(
                    self,
                ).log().push(spec_port_write_txn(old(self).addr(), desired@)),
                Err(e) => e == PCA9548Error::I2CError && final(self).states() == old(self).states()
                    && final(self).log() == old(self).log(),
            },
    {
        let code = Self::port_code(desired);
        let mut bytes: Vec<u8> = Vec::new();
        bytes.push(code);
        proof {
            assert(bytes@ =~= seq![spec_port_code(desired@)]);
        }
        match self.bus.write(&bytes) {
            Ok(()) => {
                self.state = desired;
                Ok(())
            },
            Err(_) => Err(PCA9548Error::I2CError),
        }
    }
}

} // verus!
