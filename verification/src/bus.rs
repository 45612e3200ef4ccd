//! The shared bus endpoint: an exclusively owned transport, the 7-bit device
//! address every transaction is directed to, and a ghost history of the
//! transactions completed so far.
//!
//! Every driver operation's contract is stated over this history: the exact
//! bytes of each completed write and write-then-read transaction, in order.

use vstd::prelude::*;

verus! {

/// One completed bus transaction, as recorded in a handle's history.
///
/// `Write` is one addressed write of `bytes`; `WriteRead` is one atomic
/// write-then-read that sent `out` and received `response`.
pub enum Transaction {
    Write { address: u8, bytes: Seq<u8> },
    WriteRead { address: u8, out: Seq<u8>, response: Seq<u8> },
}

/// Two executions of one operation append identical transactions whenever
/// they follow the same plan: every operation's contract states its history
/// growth as a sequence determined by the handle's address, the operation's
/// arguments and the bytes the bus returned, so any two runs that start
/// from the same inputs and see the same responses - whether the caller
/// blocks on each transaction or is suspended and resumed at each one -
/// send byte-for-byte the same transactions.
pub proof fn lemma_plan_determines_growth(
    log1: Seq<Transaction>,
    log2: Seq<Transaction>,
    grown1: Seq<Transaction>,
    grown2: Seq<Transaction>,
    plan: Seq<Transaction>,
)
    requires
        grown1 == log1 + plan,
        grown2 == log2 + plan,
    ensures
        grown1.skip(log1.len() as int) == grown2.skip(log2.len() as int),
{
    assert(grown1.skip(log1.len() as int) =~= plan);
    assert(grown2.skip(log2.len() as int) =~= plan);
}

/// A bus-level failure, reported by the transport. The layer here retries
/// nothing: the first failure is surfaced to the caller unchanged.
pub(crate) struct BusError;

/// A transport bound to one device address, together with the ghost history
/// of the transactions it has completed. A failed transaction leaves the
/// history unchanged: the history records completed transactions only.
pub(crate) struct BusHandle<I2C> {
    i2c: I2C,
    address: u8,
    history: Ghost<Seq<Transaction>>,
}

impl<I2C> BusHandle<I2C> {
    /// The transactions completed through this handle, oldest first.
    pub closed spec fn log(self) -> Seq<Transaction> {
        self.history@
    }

    /// The device address transactions are directed to.
    pub closed spec fn addr(self) -> u8 {
        self.address
    }

    /// Bind a transport to a device address; no transaction is issued.
    pub fn new(i2c: I2C, address: u8) -> (r: Self)
        ensures
            r.addr() == address,
            r.log() == Seq::<Transaction>::empty(),
    {
        BusHandle { i2c, address, history: Ghost(Seq::empty()) }
    }

    /// Redirect future transactions to a new device address.
    pub fn retarget(&mut self, address: u8)
        ensures
            final(self).addr() == address,
            final(self).log() == old(self).log(),
    {
        self.address = address;
    }

    /// Give the transport back; the terminal operation on a handle.
    pub fn release(self) -> I2C {
        let BusHandle { i2c, address: _, history: _ } = self;
        i2c
    }
}

impl<I2C: embedded_hal::i2c::I2c> BusHandle<I2C> {
    /// Relies on `embedded_hal::i2c::I2c::write`: one addressed write
    /// transaction of exactly these bytes, or a transport failure.
    #[verifier::external_body]
    pub(crate) fn write(&mut self, bytes: &Vec<u8>) -> (r: Result<(), BusError>)
        ensures
            final(self).addr() == old(self).addr(),
            match r {
                Ok(()) => final(self).log() == old(self).log().push(
                    Transaction::Write { address: old(self).addr(), bytes: bytes@ },
                ),
                Err(_) => final(self).log() == old(self).log(),
            },
    {
        match self.i2c.write(self.address, bytes.as_slice()) {
            Ok(()) => Ok(()),
            Err(_) => Err(BusError),
        }
    }

    /// Relies on `embedded_hal::i2c::I2c::write_read`: one atomic
    /// write-then-read transaction that sends these bytes and fills a buffer
    /// of exactly `read_len` bytes, or a transport failure.
    #[verifier::external_body]
    pub(crate) fn write_read(&mut self, out: &Vec<u8>, read_len: usize) -> (r: Result<
        Vec<u8>,
        BusError,
    >)
        ensures
            final(self).addr() == old(self).addr(),
            match r {
                Ok(data) => data@.len() == read_len && final(self).log() == old(self).log().push(
                    Transaction::WriteRead {
                        address: old(self).addr(),
                        out: out@,
                        response: data@,
                    },
                ),
                Err(_) => final(self).log() == old(self).log(),
            },
    {
        let mut buffer = vec![0u8; read_len];
        match self.i2c.write_read(self.address, out.as_slice(), buffer.as_mut_slice()) {
            Ok(()) => Ok(buffer),
            Err(_) => Err(BusError),
        }
    }
}

} // verus!
