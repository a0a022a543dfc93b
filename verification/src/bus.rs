use vstd::prelude::*;
use vstd::slice::slice_to_vec;

verus! {

/// A failure reported by the I2C transport while driving the wire,
/// one variant per embedded-hal error kind.
///
/// The transport does not retry: every failure surfaces to the caller
/// unchanged, so that a wiring fault is never masked.
#[derive(Clone, Copy, Debug, PartialEq, Eq, Structural)]
pub enum BusError {
    /// The addressed device did not acknowledge the transfer.
    Nack,
    /// A bus fault, e.g. a misplaced START or STOP condition.
    BusFault,
    /// Bus arbitration was lost to another master.
    ArbitrationLoss,
    /// A receive buffer was overrun.
    Overrun,
    /// Any other transport failure.
    Other,
}

/// One complete write transaction as observed on the wire: the 7-bit
/// device address and the bytes delivered in a single transfer.
#[derive(Debug, PartialEq)]
pub struct BusWriteRec {
    pub addr: u8,
    pub data: Vec<u8>,
}

impl View for BusWriteRec {
    type V = (u8, Seq<u8>);

    open spec fn view(&self) -> (u8, Seq<u8>) {
        (self.addr, self.data@)
    }
}

/// A mock transport: it records every completed write transaction in
/// order and can be armed to fail the next transfer with a chosen error,
/// so that callers can be checked byte-for-byte against the wire.
pub struct MockBus {
    /// Every completed write, in the order it was issued.
    pub writes: Vec<BusWriteRec>,
    /// When set, the next write attempt fails with this error instead of
    /// recording anything.
    pub fail_next: Option<BusError>,
}

impl MockBus {
    /// The wire history: the sequence of completed (address, bytes) writes.
    pub open spec fn log(&self) -> Seq<(u8, Seq<u8>)> {
        self.writes@.map(|i: int, w: BusWriteRec| w@)
    }

    pub fn new() -> (m: MockBus)
        ensures
            m.log() == Seq::<(u8, Seq<u8>)>::empty(),
            m.fail_next is None,
    {
        let m = MockBus { writes: Vec::new(), fail_next: None };
        proof {
            assert(m.log() =~= Seq::<(u8, Seq<u8>)>::empty());
        }
        m
    }

    /// Arm the mock so that the next write attempt fails with `e`.
    pub fn fail_once(&mut self, e: BusError)
        ensures
            final(self).fail_next == Some(e),
            final(self).log() == old(self).log(),
    {
        self.fail_next = Some(e);
    }

    /// Attempt one combined write-then-read transaction. The write part
    /// is recorded like a plain write; the mock answers every read with
    /// zeroed bytes of the requested length.
    pub fn write_read(&mut self, addr: u8, data: &[u8], response_len: usize) -> (r: Result<
        Vec<u8>,
        BusError,
    >)
        ensures
            match old(self).fail_next {
                Some(e) => r == Err::<Vec<u8>, BusError>(e) && final(self).log() == old(
                    self,
                ).log(),
                None => r matches Ok(b) && b@ == Seq::<u8>::new(response_len as nat, |i: int| 0u8)
                    && final(self).log() == old(self).log().push((addr, data@)),
            },
            final(self).fail_next is None,
    {
        let pending = self.fail_next;
        self.fail_next = None;
        match pending {
            Some(e) => Err(e),
            None => {
                let rec = BusWriteRec { addr, data: slice_to_vec(data) };
                self.writes.push(rec);
                let mut response: Vec<u8> = Vec::new();
                while response.len() < response_len
                    invariant
                        response@ == Seq::<u8>::new(response@.len(), |i: int| 0u8),
                        response@.len() <= response_len,
                    decreases response_len - response@.len(),
                {
                    response.push(0);
                    proof {
                        assert(response@ =~= Seq::<u8>::new(response@.len(), |i: int| 0u8));
                    }
                }
                proof {
                    assert(self.log() =~= old(self).log().push((addr, data@)));
                    assert(response@ =~= Seq::<u8>::new(response_len as nat, |i: int| 0u8));
                }
                Ok(response)
            },
        }
    }

    /// Attempt one write transaction. A transaction either completes
    /// whole, appending exactly one record to the history, or fails
    /// outright and records nothing.
    pub fn write(&mut self, addr: u8, data: &[u8]) -> (r: Result<(), BusError>)
        ensures
            match old(self).fail_next {
                Some(e) => r == Err::<(), BusError>(e) && final(self).log() == old(self).log(),
                None => r is Ok && final(self).log() == old(self).log().push((addr, data@)),
            },
            final(self).fail_next is None,
    {
        let pending = self.fail_next;
        self.fail_next = None;
        match pending {
            Some(e) => Err(e),
            None => {
                let rec = BusWriteRec { addr, data: slice_to_vec(data) };
                self.writes.push(rec);
                proof {
                    assert(self.log() =~= old(self).log().push((addr, data@)));
                }
                Ok(())
            },
        }
    }
}

#[verifier::external_type_specification]
#[verifier::external_body]
pub struct ExI2cdev(linux_embedded_hal::I2cdev);

#[verifier::external_type_specification]
#[verifier::external_body]
pub struct ExI2CError(linux_embedded_hal::I2CError);

/// Relies on linux_embedded_hal::I2cdev::new: opens the I2C character
/// device at `path`. Any failure to open is reported as an opaque
/// transport error.
#[verifier::external_body]
fn open_i2c_device(path: &str) -> (r: Result<linux_embedded_hal::I2cdev, BusError>) {
    match linux_embedded_hal::I2cdev::new(path) {
        Ok(dev) => Ok(dev),
        Err(_) => Err(BusError::Other),
    }
}

/// Relies on embedded_hal::i2c::I2c::write for linux_embedded_hal::I2cdev:
/// performs one whole I2C write transaction of `data` to the 7-bit
/// address `addr`, which either completes fully or fails without a
/// partial transfer.
#[verifier::external_body]
fn raw_i2c_write(dev: &mut linux_embedded_hal::I2cdev, addr: u8, data: &[u8]) -> (r: Result<
    (),
    linux_embedded_hal::I2CError,
>) {
    embedded_hal::i2c::I2c::write(dev, addr, data)
}

/// Relies on embedded_hal::i2c::I2c::write_read for
/// linux_embedded_hal::I2cdev: performs one combined write-then-read
/// transaction at the 7-bit address `addr` and fills a buffer of
/// exactly `response_len` bytes, or fails without a partial transfer.
#[verifier::external_body]
fn raw_i2c_write_read(
    dev: &mut linux_embedded_hal::I2cdev,
    addr: u8,
    data: &[u8],
    response_len: usize,
) -> (r: Result<Vec<u8>, linux_embedded_hal::I2CError>)
    ensures
        r matches Ok(b) ==> b@.len() == response_len,
{
    let mut buffer = vec![0u8; response_len];
    embedded_hal::i2c::I2c::write_read(dev, addr, data, &mut buffer)?;
    Ok(buffer)
}

/// Relies on embedded_hal::i2c::Error::kind for
/// linux_embedded_hal::I2CError: sorts a transport failure into its
/// embedded-hal error kind, one library error variant per kind.
#[verifier::external_body]
fn classify_i2c_error(e: linux_embedded_hal::I2CError) -> (r: BusError) {
    match embedded_hal::i2c::Error::kind(&e) {
        embedded_hal::i2c::ErrorKind::Bus => BusError::BusFault,
        embedded_hal::i2c::ErrorKind::ArbitrationLoss => BusError::ArbitrationLoss,
        embedded_hal::i2c::ErrorKind::NoAcknowledge(_) => BusError::Nack,
        embedded_hal::i2c::ErrorKind::Overrun => BusError::Overrun,
        _ => BusError::Other,
    }
}

/// The real transport: a Linux I2C character device. The history field
/// is a ghost record of the write transactions this process has
/// completed on it, kept by the verified code around each transfer.
pub struct DeviceBus {
    dev: linux_embedded_hal::I2cdev,
    history: Ghost<Seq<(u8, Seq<u8>)>>,
}

impl DeviceBus {
    /// The write transactions this process has completed on the device.
    pub closed spec fn log(&self) -> Seq<(u8, Seq<u8>)> {
        self.history@
    }

    /// Open the I2C device at `path`; a fresh handle has completed no
    /// transfers yet.
    pub fn open(path: &str) -> (r: Result<DeviceBus, BusError>)
        ensures
            r matches Ok(d) ==> d.log() == Seq::<(u8, Seq<u8>)>::empty(),
    {
        match open_i2c_device(path) {
            Ok(dev) => Ok(DeviceBus { dev, history: Ghost(Seq::empty()) }),
            Err(e) => Err(e),
        }
    }

    /// Attempt one combined write-then-read transaction on the device:
    /// the write part is recorded like a plain write, and a successful
    /// read hands back exactly `response_len` bytes.
    pub fn write_read(&mut self, addr: u8, data: &[u8], response_len: usize) -> (r: Result<
        Vec<u8>,
        BusError,
    >)
        ensures
            r matches Ok(b) ==> b@.len() == response_len && final(self).log() == old(
                self,
            ).log().push((addr, data@)),
            r is Err ==> final(self).log() == old(self).log(),
    {
        match raw_i2c_write_read(&mut self.dev, addr, data, response_len) {
            Ok(b) => {
                self.history = Ghost(self.history@.push((addr, data@)));
                Ok(b)
            },
            Err(e) => Err(classify_i2c_error(e)),
        }
    }

    /// Attempt one write transaction on the device: it either completes
    /// whole, extending the history by exactly one record, or fails
    /// outright leaving the history unchanged.
    pub fn write(&mut self, addr: u8, data: &[u8]) -> (r: Result<(), BusError>)
        ensures
            r is Ok ==> final(self).log() == old(self).log().push((addr, data@)),
            r is Err ==> final(self).log() == old(self).log(),
    {
        match raw_i2c_write(&mut self.dev, addr, data) {
            Ok(()) => {
                self.history = Ghost(self.history@.push((addr, data@)));
                Ok(())
            },
            Err(e) => Err(classify_i2c_error(e)),
        }
    }
}

/// The physical transport behind a bus handle: a real I2C character
/// device, or a mock used to observe the wire in checks.
pub enum Bus {
    Device(DeviceBus),
    Mock(MockBus),
}

impl Bus {
    /// The wire history of this transport: every write transaction
    /// completed through it, in order.
    pub open spec fn log(&self) -> Seq<(u8, Seq<u8>)> {
        match self {
            Bus::Device(d) => d.log(),
            Bus::Mock(m) => m.log(),
        }
    }

    /// The error the next write attempt is armed to report. Only a mock
    /// can be armed so; for a real device nothing is known ahead.
    pub open spec fn pending_failure(&self) -> Option<BusError> {
        match self {
            Bus::Device(_) => None,
            Bus::Mock(m) => m.fail_next,
        }
    }

    /// Open the real transport at `path`.
    pub fn open_device(path: &str) -> (r: Result<Bus, BusError>)
        ensures
            r matches Ok(b) ==> b.log() == Seq::<(u8, Seq<u8>)>::empty() && b is Device,
    {
        match DeviceBus::open(path) {
            Ok(d) => Ok(Bus::Device(d)),
            Err(e) => Err(e),
        }
    }

    /// Attempt one combined write-then-read transaction on the wire:
    /// the write part is recorded like a plain write, a successful read
    /// hands back exactly `response_len` bytes, and on a mock the read
    /// answers with zeroed bytes.
    pub fn write_read(&mut self, addr: u8, data: &[u8], response_len: usize) -> (r: Result<
        Vec<u8>,
        BusError,
    >)
        ensures
            r matches Ok(b) ==> b@.len() == response_len && final(self).log() == old(
                self,
            ).log().push((addr, data@)),
            r is Err ==> final(self).log() == old(self).log(),
            (*old(self)) is Mock ==> match old(self).pending_failure() {
                Some(e) => r == Err::<Vec<u8>, BusError>(e),
                None => r matches Ok(b) && b@ == Seq::<u8>::new(response_len as nat, |i: int| 0u8),
            },
            (*old(self)) is Mock <==> (*final(self)) is Mock,
            final(self).pending_failure() is None,
    {
        match self {
            Bus::Device(d) => d.write_read(addr, data, response_len),
            Bus::Mock(m) => m.write_read(addr, data, response_len),
        }
    }

    /// Attempt one write transaction on the wire: it either completes
    /// whole, appending exactly one record to the history, or fails
    /// outright leaving the history unchanged. On a mock the outcome is
    /// exactly what the mock was armed for.
    pub fn write(&mut self, addr: u8, data: &[u8]) -> (r: Result<(), BusError>)
        ensures
            r is Ok ==> final(self).log() == old(self).log().push((addr, data@)),
            r is Err ==> final(self).log() == old(self).log(),
            (*old(self)) is Mock ==> match old(self).pending_failure() {
                Some(e) => r == Err::<(), BusError>(e),
                None => r is Ok,
            },
            (*old(self)) is Mock <==> (*final(self)) is Mock,
            final(self).pending_failure() is None,
    {
        match self {
            Bus::Device(d) => d.write(addr, data),
            Bus::Mock(m) => m.write(addr, data),
        }
    }
}

} // verus!
