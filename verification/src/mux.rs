use vstd::prelude::*;
use crate::bus::{Bus, BusError};
use crate::handle::BusHandle;

verus! {

/// An error from the multiplexer controller.
#[derive(Clone, Copy, Debug, PartialEq, Eq, Structural)]
pub enum MuxError {
    /// The requested channel number is outside 0..=7; nothing was
    /// written to the bus.
    InvalidChannel(u8),
    /// The underlying I2C write failed; the transport's error is carried
    /// through unchanged.
    Transport(BusError),
}

/// The one-byte command that connects downstream channel `n` (and
/// disconnects every other channel): the single bit `1 << n`.
pub open spec fn command_byte(n: u8) -> u8 {
    1u8 << n
}

/// Encode a channel number as its select command byte.
pub fn channel_command(n: u8) -> (b: u8)
    requires
        n <= 7,
    ensures
        b == command_byte(n),
{
    1u8 << n
}

/// What a channel select returns, given the transport failure (if any)
/// that the write attempt would hit: out-of-range channels are rejected
/// before the bus is touched, a transport failure is carried through
/// unchanged, and otherwise the select succeeds.
pub open spec fn select_result(pending: Option<BusError>, n: u8) -> Result<(), MuxError> {
    if n > 7 {
        Err(MuxError::InvalidChannel(n))
    } else {
        match pending {
            Option::None => Ok(()),
            Option::Some(e) => Err(MuxError::Transport(e)),
        }
    }
}

/// How a channel select extends the wire history: exactly one whole
/// record, the command byte to the multiplexer address, appended only
/// when the select goes through; otherwise the history is untouched.
pub open spec fn select_log(
    log: Seq<(u8, Seq<u8>)>,
    pending: Option<BusError>,
    address: u8,
    n: u8,
) -> Seq<(u8, Seq<u8>)> {
    if n <= 7 && pending is None {
        log.push((address, seq![command_byte(n)]))
    } else {
        log
    }
}

/// Select downstream channel `n` on the multiplexer at `address`,
/// holding the transport exclusively for the whole transaction.
///
/// Out-of-range channels are rejected before any bus access; a transport
/// failure is propagated unchanged and leaves the wire history as it
/// was; on success exactly the single command byte `1 << n` has been
/// written to `address`.
pub fn select_channel_on(bus: &mut Bus, address: u8, n: u8) -> (r: Result<(), MuxError>)
    ensures
        n > 7 ==> r == Err::<(), MuxError>(MuxError::InvalidChannel(n)) && *final(bus) == *old(
            bus,
        ),
        r is Ok ==> final(bus).log() == old(bus).log().push((address, seq![command_byte(n)])),
        r is Err ==> final(bus).log() == old(bus).log(),
        r matches Err(MuxError::InvalidChannel(c)) ==> c == n && n > 7,
        r matches Err(MuxError::Transport(_)) ==> n <= 7,
        (*old(bus)) is Mock && n <= 7 ==> r == select_result(old(bus).pending_failure(), n),
        (*old(bus)) is Mock ==> final(bus).log() == select_log(
            old(bus).log(),
            old(bus).pending_failure(),
            address,
            n,
        ),
        (*old(bus)) is Mock ==> (r matches Err(MuxError::Transport(e)) ==> old(
            bus,
        ).pending_failure() == Some(e)),
        (*old(bus)) is Mock <==> (*final(bus)) is Mock,
        n <= 7 ==> final(bus).pending_failure() is None,
{
    if n > 7 {
        return Err(MuxError::InvalidChannel(n));
    }
    let cmd = channel_command(n);
    let mut data: Vec<u8> = Vec::new();
    data.push(cmd);
    proof {
        assert(data@ =~= seq![command_byte(n)]);
    }
    match bus.write(address, data.as_slice()) {
        Ok(()) => Ok(()),
        Err(e) => Err(MuxError::Transport(e)),
    }
}

/// Select channel `n` and then, still in the same exclusive section,
/// deliver `data` to the downstream device at `dev_addr`: the two
/// transactions reach the wire back to back, with no window for another
/// driver to reselect in between.
pub fn select_then_write_on(
    bus: &mut Bus,
    address: u8,
    n: u8,
    dev_addr: u8,
    data: &[u8],
) -> (r: Result<(), MuxError>)
    ensures
        n > 7 ==> r == Err::<(), MuxError>(MuxError::InvalidChannel(n)) && *final(bus) == *old(
            bus,
        ),
        r is Ok ==> final(bus).log() == old(bus).log() + seq![
            (address, seq![command_byte(n)]),
            (dev_addr, data@),
        ],
        r is Err ==> final(bus).log() == old(bus).log() || final(bus).log() == old(
            bus,
        ).log().push((address, seq![command_byte(n)])),
        r matches Err(MuxError::InvalidChannel(c)) ==> c == n && n > 7,
        (*old(bus)) is Mock && n <= 7 ==> (match old(bus).pending_failure() {
            Some(e) => r == Err::<(), MuxError>(MuxError::Transport(e)) && final(bus).log()
                == old(bus).log(),
            None => r is Ok,
        }),
{
    let sel = select_channel_on(bus, address, n);
    match sel {
        Ok(()) => {
            let ghost mid = bus.log();
            match bus.write(dev_addr, data) {
                Ok(()) => {
                    proof {
                        assert(bus.log() =~= old(bus).log() + seq![
                            (address, seq![command_byte(n)]),
                            (dev_addr, data@),
                        ]);
                    }
                    Ok(())
                },
                Err(e) => Err(MuxError::Transport(e)),
            }
        },
        Err(e) => Err(e),
    }
}

/// The multiplexer controller: it translates a channel number into the
/// one-byte select command and delivers it to the multiplexer chip's
/// address over the shared bus handle, under one lock acquisition per
/// operation.
///
/// The chip itself is the sole holder of the currently selected
/// channel; the controller keeps only a ghost hint inferred from its
/// own successful selects, never a cached claim about the hardware.
pub struct Tca9548a {
    handle: BusHandle,
    address: u8,
    selected: Ghost<Option<u8>>,
}

impl Tca9548a {
    /// The fixed 7-bit address of the multiplexer chip this controller
    /// commands.
    pub closed spec fn spec_address(&self) -> u8 {
        self.address
    }

    /// The channel this controller last selected successfully, if any:
    /// a hint inferred from our own writes, not a read-back from the
    /// chip.
    pub closed spec fn selected(&self) -> Option<u8> {
        self.selected@
    }

    /// Bind a controller to a shared bus handle at the conventional
    /// multiplexer address 0x70. The bus is not touched.
    pub fn new(handle: BusHandle) -> (m: Tca9548a)
        ensures
            m.spec_address() == 0x70,
            m.selected() is None,
    {
        Tca9548a::with_address(handle, 0x70)
    }

    /// Bind a controller to a shared bus handle and a fixed multiplexer
    /// address. The bus is not touched.
    pub fn with_address(handle: BusHandle, address: u8) -> (m: Tca9548a)
        ensures
            m.spec_address() == address,
            m.selected() is None,
    {
        Tca9548a { handle, address, selected: Ghost(None) }
    }

    /// The multiplexer address this controller was bound to.
    pub fn address(&self) -> (a: u8)
        ensures
            a == self.spec_address(),
    {
        self.address
    }

    /// Select downstream channel `n`: acquire the bus handle, write the
    /// single command byte `1 << n` to the multiplexer's address,
    /// release the handle on every path.
    ///
    /// A channel outside 0..=7 is rejected before any bus access; a
    /// transport failure is propagated unchanged, and the inferred
    /// channel hint is left at what it was before the failed call.
    pub fn select_channel(&mut self, n: u8) -> (r: Result<(), MuxError>)
        ensures
            n > 7 ==> r == Err::<(), MuxError>(MuxError::InvalidChannel(n)) && *final(self)
                == *old(self),
            r matches Err(MuxError::InvalidChannel(c)) ==> c == n && n > 7,
            r matches Err(MuxError::Transport(_)) ==> n <= 7,
            r is Ok ==> n <= 7 && final(self).selected() == Some(n),
            r is Err ==> final(self).selected() == old(self).selected(),
            final(self).spec_address() == old(self).spec_address(),
    {
        if n > 7 {
            return Err(MuxError::InvalidChannel(n));
        }
        let (mut bus, guard) = self.handle.acquire();
        let r = select_channel_on(&mut bus, self.address, n);
        guard.release_write(bus);
        match r {
            Ok(()) => {
                self.selected = Ghost(Some(n));
                Ok(())
            },
            Err(e) => Err(e),
        }
    }

    /// Select channel `n` and deliver `data` to the downstream device
    /// at `dev_addr` in one critical section, so no other holder of the
    /// same bus handle can reselect between the two transactions.
    pub fn select_and_write(&mut self, n: u8, dev_addr: u8, data: &[u8]) -> (r: Result<
        (),
        MuxError,
    >)
        ensures
            n > 7 ==> r == Err::<(), MuxError>(MuxError::InvalidChannel(n)) && *final(self)
                == *old(self),
            r matches Err(MuxError::InvalidChannel(c)) ==> c == n && n > 7,
            r is Ok ==> n <= 7 && final(self).selected() == Some(n),
            final(self).spec_address() == old(self).spec_address(),
    {
        if n > 7 {
            return Err(MuxError::InvalidChannel(n));
        }
        let (mut bus, guard) = self.handle.acquire();
        let r = select_then_write_on(&mut bus, self.address, n, dev_addr, data);
        guard.release_write(bus);
        match r {
            Ok(()) => {
                self.selected = Ghost(Some(n));
                Ok(())
            },
            Err(e) => Err(e),
        }
    }
}

/// For every channel in range, a select writes exactly the one command
/// byte `1 << n` to the multiplexer address, as a single whole record;
/// for every channel out of range it yields the invalid-channel error
/// and writes nothing, whatever the transport would have done.
pub proof fn law_select_exact_write(
    log: Seq<(u8, Seq<u8>)>,
    pending: Option<BusError>,
    address: u8,
    n: u8,
)
    ensures
        n <= 7 && pending is None ==> select_log(log, pending, address, n) == log.push(
            (address, seq![command_byte(n)]),
        ) && select_result(pending, n) == Ok::<(), MuxError>(()),
        n > 7 ==> select_result(pending, n) == Err::<(), MuxError>(MuxError::InvalidChannel(n))
            && select_log(log, pending, address, n) == log,
{
}

/// Idempotence: selecting the same channel twice in a row issues the
/// same command byte both times, and the second select succeeds exactly
/// as the first did — repetition alone never causes an error.
pub proof fn law_select_idempotent(log: Seq<(u8, Seq<u8>)>, address: u8, n: u8)
    requires
        n <= 7,
    ensures
        select_log(select_log(log, None, address, n), None, address, n) == log.push(
            (address, seq![command_byte(n)]),
        ).push((address, seq![command_byte(n)])),
        select_result(None, n) is Ok,
{
}

/// Serialization: two selects issued one after the other append their
/// two whole command records in call order — the wire never carries an
/// interleaved or partial byte.
pub proof fn law_select_serialized(log: Seq<(u8, Seq<u8>)>, address: u8, m: u8, n: u8)
    requires
        m <= 7,
        n <= 7,
    ensures
        select_log(select_log(log, None, address, m), None, address, n) == log + seq![
            (address, seq![command_byte(m)]),
            (address, seq![command_byte(n)]),
        ],
{
    assert(select_log(select_log(log, None, address, m), None, address, n) =~= log + seq![
        (address, seq![command_byte(m)]),
        (address, seq![command_byte(n)]),
    ]);
}

/// Transport failure propagation: when the underlying write fails, the
/// select returns exactly that error wrapped as a transport error, and
/// the wire history is left exactly as it was.
pub proof fn law_select_failure_propagates(
    log: Seq<(u8, Seq<u8>)>,
    e: BusError,
    address: u8,
    n: u8,
)
    requires
        n <= 7,
    ensures
        select_result(Some(e), n) == Err::<(), MuxError>(MuxError::Transport(e)),
        select_log(log, Some(e), address, n) == log,
{
}

} // verus!

