//! Host-side connection management: classifying USB transport errors,
//! resolving the device's endpoints from its descriptors, and the
//! retry/backoff state machine around device discovery and disconnects.
//!
//! Enumerating the bus, opening the device and moving bytes are the
//! surrounding application's job; it reports what happened through the
//! plain types here and acts on the decisions returned.

use vstd::prelude::*;

verus! {

/// Marks that the mixer USB device disconnected.  This "error" is handled
/// specially: it tears the connection down and restarts it instead of
/// ending the run.
#[derive(Clone, Copy, PartialEq, Eq, Structural, Debug)]
pub struct DeviceDisconnectedError;

/// A USB transport error as the core classifies it.
#[derive(Clone, Copy, PartialEq, Eq, Structural, Debug)]
pub enum UsbErrorKind {
    /// The device is no longer on the bus.
    NoDevice,
    /// A generic input/output failure.
    Io,
    /// The operation timed out; for a read this just means nothing
    /// arrived.
    Timeout,
    /// Any other transport error.
    Other,
}

/// What a failed transport operation means for the connection.
#[derive(Clone, Copy, PartialEq, Eq, Structural, Debug)]
pub enum LinkError {
    /// The device is gone: tear down and reconnect.
    Disconnected(DeviceDisconnectedError),
    /// Some other failure in USB communication: propagate as fatal.
    Fatal,
}

/// Classify a USB transport error.  Disconnection surfaces ambiguously, so
/// both "no device" and a generic I/O failure are taken to mean the device
/// vanished from the bus; everything else propagates as fatal.  Which
/// errors belong on the disconnection path is a judgment call; timeouts
/// are never passed here, a read timeout simply means no data yet.
pub fn interpret_usb_error(kind: UsbErrorKind) -> (r: LinkError)
    ensures
        r == if kind == UsbErrorKind::NoDevice || kind == UsbErrorKind::Io {
            LinkError::Disconnected(DeviceDisconnectedError)
        } else {
            LinkError::Fatal
        },
{
    match kind {
        UsbErrorKind::NoDevice => LinkError::Disconnected(DeviceDisconnectedError),
        UsbErrorKind::Io => LinkError::Disconnected(DeviceDisconnectedError),
        _ => LinkError::Fatal,
    }
}

/// Whether an interface descriptor is the mixer's vendor-specific
/// interface: class, subclass and protocol must all match.
pub fn match_interface(class_code: u8, sub_class_code: u8, protocol_code: u8) -> (r: bool)
    ensures
        r == (class_code == 0xff && sub_class_code == 0xc3 && protocol_code == 0xc3),
{
    class_code == 0xff && sub_class_code == 0xc3 && protocol_code == 0xc3
}

/// Transfer type of an endpoint descriptor.
#[derive(Clone, Copy, PartialEq, Eq, Structural, Debug)]
pub enum TransferKind {
    Control,
    Isochronous,
    Bulk,
    Interrupt,
}

/// Direction of an endpoint descriptor.
#[derive(Clone, Copy, PartialEq, Eq, Structural, Debug)]
pub enum Direction {
    In,
    Out,
}

/// The three endpoint addresses of the mixer interface.
#[derive(Clone, Copy, PartialEq, Eq, Structural, Debug)]
pub struct Endpoints {
    /// Interrupt-IN endpoint: device-to-host messages.
    pub read_address: u8,
    /// Interrupt-OUT endpoint: host-to-device messages.
    pub write_address: u8,
    /// Bulk-OUT endpoint: icon payloads.
    pub bulk_address: u8,
}

/// Why endpoint resolution failed.
#[derive(Clone, Copy, PartialEq, Eq, Structural, Debug)]
pub enum EndpointError {
    /// The interface carries an endpoint of an unexpected shape.
    Unexpected,
    /// No interrupt-IN endpoint was found.
    MissingRead,
    /// No interrupt-OUT endpoint was found.
    MissingWrite,
    /// No bulk-OUT endpoint was found.
    MissingBulk,
}

/// Whether an endpoint has one of the three expected shapes.
pub open spec fn spec_expected_endpoint(e: (TransferKind, Direction, u8)) -> bool {
    (e.0 == TransferKind::Interrupt && e.1 == Direction::In) || (e.0 == TransferKind::Interrupt
        && e.1 == Direction::Out) || (e.0 == TransferKind::Bulk && e.1 == Direction::Out)
}

/// Address of the last endpoint of the given shape, if any.
pub open spec fn spec_last_address(
    eps: Seq<(TransferKind, Direction, u8)>,
    kind: TransferKind,
    dir: Direction,
) -> Option<u8>
    decreases eps.len(),
{
    if eps.len() == 0 {
        None
    } else if eps.last().0 == kind && eps.last().1 == dir {
        Some(eps.last().2)
    } else {
        spec_last_address(eps.drop_last(), kind, dir)
    }
}

/// Resolve the communication endpoints of the matched interface from its
/// endpoint descriptors, each given as transfer type, direction and
/// address.  An endpoint of any other shape makes the whole interface
/// unexpected; among several of one shape the last wins.
pub fn endpoints_from_descriptors(eps: &Vec<(TransferKind, Direction, u8)>) -> (r: Result<
    Endpoints,
    EndpointError,
>)
    ensures
        match r {
            Ok(found) => {
                &&& forall|i: int| 0 <= i < eps@.len() ==> spec_expected_endpoint(eps@[i])
                &&& Some(found.read_address) == spec_last_address(
                    eps@,
                    TransferKind::Interrupt,
                    Direction::In,
                )
                &&& Some(found.write_address) == spec_last_address(
                    eps@,
                    TransferKind::Interrupt,
                    Direction::Out,
                )
                &&& Some(found.bulk_address) == spec_last_address(
                    eps@,
                    TransferKind::Bulk,
                    Direction::Out,
                )
            },
            Err(EndpointError::Unexpected) => exists|i: int|
                0 <= i < eps@.len() && !spec_expected_endpoint(eps@[i]),
            Err(EndpointError::MissingRead) => {
                &&& forall|i: int| 0 <= i < eps@.len() ==> spec_expected_endpoint(eps@[i])
                &&& spec_last_address(eps@, TransferKind::Interrupt, Direction::In) is None
            },
            Err(EndpointError::MissingWrite) => {
                &&& forall|i: int| 0 <= i < eps@.len() ==> spec_expected_endpoint(eps@[i])
                &&& spec_last_address(eps@, TransferKind::Interrupt, Direction::Out) is None
            },
            Err(EndpointError::MissingBulk) => {
                &&& forall|i: int| 0 <= i < eps@.len() ==> spec_expected_endpoint(eps@[i])
                &&& spec_last_address(eps@, TransferKind::Bulk, Direction::Out) is None
            },
        },
{
    let mut found_read: Option<u8> = None;
    let mut found_write: Option<u8> = None;
    let mut found_bulk: Option<u8> = None;

    let n = eps.len();
    let mut i: usize = 0;
    while i < n
        invariant
            n == eps@.len(),
            i <= n,
            forall|j: int| 0 <= j < i ==> spec_expected_endpoint(eps@[j]),
            found_read == spec_last_address(
                eps@.take(i as int),
                TransferKind::Interrupt,
                Direction::In,
            ),
            found_write == spec_last_address(
                eps@.take(i as int),
                TransferKind::Interrupt,
                Direction::Out,
            ),
            found_bulk == spec_last_address(
                eps@.take(i as int),
                TransferKind::Bulk,
                Direction::Out,
            ),
        decreases n - i,
    {
        proof {
            assert(eps@.take(i + 1).drop_last() =~= eps@.take(i as int));
            assert(eps@.take(i + 1).last() == eps@[i as int]);
        }
        let (kind, dir, address) = eps[i];
        match (kind, dir) {
            (TransferKind::Interrupt, Direction::In) => {
                found_read = Some(address);
            }
            (TransferKind::Interrupt, Direction::Out) => {
                found_write = Some(address);
            }
            (TransferKind::Bulk, Direction::Out) => {
                found_bulk = Some(address);
            }
            _ => {
                return Err(EndpointError::Unexpected);
            }
        }
        i += 1;
    }
    proof {
        assert(eps@.take(n as int) =~= eps@);
    }

    let read_address = match found_read {
        Some(a) => a,
        None => {
            return Err(EndpointError::MissingRead);
        }
    };
    let write_address = match found_write {
        Some(a) => a,
        None => {
            return Err(EndpointError::MissingWrite);
        }
    };
    let bulk_address = match found_bulk {
        Some(a) => a,
        None => {
            return Err(EndpointError::MissingBulk);
        }
    };
    Ok(Endpoints { read_address, write_address, bulk_address })
}

/// Initial delay before retrying device discovery, in milliseconds.
pub const BACKOFF_INITIAL_MS: u32 = 500;

/// Discovery is abandoned once this much waiting has accumulated, in
/// milliseconds.
pub const BACKOFF_MAX_ELAPSED_MS: u32 = 60000;

/// Phase of the connection to the mixer device.
#[derive(Clone, Copy, PartialEq, Eq, Structural, Debug)]
pub enum ConnectionPhase {
    /// Searching for the device, with retry and backoff.
    Connecting,
    /// The device is attached and traffic flows.
    Connected,
    /// Discovery was abandoned or a fatal error ended the connection.
    Failed,
}

/// The retry/backoff state machine around device discovery and
/// disconnects: `Connecting` (with growing delays) to `Connected`, back to
/// `Connecting` when the device vanishes, and to `Failed` when discovery
/// gives up or an error is fatal.
#[derive(Clone, Copy, PartialEq, Eq, Structural, Debug)]
pub struct ConnectionManager {
    /// The current phase.
    pub phase: ConnectionPhase,
    /// Delay before the next discovery attempt, in milliseconds.
    pub retry_delay_ms: u32,
    /// Waiting accumulated in this discovery round, in milliseconds.
    pub elapsed_ms: u32,
}

impl ConnectionManager {
    /// Start out searching for the device.
    pub fn new() -> (r: Self)
        ensures
            r == (ConnectionManager {
                phase: ConnectionPhase::Connecting,
                retry_delay_ms: BACKOFF_INITIAL_MS,
                elapsed_ms: 0u32,
            }),
    {
        ConnectionManager {
            phase: ConnectionPhase::Connecting,
            retry_delay_ms: BACKOFF_INITIAL_MS,
            elapsed_ms: 0,
        }
    }

    /// A discovery attempt found no device.  Returns how long to wait
    /// before the next attempt, or `None` when the accumulated waiting
    /// exceeds the budget and discovery gives up.  Each delay is a quarter
    /// longer than the last.
    pub fn device_not_found(&mut self) -> (r: Option<u32>)
        requires
            old(self).phase == ConnectionPhase::Connecting,
            old(self).retry_delay_ms <= BACKOFF_MAX_ELAPSED_MS,
        ensures
            if old(self).elapsed_ms + old(self).retry_delay_ms > BACKOFF_MAX_ELAPSED_MS {
                r is None && *final(self) == (ConnectionManager {
                    phase: ConnectionPhase::Failed,
                    ..*old(self)
                })
            } else {
                r == Some(old(self).retry_delay_ms) && *final(self) == (ConnectionManager {
                    phase: ConnectionPhase::Connecting,
                    retry_delay_ms: (old(self).retry_delay_ms + old(self).retry_delay_ms
                        / 4) as u32,
                    elapsed_ms: (old(self).elapsed_ms + old(self).retry_delay_ms) as u32,
                })
            },
    {
        if self.elapsed_ms > BACKOFF_MAX_ELAPSED_MS - self.retry_delay_ms {
            self.phase = ConnectionPhase::Failed;
            None
        } else {
            let delay = self.retry_delay_ms;
            self.elapsed_ms = self.elapsed_ms + delay;
            self.retry_delay_ms = delay + delay / 4;
            Some(delay)
        }
    }

    /// A discovery attempt found the device: the connection is up, and the
    /// backoff is rewound for the next discovery round.
    pub fn device_found(&mut self)
        requires
            old(self).phase == ConnectionPhase::Connecting,
        ensures
            *final(self) == (ConnectionManager {
                phase: ConnectionPhase::Connected,
                retry_delay_ms: BACKOFF_INITIAL_MS,
                elapsed_ms: 0u32,
            }),
    {
        self.phase = ConnectionPhase::Connected;
        self.retry_delay_ms = BACKOFF_INITIAL_MS;
        self.elapsed_ms = 0;
    }

    /// The background reader reported a transport error while connected.
    /// A disconnection tears the connection down and starts a fresh
    /// discovery round — channel state elsewhere is untouched, so the
    /// engine resumes where it left off; anything else is fatal.
    pub fn on_read_error(&mut self, kind: UsbErrorKind) -> (r: LinkError)
        requires
            old(self).phase == ConnectionPhase::Connected,
        ensures
            r == if kind == UsbErrorKind::NoDevice || kind == UsbErrorKind::Io {
                LinkError::Disconnected(DeviceDisconnectedError)
            } else {
                LinkError::Fatal
            },
            *final(self) == if r is Disconnected {
                ConnectionManager {
                    phase: ConnectionPhase::Connecting,
                    retry_delay_ms: BACKOFF_INITIAL_MS,
                    elapsed_ms: 0u32,
                }
            } else {
                ConnectionManager { phase: ConnectionPhase::Failed, ..*old(self) }
            },
    {
        let classified = interpret_usb_error(kind);
        match classified {
            LinkError::Disconnected(_) => {
                self.phase = ConnectionPhase::Connecting;
                self.retry_delay_ms = BACKOFF_INITIAL_MS;
                self.elapsed_ms = 0;
            }
            LinkError::Fatal => {
                self.phase = ConnectionPhase::Failed;
            }
        }
        classified
    }
}

} // verus!
