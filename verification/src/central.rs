use crate::config::{default_config, BleConfig};
use crate::errors::BleError;
use crate::identity::TargetIdentity;
use crate::packet::{
    classify_packet, json_accepts, utf8_lossy_of, NotificationPacket, PacketDisposition,
};
use crate::session::SessionState;
use crate::uuid_text::{uuid_text_value, valid_uuid_text};
use vstd::prelude::*;

verus! {

/// One peripheral as a scan poll reports it: the driver's id for its
/// handle, and the service UUIDs its advertisement carries, if the
/// advertisement could be read at all.
#[derive(Debug)]
pub struct PeripheralAdvert {
    pub peripheral: u64,
    pub services: Option<Vec<u128>>,
}

/// One entry of a connected peripheral's characteristic catalog.
#[derive(Clone, Copy, Debug, PartialEq, Eq, Structural)]
pub struct GattCharacteristic {
    pub id: u64,
    pub uuid: u128,
}

/// True when the advertisement names the service.
pub open spec fn advert_matches(advert: PeripheralAdvert, service: u128) -> bool {
    match advert.services {
        Some(services) => services@.contains(service),
        None => false,
    }
}

/// The peripheral one scan poll selects: the first of the list whose
/// advertisement names the service, if any does.
pub open spec fn selected_peripheral(adverts: Seq<PeripheralAdvert>, service: u128) -> Option<u64>
    decreases adverts.len(),
{
    if adverts.len() == 0 {
        None
    } else if advert_matches(adverts[0], service) {
        Some(adverts[0].peripheral)
    } else {
        selected_peripheral(adverts.drop_first(), service)
    }
}

/// The characteristic discovery resolves: the first of the catalog with
/// the target UUID, if any carries it.
pub open spec fn resolved_characteristic(catalog: Seq<GattCharacteristic>, uuid: u128) -> Option<
    u64,
>
    decreases catalog.len(),
{
    if catalog.len() == 0 {
        None
    } else if catalog[0].uuid == uuid {
        Some(catalog[0].id)
    } else {
        resolved_characteristic(catalog.drop_first(), uuid)
    }
}

/// A selected peripheral is a first match: some advertisement names the
/// service, none before it does, and no peripheral is selected when no
/// advertisement matches.
pub proof fn lemma_selected_peripheral_is_first_match(adverts: Seq<PeripheralAdvert>, service: u128)
    ensures
        selected_peripheral(adverts, service) matches Some(p) ==> exists|i: int|
            0 <= i < adverts.len() && advert_matches(adverts[i], service)
                && adverts[i].peripheral == p && (forall|j: int|
                0 <= j < i ==> !advert_matches(adverts[j], service)),
        selected_peripheral(adverts, service) is None ==> forall|i: int|
            0 <= i < adverts.len() ==> !advert_matches(adverts[i], service),
    decreases adverts.len(),
{
    if adverts.len() > 0 {
        lemma_selected_peripheral_is_first_match(adverts.drop_first(), service);
        if !advert_matches(adverts[0], service) {
            if selected_peripheral(adverts, service) is Some {
                let p = selected_peripheral(adverts, service)->0;
                let i = choose|i: int|
                    0 <= i < adverts.drop_first().len() && advert_matches(
                        adverts.drop_first()[i],
                        service,
                    ) && adverts.drop_first()[i].peripheral == p && (forall|j: int|
                        0 <= j < i ==> !advert_matches(adverts.drop_first()[j], service));
                assert(adverts.drop_first()[i] == adverts[i + 1]);
                assert(advert_matches(adverts[i + 1], service));
                assert(forall|j: int|
                    0 <= j < i + 1 ==> !advert_matches(#[trigger] adverts[j], service)) by {
                    assert(forall|j: int|
                        1 <= j < i + 1 ==> adverts.drop_first()[j - 1] == #[trigger] adverts[j]);
                }
            } else {
                assert(forall|i: int|
                    1 <= i < adverts.len() ==> adverts.drop_first()[i - 1] == #[trigger] adverts[i]);
            }
        }
    }
}

/// A resolved characteristic is a first match, and resolution comes up
/// empty exactly when no catalog entry carries the target UUID.
pub proof fn lemma_resolved_characteristic_is_first_match(
    catalog: Seq<GattCharacteristic>,
    uuid: u128,
)
    ensures
        resolved_characteristic(catalog, uuid) matches Some(c) ==> exists|i: int|
            0 <= i < catalog.len() && catalog[i].uuid == uuid && catalog[i].id == c && (forall|
                j: int,
            |
                0 <= j < i ==> catalog[j].uuid != uuid),
        resolved_characteristic(catalog, uuid) is None ==> forall|i: int|
            0 <= i < catalog.len() ==> (#[trigger] catalog[i]).uuid != uuid,
    decreases catalog.len(),
{
    if catalog.len() > 0 {
        lemma_resolved_characteristic_is_first_match(catalog.drop_first(), uuid);
        if catalog[0].uuid != uuid {
            if resolved_characteristic(catalog, uuid) is Some {
                let c = resolved_characteristic(catalog, uuid)->0;
                let i = choose|i: int|
                    0 <= i < catalog.drop_first().len() && catalog.drop_first()[i].uuid == uuid
                        && catalog.drop_first()[i].id == c && (forall|j: int|
                        0 <= j < i ==> catalog.drop_first()[j].uuid != uuid);
                assert(catalog.drop_first()[i] == catalog[i + 1]);
                assert(forall|j: int| 0 <= j < i + 1 ==> (#[trigger] catalog[j]).uuid != uuid) by {
                    assert(forall|j: int|
                        1 <= j < i + 1 ==> catalog.drop_first()[j - 1] == #[trigger] catalog[j]);
                }
            } else {
                assert(forall|i: int|
                    1 <= i < catalog.len() ==> catalog.drop_first()[i - 1] == #[trigger] catalog[i]);
            }
        }
    }
}

fn contains_service(services: &Vec<u128>, service: u128) -> (r: bool)
    ensures
        r == services@.contains(service),
{
    let mut i: usize = 0;
    while i < services.len()
        invariant
            i <= services.len(),
            forall|j: int| 0 <= j < i ==> services@[j] != service,
        decreases services.len() - i,
    {
        if services[i] == service {
            return true;
        }
        i = i + 1;
    }
    false
}

fn advert_has_service(advert: &PeripheralAdvert, service: u128) -> (r: bool)
    ensures
        r == advert_matches(*advert, service),
{
    match &advert.services {
        Some(services) => contains_service(services, service),
        None => false,
    }
}

/// Walks one poll's peripherals in order and selects the first whose
/// advertisement names the target service.
pub fn select_peripheral(adverts: &Vec<PeripheralAdvert>, service: u128) -> (r: Option<u64>)
    ensures
        r == selected_peripheral(adverts@, service),
{
    let mut i: usize = 0;
    proof {
        assert(adverts@.skip(0) =~= adverts@);
    }
    while i < adverts.len()
        invariant
            i <= adverts.len(),
            selected_peripheral(adverts@, service) == selected_peripheral(
                adverts@.skip(i as int),
                service,
            ),
        decreases adverts.len() - i,
    {
        proof {
            assert(adverts@.skip(i as int)[0] == adverts@[i as int]);
        }
        if advert_has_service(&adverts[i], service) {
            return Some(adverts[i].peripheral);
        }
        proof {
            assert(adverts@.skip(i as int).drop_first() =~= adverts@.skip(i as int + 1));
        }
        i = i + 1;
    }
    None
}

/// Walks the characteristic catalog in order and resolves the first
/// entry with the target UUID.
pub fn select_characteristic(catalog: &Vec<GattCharacteristic>, uuid: u128) -> (r: Option<u64>)
    ensures
        r == resolved_characteristic(catalog@, uuid),
{
    let mut i: usize = 0;
    proof {
        assert(catalog@.skip(0) =~= catalog@);
    }
    while i < catalog.len()
        invariant
            i <= catalog.len(),
            resolved_characteristic(catalog@, uuid) == resolved_characteristic(
                catalog@.skip(i as int),
                uuid,
            ),
        decreases catalog.len() - i,
    {
        proof {
            assert(catalog@.skip(i as int)[0] == catalog@[i as int]);
        }
        if catalog[i].uuid == uuid {
            return Some(catalog[i].id);
        }
        proof {
            assert(catalog@.skip(i as int).drop_first() =~= catalog@.skip(i as int + 1));
        }
        i = i + 1;
    }
    None
}

/// Where in the lifecycle the supervisor stands; each phase names the
/// event it awaits.
#[derive(Clone, Copy, Debug, PartialEq, Eq, Structural)]
pub enum Phase {
    /// Awaiting the adapter enumeration.
    AcquiringAdapter,
    /// Awaiting completion of the scan start.
    StartingScan,
    /// Awaiting one poll of the discovered peripherals; `polls_done`
    /// earlier polls of this scan found no match.
    Polling { polls_done: u32 },
    /// Awaiting the pause between two polls; `polls_done` polls of this
    /// scan found no match.
    Sleeping { polls_done: u32 },
    /// Awaiting completion of the scan stop; `found` says whether this
    /// scan selected a peripheral.
    StoppingScan { found: bool },
    /// Awaiting the GATT connection.
    Connecting,
    /// Awaiting service discovery.
    Discovering,
    /// Awaiting the characteristic catalog.
    ResolvingCharacteristic,
    /// Awaiting the notification stream handle.
    OpeningStream,
    /// Awaiting completion of the subscribe request.
    Subscribing,
    /// Subscribed; awaiting the next notification packet.
    Streaming,
    /// A stage failed; awaiting the backoff pause before the restart.
    BackingOff,
    /// Shutting down; awaiting the unsubscribe request.
    Unsubscribing,
    /// Shutting down; awaiting the disconnect.
    Disconnecting,
    /// Terminal: the supervisor is done.
    Terminated,
}

/// What the driver reports back to the supervisor: the outcome of the
/// command it just executed, or an external shutdown request.
#[derive(Debug)]
pub enum Event {
    /// Adapter enumeration succeeded with these adapter ids.
    AdaptersListed(Vec<u64>),
    /// The awaited transport operation succeeded.
    OperationSucceeded,
    /// One scan poll: the discovered peripherals with their advertised
    /// services.
    PeripheralsListed(Vec<PeripheralAdvert>),
    /// The requested pause elapsed.
    Slept,
    /// The connected peripheral's characteristic catalog.
    CharacteristicsListed(Vec<GattCharacteristic>),
    /// One notification packet arrived.
    PacketReceived(NotificationPacket),
    /// No packet arrived within the notification idle timeout.
    PacketTimeout,
    /// The notification stream was closed by the transport.
    StreamClosed,
    /// The awaited transport operation failed, with its message.
    TransportFailed(String),
    /// The operator asked the process to stop.
    ShutdownRequested,
}

/// What the supervisor asks the driver to do next. Ids refer to the
/// driver's handle tables.
#[derive(Debug)]
pub enum Command {
    /// Enumerate the platform's Bluetooth adapters.
    ListAdapters,
    /// Start a scan on this adapter, filtered to the service UUID.
    StartScan { adapter: u64, service_uuid: u128 },
    /// List the peripherals the scan has discovered so far.
    ListPeripherals { adapter: u64 },
    /// Pause for this long.
    Sleep { ms: u64 },
    /// Stop the running scan.
    StopScan { adapter: u64 },
    /// Establish a GATT connection to this peripheral.
    Connect { peripheral: u64 },
    /// Populate the peripheral's service and characteristic catalog.
    DiscoverServices { peripheral: u64 },
    /// Report the peripheral's characteristic catalog.
    ListCharacteristics { peripheral: u64 },
    /// Obtain the peripheral's notification stream handle.
    OpenStream { peripheral: u64 },
    /// Enable notifications on this characteristic.
    Subscribe { peripheral: u64, characteristic: u64 },
    /// Await the next packet, for at most this long.
    AwaitPacket { timeout_ms: u64 },
    /// Emit this decoded JSON value to the sink, then await the next packet.
    EmitThenAwait { value: serde_json::Value, timeout_ms: u64 },
    /// Log this non-JSON payload text as an error, then await the next packet.
    LogMalformedThenAwait { text: String, timeout_ms: u64 },
    /// Log this stage failure as a warning, then pause for the backoff.
    FailThenBackoff { error: BleError, backoff_ms: u64 },
    /// Shutdown cleanup: disable notifications on this characteristic.
    Unsubscribe { peripheral: u64, characteristic: u64 },
    /// Shutdown cleanup: drop the GATT connection.
    Disconnect { peripheral: u64 },
    /// The supervisor is done; the driver's loop ends.
    Exit,
    /// The event did not belong to the current phase; nothing to do.
    Noop,
}

/// The supervisor of the connection lifecycle.
///
/// It owns the session state and decides, one awaited event at a time,
/// what the driver does next: the sequence adapter acquisition, scan and
/// select, connect and discover, subscribe and stream, restarted from
/// the top with backoff on every recoverable failure.
pub struct BleCentral {
    pub identity: TargetIdentity,
    pub config: BleConfig,
    pub session: SessionState,
    pub phase: Phase,
}

impl BleCentral {
    /// The supervisor's invariant: the handles a phase relies on are
    /// present, the poll counter stays within budget, and a
    /// characteristic is never held without its peripheral.
    pub open spec fn wf(self) -> bool {
        &&& self.session.wf()
        &&& match self.phase {
            Phase::AcquiringAdapter => true,
            Phase::StartingScan => self.session.adapter is Some,
            Phase::Polling { polls_done } => self.session.adapter is Some && polls_done
                < self.config.scan_retries,
            Phase::Sleeping { polls_done } => self.session.adapter is Some && polls_done
                <= self.config.scan_retries,
            Phase::StoppingScan { found } => self.session.adapter is Some && (found
                ==> self.session.peripheral is Some),
            Phase::Connecting => self.session.peripheral is Some,
            Phase::Discovering => self.session.peripheral is Some,
            Phase::ResolvingCharacteristic => self.session.peripheral is Some,
            Phase::OpeningStream => self.session.peripheral is Some
                && self.session.characteristic is Some,
            Phase::Subscribing => self.session.peripheral is Some
                && self.session.characteristic is Some,
            Phase::Streaming => self.session.peripheral is Some
                && self.session.characteristic is Some,
            Phase::BackingOff => true,
            Phase::Unsubscribing => self.session.peripheral is Some
                && self.session.characteristic is Some,
            Phase::Disconnecting => self.session.peripheral is Some,
            Phase::Terminated => true,
        }
    }

    /// Builds the supervisor from the two target UUID strings, with the
    /// given or the default timing parameters. Fails, before anything
    /// else can happen, exactly on malformed UUID text.
    pub fn new(service: &str, characteristic: &str, config: Option<BleConfig>) -> (r: Result<
        BleCentral,
        BleError,
    >)
        ensures
            r is Ok <==> valid_uuid_text(service@) && valid_uuid_text(characteristic@),
            r matches Ok(c) ==> {
                &&& c.identity.service_uuid as int == uuid_text_value(service@)
                &&& c.identity.characteristic_uuid as int == uuid_text_value(characteristic@)
                &&& c.session.adapter is None
                &&& c.session.peripheral is None
                &&& c.session.characteristic is None
                &&& c.phase == Phase::AcquiringAdapter
                &&& (config matches Some(g) ==> c.config == g)
                &&& (config is None ==> c.config == default_config())
                &&& c.wf()
            },
            r matches Err(e) ==> e == BleError::MalformedIdentity,
    {
        let identity = match TargetIdentity::new(service, characteristic) {
            Ok(t) => t,
            Err(e) => {
                return Err(e);
            },
        };
        let config = match config {
            Some(g) => g,
            None => BleConfig::default(),
        };
        Ok(
            BleCentral {
                identity,
                config,
                session: SessionState::empty(),
                phase: Phase::AcquiringAdapter,
            },
        )
    }

    /// The command a freshly built supervisor starts with.
    pub fn start_command(&self) -> (cmd: Command)
        ensures
            cmd == Command::ListAdapters,
    {
        Command::ListAdapters
    }

    /// The event did not belong to the phase: the supervisor lets it pass.
    pub open spec fn ignored(pre: Self, post: Self, cmd: Command) -> bool {
        post == pre && cmd is Noop
    }

    /// A stage failed outside the notification session: report the error,
    /// back off, restart from adapter acquisition; the session handles
    /// stay as they were.
    pub open spec fn stage_failed(pre: Self, err: BleError, post: Self, cmd: Command) -> bool {
        &&& post == (Self { phase: Phase::BackingOff, ..pre })
        &&& cmd == (Command::FailThenBackoff {
            error: err,
            backoff_ms: pre.config.reconnect_backoff_ms,
        })
    }

    /// The notification session failed: besides the backoff, the
    /// peripheral and characteristic are cleared, so that the next
    /// attempt rediscovers them.
    pub open spec fn session_failed(pre: Self, err: BleError, post: Self, cmd: Command) -> bool {
        &&& post == (Self {
            session: SessionState { peripheral: None, characteristic: None, ..pre.session },
            phase: Phase::BackingOff,
            ..pre
        })
        &&& cmd == (Command::FailThenBackoff {
            error: err,
            backoff_ms: pre.config.reconnect_backoff_ms,
        })
    }

    /// Adapter acquisition: take the first adapter of the enumeration,
    /// replacing any prior one; an empty enumeration is `NoAdapter`.
    pub open spec fn acquire_step(pre: Self, event: Event, post: Self, cmd: Command) -> bool {
        match event {
            Event::AdaptersListed(adapters) => if adapters@.len() == 0 {
                Self::stage_failed(pre, BleError::NoAdapter, post, cmd)
            } else {
                &&& post == (Self {
                    session: SessionState { adapter: Some(adapters@[0]), ..pre.session },
                    phase: Phase::StartingScan,
                    ..pre
                })
                &&& cmd == (Command::StartScan {
                    adapter: adapters@[0],
                    service_uuid: pre.identity.service_uuid,
                })
            },
            Event::TransportFailed(msg) => Self::stage_failed(
                pre,
                BleError::TransportError(msg),
                post,
                cmd,
            ),
            _ => Self::ignored(pre, post, cmd),
        }
    }

    /// The scan started: begin polling, unless the poll budget is zero,
    /// in which case the scan is stopped again at once.
    pub open spec fn scan_started_step(pre: Self, event: Event, post: Self, cmd: Command) -> bool {
        match event {
            Event::OperationSucceeded => if pre.config.scan_retries == 0 {
                &&& post == (Self { phase: Phase::StoppingScan { found: false }, ..pre })
                &&& cmd == (Command::StopScan { adapter: pre.session.adapter->0 })
            } else {
                &&& post == (Self { phase: Phase::Polling { polls_done: 0 }, ..pre })
                &&& cmd == (Command::ListPeripherals { adapter: pre.session.adapter->0 })
            },
            Event::TransportFailed(msg) => Self::stage_failed(
                pre,
                BleError::TransportError(msg),
                post,
                cmd,
            ),
            _ => Self::ignored(pre, post, cmd),
        }
    }

    /// One scan poll: on the first matching advertisement the peripheral
    /// is recorded and the scan stops at once; otherwise the supervisor
    /// sleeps for the scan interval before the next poll.
    pub open spec fn poll_step(
        pre: Self,
        polls_done: u32,
        event: Event,
        post: Self,
        cmd: Command,
    ) -> bool {
        match event {
            Event::PeripheralsListed(adverts) => match selected_peripheral(
                adverts@,
                pre.identity.service_uuid,
            ) {
                Some(p) => {
                    &&& post == (Self {
                        session: SessionState { peripheral: Some(p), ..pre.session },
                        phase: Phase::StoppingScan { found: true },
                        ..pre
                    })
                    &&& cmd == (Command::StopScan { adapter: pre.session.adapter->0 })
                },
                None => {
                    &&& post == (Self {
                        phase: Phase::Sleeping { polls_done: (polls_done + 1) as u32 },
                        ..pre
                    })
                    &&& cmd == (Command::Sleep { ms: pre.config.scan_interval_ms })
                },
            },
            Event::TransportFailed(msg) => Self::stage_failed(
                pre,
                BleError::TransportError(msg),
                post,
                cmd,
            ),
            _ => Self::ignored(pre, post, cmd),
        }
    }

    /// The pause between polls elapsed: poll again while the budget
    /// lasts; once `scan_retries` polls have found nothing, stop the scan.
    pub open spec fn sleep_step(
        pre: Self,
        polls_done: u32,
        event: Event,
        post: Self,
        cmd: Command,
    ) -> bool {
        match event {
            Event::Slept => if polls_done < pre.config.scan_retries {
                &&& post == (Self { phase: Phase::Polling { polls_done }, ..pre })
                &&& cmd == (Command::ListPeripherals { adapter: pre.session.adapter->0 })
            } else {
                &&& post == (Self { phase: Phase::StoppingScan { found: false }, ..pre })
                &&& cmd == (Command::StopScan { adapter: pre.session.adapter->0 })
            },
            _ => Self::ignored(pre, post, cmd),
        }
    }

    /// The scan stopped (it is stopped on the match and the exhausted
    /// path alike): connect if this scan found a peripheral, else the
    /// stage fails with `NoPeripheral`.
    pub open spec fn scan_stopped_step(
        pre: Self,
        found: bool,
        event: Event,
        post: Self,
        cmd: Command,
    ) -> bool {
        match event {
            Event::OperationSucceeded => if found {
                &&& post == (Self { phase: Phase::Connecting, ..pre })
                &&& cmd == (Command::Connect { peripheral: pre.session.peripheral->0 })
            } else {
                Self::stage_failed(pre, BleError::NoPeripheral, post, cmd)
            },
            Event::TransportFailed(msg) => Self::stage_failed(
                pre,
                BleError::TransportError(msg),
                post,
                cmd,
            ),
            _ => Self::ignored(pre, post, cmd),
        }
    }

    /// Connected: discover the peripheral's services next.
    pub open spec fn connect_step(pre: Self, event: Event, post: Self, cmd: Command) -> bool {
        match event {
            Event::OperationSucceeded => {
                &&& post == (Self { phase: Phase::Discovering, ..pre })
                &&& cmd == (Command::DiscoverServices { peripheral: pre.session.peripheral->0 })
            },
            Event::TransportFailed(msg) => Self::stage_failed(
                pre,
                BleError::TransportError(msg),
                post,
                cmd,
            ),
            _ => Self::ignored(pre, post, cmd),
        }
    }

    /// Services discovered: read the characteristic catalog next.
    pub open spec fn discover_step(pre: Self, event: Event, post: Self, cmd: Command) -> bool {
        match event {
            Event::OperationSucceeded => {
                &&& post == (Self { phase: Phase::ResolvingCharacteristic, ..pre })
                &&& cmd == (Command::ListCharacteristics { peripheral: pre.session.peripheral->0 })
            },
            Event::TransportFailed(msg) => Self::stage_failed(
                pre,
                BleError::TransportError(msg),
                post,
                cmd,
            ),
            _ => Self::ignored(pre, post, cmd),
        }
    }

    /// The catalog arrived: resolve the first entry with the target
    /// UUID. A catalog without it fails the session with
    /// `NoCharacteristic` before any subscribe request is issued.
    pub open spec fn resolve_step(pre: Self, event: Event, post: Self, cmd: Command) -> bool {
        match event {
            Event::CharacteristicsListed(catalog) => match resolved_characteristic(
                catalog@,
                pre.identity.characteristic_uuid,
            ) {
                Some(c) => {
                    &&& post == (Self {
                        session: SessionState { characteristic: Some(c), ..pre.session },
                        phase: Phase::OpeningStream,
                        ..pre
                    })
                    &&& cmd == (Command::OpenStream { peripheral: pre.session.peripheral->0 })
                },
                None => Self::session_failed(
                    pre,
                    BleError::NoCharacteristic(pre.identity.characteristic_uuid),
                    post,
                    cmd,
                ),
            },
            Event::TransportFailed(msg) => Self::stage_failed(
                pre,
                BleError::TransportError(msg),
                post,
                cmd,
            ),
            _ => Self::ignored(pre, post, cmd),
        }
    }

    /// The notification stream handle is ready: subscribe next.
    pub open spec fn open_stream_step(pre: Self, event: Event, post: Self, cmd: Command) -> bool {
        match event {
            Event::OperationSucceeded => {
                &&& post == (Self { phase: Phase::Subscribing, ..pre })
                &&& cmd == (Command::Subscribe {
                    peripheral: pre.session.peripheral->0,
                    characteristic: pre.session.characteristic->0,
                })
            },
            Event::TransportFailed(msg) => Self::session_failed(
                pre,
                BleError::TransportError(msg),
                post,
                cmd,
            ),
            _ => Self::ignored(pre, post, cmd),
        }
    }

    /// Subscribed: stream, awaiting each packet under the idle timeout.
    pub open spec fn subscribe_step(pre: Self, event: Event, post: Self, cmd: Command) -> bool {
        match event {
            Event::OperationSucceeded => {
                &&& post == (Self { phase: Phase::Streaming, ..pre })
                &&& cmd == (Command::AwaitPacket { timeout_ms: pre.config.notify_timeout_ms })
            },
            Event::TransportFailed(msg) => Self::session_failed(
                pre,
                BleError::TransportError(msg),
                post,
                cmd,
            ),
            _ => Self::ignored(pre, post, cmd),
        }
    }

    /// The streaming loop. A packet from another characteristic is
    /// ignored without decoding; a JSON payload on the right one is
    /// emitted; a malformed payload is logged and the session lives on.
    /// Idle timeout, stream closure and transport failure all end the
    /// session with `SessionEnded`.
    pub open spec fn streaming_step(pre: Self, event: Event, post: Self, cmd: Command) -> bool {
        match event {
            Event::PacketReceived(packet) => if packet.characteristic_uuid
                != pre.identity.characteristic_uuid {
                post == pre && cmd == (Command::AwaitPacket {
                    timeout_ms: pre.config.notify_timeout_ms,
                })
            } else if json_accepts(utf8_lossy_of(packet.payload@)) {
                post == pre && (cmd matches Command::EmitThenAwait { value: _, timeout_ms }
                    && timeout_ms == pre.config.notify_timeout_ms)
            } else {
                post == pre && (cmd matches Command::LogMalformedThenAwait { text, timeout_ms }
                    && text@ == utf8_lossy_of(packet.payload@) && timeout_ms
                    == pre.config.notify_timeout_ms)
            },
            Event::PacketTimeout => Self::session_failed(pre, BleError::SessionEnded, post, cmd),
            Event::StreamClosed => Self::session_failed(pre, BleError::SessionEnded, post, cmd),
            Event::TransportFailed(_) => Self::session_failed(
                pre,
                BleError::SessionEnded,
                post,
                cmd,
            ),
            _ => Self::ignored(pre, post, cmd),
        }
    }

    /// The backoff elapsed: restart the pipeline from adapter acquisition.
    pub open spec fn backoff_step(pre: Self, event: Event, post: Self, cmd: Command) -> bool {
        match event {
            Event::Slept => {
                &&& post == (Self { phase: Phase::AcquiringAdapter, ..pre })
                &&& cmd == (Command::ListAdapters)
            },
            _ => Self::ignored(pre, post, cmd),
        }
    }

    /// A shutdown request, honoured in any phase: best-effort unsubscribe
    /// and disconnect, tolerant of partial or absent state.
    pub open spec fn shutdown_step(pre: Self, post: Self, cmd: Command) -> bool {
        if pre.phase is Terminated {
            Self::ignored(pre, post, cmd)
        } else if pre.session.peripheral is Some && pre.session.characteristic is Some {
            &&& post == (Self { phase: Phase::Unsubscribing, ..pre })
            &&& cmd == (Command::Unsubscribe {
                peripheral: pre.session.peripheral->0,
                characteristic: pre.session.characteristic->0,
            })
        } else if pre.session.peripheral is Some {
            &&& post == (Self { phase: Phase::Disconnecting, ..pre })
            &&& cmd == (Command::Disconnect { peripheral: pre.session.peripheral->0 })
        } else {
            &&& post == (Self { phase: Phase::Terminated, ..pre })
            &&& cmd == (Command::Exit)
        }
    }

    /// The unsubscribe finished, well or badly: disconnect either way.
    pub open spec fn unsubscribing_step(pre: Self, event: Event, post: Self, cmd: Command) -> bool {
        match event {
            Event::OperationSucceeded | Event::TransportFailed(_) => {
                &&& post == (Self { phase: Phase::Disconnecting, ..pre })
                &&& cmd == (Command::Disconnect { peripheral: pre.session.peripheral->0 })
            },
            _ => Self::ignored(pre, post, cmd),
        }
    }

    /// The disconnect finished, well or badly: the supervisor is done.
    pub open spec fn disconnecting_step(pre: Self, event: Event, post: Self, cmd: Command) -> bool {
        match event {
            Event::OperationSucceeded | Event::TransportFailed(_) => {
                &&& post == (Self { phase: Phase::Terminated, ..pre })
                &&& cmd == (Command::Exit)
            },
            _ => Self::ignored(pre, post, cmd),
        }
    }

    /// The full transition relation of the supervisor: what one call of
    /// `step` does for every phase and event.
    pub open spec fn step_spec(pre: Self, event: Event, post: Self, cmd: Command) -> bool {
        if event is ShutdownRequested {
            Self::shutdown_step(pre, post, cmd)
        } else {
            match pre.phase {
                Phase::AcquiringAdapter => Self::acquire_step(pre, event, post, cmd),
                Phase::StartingScan => Self::scan_started_step(pre, event, post, cmd),
                Phase::Polling { polls_done } => Self::poll_step(pre, polls_done, event, post, cmd),
                Phase::Sleeping { polls_done } => Self::sleep_step(
                    pre,
                    polls_done,
                    event,
                    post,
                    cmd,
                ),
                Phase::StoppingScan { found } => Self::scan_stopped_step(
                    pre,
                    found,
                    event,
                    post,
                    cmd,
                ),
                Phase::Connecting => Self::connect_step(pre, event, post, cmd),
                Phase::Discovering => Self::discover_step(pre, event, post, cmd),
                Phase::ResolvingCharacteristic => Self::resolve_step(pre, event, post, cmd),
                Phase::OpeningStream => Self::open_stream_step(pre, event, post, cmd),
                Phase::Subscribing => Self::subscribe_step(pre, event, post, cmd),
                Phase::Streaming => Self::streaming_step(pre, event, post, cmd),
                Phase::BackingOff => Self::backoff_step(pre, event, post, cmd),
                Phase::Unsubscribing => Self::unsubscribing_step(pre, event, post, cmd),
                Phase::Disconnecting => Self::disconnecting_step(pre, event, post, cmd),
                Phase::Terminated => Self::ignored(pre, post, cmd),
            }
        }
    }

    /// Fails the current stage: warn, back off, restart from the top.
    fn fail_stage(&mut self, err: BleError) -> (cmd: Command)
        ensures
            Self::stage_failed(*old(self), err, *final(self), cmd),
    {
        self.phase = Phase::BackingOff;
        Command::FailThenBackoff { error: err, backoff_ms: self.config.reconnect_backoff_ms }
    }

    /// Fails the notification session: the peripheral and characteristic
    /// are dropped so the next attempt rediscovers them.
    fn fail_session(&mut self, err: BleError) -> (cmd: Command)
        ensures
            Self::session_failed(*old(self), err, *final(self), cmd),
    {
        self.session.peripheral = None;
        self.session.characteristic = None;
        self.phase = Phase::BackingOff;
        Command::FailThenBackoff { error: err, backoff_ms: self.config.reconnect_backoff_ms }
    }

    /// Consumes one awaited event and decides the next command.
    ///
    /// The returned command is what the driver performs next; the event
    /// it reports back feeds the next call. Every transition is pinned
    /// by `step_spec`; the target identity, the timing parameters and
    /// the invariant `wf` are preserved.
    pub fn step(&mut self, event: Event) -> (cmd: Command)
        requires
            old(self).wf(),
        ensures
            final(self).wf(),
            final(self).identity == old(self).identity,
            final(self).config == old(self).config,
            Self::step_spec(*old(self), event, *final(self), cmd),
    {
        if matches!(event, Event::ShutdownRequested) {
            if matches!(self.phase, Phase::Terminated) {
                return Command::Noop;
            }
            if let Some(peripheral) = self.session.peripheral {
                if let Some(characteristic) = self.session.characteristic {
                    self.phase = Phase::Unsubscribing;
                    return Command::Unsubscribe { peripheral, characteristic };
                }
                self.phase = Phase::Disconnecting;
                return Command::Disconnect { peripheral };
            }
            self.phase = Phase::Terminated;
            return Command::Exit;
        }
        match self.phase {
            Phase::AcquiringAdapter => match event {
                Event::AdaptersListed(adapters) => {
                    if adapters.len() == 0 {
                        self.fail_stage(BleError::NoAdapter)
                    } else {
                        let adapter = adapters[0];
                        self.session.adapter = Some(adapter);
                        self.phase = Phase::StartingScan;
                        Command::StartScan { adapter, service_uuid: self.identity.service_uuid }
                    }
                },
                Event::TransportFailed(msg) => self.fail_stage(BleError::TransportError(msg)),
                _ => Command::Noop,
            },
            Phase::StartingScan => match event {
                Event::OperationSucceeded => {
                    let adapter = self.session.adapter.unwrap();
                    if self.config.scan_retries == 0 {
                        self.phase = Phase::StoppingScan { found: false };
                        Command::StopScan { adapter }
                    } else {
                        self.phase = Phase::Polling { polls_done: 0 };
                        Command::ListPeripherals { adapter }
                    }
                },
                Event::TransportFailed(msg) => self.fail_stage(BleError::TransportError(msg)),
                _ => Command::Noop,
            },
            Phase::Polling { polls_done } => match event {
                Event::PeripheralsListed(adverts) => {
                    match select_peripheral(&adverts, self.identity.service_uuid) {
                        Some(peripheral) => {
                            self.session.peripheral = Some(peripheral);
                            self.phase = Phase::StoppingScan { found: true };
                            Command::StopScan { adapter: self.session.adapter.unwrap() }
                        },
                        None => {
                            self.phase = Phase::Sleeping { polls_done: polls_done + 1 };
                            Command::Sleep { ms: self.config.scan_interval_ms }
                        },
                    }
                },
                Event::TransportFailed(msg) => self.fail_stage(BleError::TransportError(msg)),
                _ => Command::Noop,
            },
            Phase::Sleeping { polls_done } => match event {
                Event::Slept => {
                    let adapter = self.session.adapter.unwrap();
                    if polls_done < self.config.scan_retries {
                        self.phase = Phase::Polling { polls_done };
                        Command::ListPeripherals { adapter }
                    } else {
                        self.phase = Phase::StoppingScan { found: false };
                        Command::StopScan { adapter }
                    }
                },
                _ => Command::Noop,
            },
            Phase::StoppingScan { found } => match event {
                Event::OperationSucceeded => {
                    if found {
                        self.phase = Phase::Connecting;
                        Command::Connect { peripheral: self.session.peripheral.unwrap() }
                    } else {
                        self.fail_stage(BleError::NoPeripheral)
                    }
                },
                Event::TransportFailed(msg) => self.fail_stage(BleError::TransportError(msg)),
                _ => Command::Noop,
            },
            Phase::Connecting => match event {
                Event::OperationSucceeded => {
                    self.phase = Phase::Discovering;
                    Command::DiscoverServices { peripheral: self.session.peripheral.unwrap() }
                },
                Event::TransportFailed(msg) => self.fail_stage(BleError::TransportError(msg)),
                _ => Command::Noop,
            },
            Phase::Discovering => match event {
                Event::OperationSucceeded => {
                    self.phase = Phase::ResolvingCharacteristic;
                    Command::ListCharacteristics { peripheral: self.session.peripheral.unwrap() }
                },
                Event::TransportFailed(msg) => self.fail_stage(BleError::TransportError(msg)),
                _ => Command::Noop,
            },
            Phase::ResolvingCharacteristic => match event {
                Event::CharacteristicsListed(catalog) => {
                    match select_characteristic(&catalog, self.identity.characteristic_uuid) {
                        Some(characteristic) => {
                            self.session.characteristic = Some(characteristic);
                            self.phase = Phase::OpeningStream;
                            Command::OpenStream { peripheral: self.session.peripheral.unwrap() }
                        },
                        None => self.fail_session(
                            BleError::NoCharacteristic(self.identity.characteristic_uuid),
                        ),
                    }
                },
                Event::TransportFailed(msg) => self.fail_stage(BleError::TransportError(msg)),
                _ => Command::Noop,
            },
            Phase::OpeningStream => match event {
                Event::OperationSucceeded => {
                    self.phase = Phase::Subscribing;
                    Command::Subscribe {
                        peripheral: self.session.peripheral.unwrap(),
                        characteristic: self.session.characteristic.unwrap(),
                    }
                },
                Event::TransportFailed(msg) => self.fail_session(BleError::TransportError(msg)),
                _ => Command::Noop,
            },
            Phase::Subscribing => match event {
                Event::OperationSucceeded => {
                    self.phase = Phase::Streaming;
                    Command::AwaitPacket { timeout_ms: self.config.notify_timeout_ms }
                },
                Event::TransportFailed(msg) => self.fail_session(BleError::TransportError(msg)),
                _ => Command::Noop,
            },
            Phase::Streaming => match event {
                Event::PacketReceived(packet) => {
                    let timeout_ms = self.config.notify_timeout_ms;
                    match classify_packet(packet, self.identity.characteristic_uuid) {
                        PacketDisposition::Ignored => Command::AwaitPacket { timeout_ms },
                        PacketDisposition::Emit(value) => Command::EmitThenAwait {
                            value,
                            timeout_ms,
                        },
                        PacketDisposition::Malformed(text) => Command::LogMalformedThenAwait {
                            text,
                            timeout_ms,
                        },
                    }
                },
                Event::PacketTimeout => self.fail_session(BleError::SessionEnded),
                Event::StreamClosed => self.fail_session(BleError::SessionEnded),
                Event::TransportFailed(_) => self.fail_session(BleError::SessionEnded),
                _ => Command::Noop,
            },
            Phase::BackingOff => match event {
                Event::Slept => {
                    self.phase = Phase::AcquiringAdapter;
                    Command::ListAdapters
                },
                _ => Command::Noop,
            },
            Phase::Unsubscribing => match event {
                Event::OperationSucceeded | Event::TransportFailed(_) => {
                    self.phase = Phase::Disconnecting;
                    Command::Disconnect { peripheral: self.session.peripheral.unwrap() }
                },
                _ => Command::Noop,
            },
            Phase::Disconnecting => match event {
                Event::OperationSucceeded | Event::TransportFailed(_) => {
                    self.phase = Phase::Terminated;
                    Command::Exit
                },
                _ => Command::Noop,
            },
            Phase::Terminated => Command::Noop,
        }
    }
}

} // verus!
