use crate::central::{
    selected_peripheral, BleCentral, Command, Event, GattCharacteristic, PeripheralAdvert, Phase,
};
use crate::errors::BleError;
use crate::packet::{json_accepts, utf8_lossy_of, NotificationPacket};
use vstd::prelude::*;

verus! {

/// Every transition preserves the supervisor's invariant: in
/// particular, a characteristic handle is never held without its
/// peripheral, and the poll counter never leaves the scan budget.
pub proof fn lemma_step_preserves_wf(pre: BleCentral, event: Event, post: BleCentral, cmd: Command)
    requires
        pre.wf(),
        BleCentral::step_spec(pre, event, post, cmd),
    ensures
        post.wf(),
{
}

/// An empty adapter enumeration fails acquisition with `NoAdapter`, and
/// the supervisor backs off for exactly the configured reconnect
/// backoff, its session handles untouched.
pub proof fn lemma_no_adapter_backoff(
    pre: BleCentral,
    adapters: Vec<u64>,
    post: BleCentral,
    cmd: Command,
)
    requires
        pre.phase == Phase::AcquiringAdapter,
        adapters@.len() == 0,
        BleCentral::step_spec(pre, Event::AdaptersListed(adapters), post, cmd),
    ensures
        post.phase == Phase::BackingOff,
        post.session == pre.session,
        cmd == (Command::FailThenBackoff {
            error: BleError::NoAdapter,
            backoff_ms: pre.config.reconnect_backoff_ms,
        }),
{
}

/// After the backoff pause the supervisor restarts the pipeline from
/// adapter acquisition.
pub proof fn lemma_backoff_restarts(pre: BleCentral, post: BleCentral, cmd: Command)
    requires
        pre.phase == Phase::BackingOff,
        BleCentral::step_spec(pre, Event::Slept, post, cmd),
    ensures
        post.phase == Phase::AcquiringAdapter,
        post.session == pre.session,
        cmd == Command::ListAdapters,
{
}

/// The poll budget holds: a poll is only ever issued towards a polling
/// phase that has seen fewer than `scan_retries` earlier polls, so one
/// scan polls at most `scan_retries` times.
pub proof fn lemma_poll_budget(pre: BleCentral, event: Event, post: BleCentral, cmd: Command)
    requires
        pre.wf(),
        BleCentral::step_spec(pre, event, post, cmd),
        cmd matches Command::ListPeripherals { .. },
    ensures
        post.phase matches Phase::Polling { polls_done } && polls_done
            < post.config.scan_retries,
{
}

/// A poll that matches nothing is followed by a pause of exactly the
/// scan interval, with the poll counter advanced by one.
pub proof fn lemma_poll_no_match_sleeps(
    pre: BleCentral,
    polls_done: u32,
    adverts: Vec<PeripheralAdvert>,
    post: BleCentral,
    cmd: Command,
)
    requires
        pre.wf(),
        pre.phase == (Phase::Polling { polls_done }),
        selected_peripheral(adverts@, pre.identity.service_uuid) is None,
        BleCentral::step_spec(pre, Event::PeripheralsListed(adverts), post, cmd),
    ensures
        post.phase == (Phase::Sleeping { polls_done: (polls_done + 1) as u32 }),
        post.session == pre.session,
        cmd == (Command::Sleep { ms: pre.config.scan_interval_ms }),
{
}

/// The first matching advertisement wins: the matched peripheral is
/// recorded and the very next command stops the scan, so no further
/// poll of this scan occurs.
pub proof fn lemma_match_stops_polling(
    pre: BleCentral,
    polls_done: u32,
    adverts: Vec<PeripheralAdvert>,
    post: BleCentral,
    cmd: Command,
)
    requires
        pre.wf(),
        pre.phase == (Phase::Polling { polls_done }),
        selected_peripheral(adverts@, pre.identity.service_uuid) is Some,
        BleCentral::step_spec(pre, Event::PeripheralsListed(adverts), post, cmd),
    ensures
        post.phase == (Phase::StoppingScan { found: true }),
        post.session.peripheral == Some(
            selected_peripheral(adverts@, pre.identity.service_uuid)->0,
        ),
        cmd == (Command::StopScan { adapter: pre.session.adapter->0 }),
{
}

/// A scan stop is issued only on leaving the polling loop — on the
/// match path and on the exhausted path alike — and the successor phase
/// is past the loop, so each scan stops exactly once.
pub proof fn lemma_stop_scan_once(pre: BleCentral, event: Event, post: BleCentral, cmd: Command)
    requires
        BleCentral::step_spec(pre, event, post, cmd),
        cmd matches Command::StopScan { .. },
    ensures
        pre.phase is StartingScan || pre.phase is Polling || pre.phase is Sleeping,
        post.phase is StoppingScan,
{
}

/// A scan whose whole poll budget matched nothing stops the scan and
/// then fails the stage with `NoPeripheral` (the cleanup happens on the
/// failure path too).
pub proof fn lemma_no_peripheral_after_exhausted_scan(
    s0: BleCentral,
    s1: BleCentral,
    s2: BleCentral,
    cmd1: Command,
    cmd2: Command,
)
    requires
        s0.wf(),
        s0.phase == (Phase::Sleeping { polls_done: s0.config.scan_retries }),
        BleCentral::step_spec(s0, Event::Slept, s1, cmd1),
        BleCentral::step_spec(s1, Event::OperationSucceeded, s2, cmd2),
    ensures
        cmd1 == (Command::StopScan { adapter: s0.session.adapter->0 }),
        s1.phase == (Phase::StoppingScan { found: false }),
        cmd2 == (Command::FailThenBackoff {
            error: BleError::NoPeripheral,
            backoff_ms: s0.config.reconnect_backoff_ms,
        }),
        s2.phase == Phase::BackingOff,
{
}

/// A catalog without the target characteristic fails the session with
/// `NoCharacteristic` carrying that UUID; the peripheral and
/// characteristic are cleared, and no subscribe request was or will be
/// issued from this attempt.
pub proof fn lemma_missing_characteristic(
    pre: BleCentral,
    catalog: Vec<GattCharacteristic>,
    post: BleCentral,
    cmd: Command,
)
    requires
        pre.phase == Phase::ResolvingCharacteristic,
        forall|i: int|
            0 <= i < catalog@.len() ==> (#[trigger] catalog@[i]).uuid
                != pre.identity.characteristic_uuid,
        BleCentral::step_spec(pre, Event::CharacteristicsListed(catalog), post, cmd),
    ensures
        post.phase == Phase::BackingOff,
        post.session.peripheral is None,
        post.session.characteristic is None,
        cmd == (Command::FailThenBackoff {
            error: BleError::NoCharacteristic(pre.identity.characteristic_uuid),
            backoff_ms: pre.config.reconnect_backoff_ms,
        }),
{
    crate::central::lemma_resolved_characteristic_is_first_match(
        catalog@,
        pre.identity.characteristic_uuid,
    );
}

/// A subscribe request is only ever issued from the stream-opening
/// phase, which holds a resolved characteristic: a supervisor that
/// failed with `NoCharacteristic` never subscribes.
pub proof fn lemma_subscribe_needs_characteristic(
    pre: BleCentral,
    event: Event,
    post: BleCentral,
    cmd: Command,
)
    requires
        pre.wf(),
        BleCentral::step_spec(pre, event, post, cmd),
        cmd matches Command::Subscribe { .. },
    ensures
        pre.phase == Phase::OpeningStream,
        pre.session.characteristic is Some,
        cmd == (Command::Subscribe {
            peripheral: pre.session.peripheral->0,
            characteristic: pre.session.characteristic->0,
        }),
{
}

/// A packet bearing another characteristic's UUID is ignored: the
/// supervisor is unchanged and merely awaits the next packet — the
/// payload is neither decoded nor logged nor emitted.
pub proof fn lemma_foreign_packet_ignored(
    pre: BleCentral,
    packet: NotificationPacket,
    post: BleCentral,
    cmd: Command,
)
    requires
        pre.phase is Streaming,
        packet.characteristic_uuid != pre.identity.characteristic_uuid,
        BleCentral::step_spec(pre, Event::PacketReceived(packet), post, cmd),
    ensures
        post == pre,
        cmd == (Command::AwaitPacket { timeout_ms: pre.config.notify_timeout_ms }),
{
}

/// A malformed payload on the right characteristic is logged as an
/// error and does not end the session: the supervisor is unchanged, and
/// a valid packet arriving next is still decoded and emitted.
pub proof fn lemma_malformed_payload_survives(
    s0: BleCentral,
    bad: NotificationPacket,
    good: NotificationPacket,
    s1: BleCentral,
    s2: BleCentral,
    cmd1: Command,
    cmd2: Command,
)
    requires
        s0.phase is Streaming,
        bad.characteristic_uuid == s0.identity.characteristic_uuid,
        !json_accepts(utf8_lossy_of(bad.payload@)),
        BleCentral::step_spec(s0, Event::PacketReceived(bad), s1, cmd1),
        good.characteristic_uuid == s0.identity.characteristic_uuid,
        json_accepts(utf8_lossy_of(good.payload@)),
        BleCentral::step_spec(s1, Event::PacketReceived(good), s2, cmd2),
    ensures
        s1 == s0,
        cmd1 matches Command::LogMalformedThenAwait { text, timeout_ms } && text@ == utf8_lossy_of(
            bad.payload@,
        ) && timeout_ms == s0.config.notify_timeout_ms,
        s2 == s0,
        cmd2 matches Command::EmitThenAwait { value: _, timeout_ms } && timeout_ms
            == s0.config.notify_timeout_ms,
{
}

/// When no packet arrives within the notification idle timeout, the
/// session ends with `SessionEnded`, the peripheral and characteristic
/// are cleared, and after the backoff the supervisor restarts from
/// adapter acquisition.
pub proof fn lemma_idle_timeout_restarts(
    s0: BleCentral,
    s1: BleCentral,
    s2: BleCentral,
    cmd1: Command,
    cmd2: Command,
)
    requires
        s0.phase is Streaming,
        BleCentral::step_spec(s0, Event::PacketTimeout, s1, cmd1),
        BleCentral::step_spec(s1, Event::Slept, s2, cmd2),
    ensures
        cmd1 == (Command::FailThenBackoff {
            error: BleError::SessionEnded,
            backoff_ms: s0.config.reconnect_backoff_ms,
        }),
        s1.phase == Phase::BackingOff,
        s1.session.peripheral is None,
        s1.session.characteristic is None,
        s1.session.adapter == s0.session.adapter,
        cmd2 == Command::ListAdapters,
        s2.phase == Phase::AcquiringAdapter,
{
}

} // verus!
