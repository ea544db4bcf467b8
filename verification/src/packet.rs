use vstd::prelude::*;

verus! {

/// One GATT notification as the transport hands it over: the UUID of
/// the characteristic it came from, and the raw payload bytes. Consumed
/// one at a time, never retained.
#[derive(Debug)]
pub struct NotificationPacket {
    pub characteristic_uuid: u128,
    pub payload: Vec<u8>,
}

/// The text `String::from_utf8_lossy` decodes from the given bytes: a
/// fixed function of the bytes alone.
pub uninterp spec fn utf8_lossy_of(bytes: Seq<u8>) -> Seq<char>;

/// Whether text parses as a single JSON value under serde_json's
/// grammar: a fixed function of the text alone.
pub uninterp spec fn json_accepts(text: Seq<char>) -> bool;

/// Relies on String::from_utf8_lossy: it replaces invalid sequences
/// instead of failing, and its result depends on the bytes alone.
#[verifier::external_body]
fn decode_utf8_lossy(bytes: &Vec<u8>) -> (s: String)
    ensures
        s@ == utf8_lossy_of(bytes@),
{
    String::from_utf8_lossy(bytes).into_owned()
}

/// Relies on serde_json::from_str: whether a string is a single JSON
/// value depends on the string alone.
#[verifier::external_body]
fn parse_json_value(text: &str) -> (r: Option<serde_json::Value>)
    ensures
        r is Some <==> json_accepts(text@),
{
    serde_json::from_str::<serde_json::Value>(text).ok()
}

#[verifier::external_type_specification]
#[verifier::external_body]
pub struct ExJsonValue(serde_json::Value);

/// How the notification session treats one inbound packet.
pub enum PacketDisposition {
    /// The packet bears another characteristic's UUID: it is neither
    /// decoded nor logged.
    Ignored,
    /// The payload decoded to a single JSON value; emit it to the sink.
    Emit(serde_json::Value),
    /// The payload on the right characteristic is not valid JSON: log
    /// the decoded text as an error, and keep the session alive.
    Malformed(String),
}

/// Decides what the notification session does with one packet: packets
/// from other characteristics are ignored, payloads that decode to JSON
/// are emitted, and the rest are reported as malformed.
pub fn classify_packet(packet: NotificationPacket, target_characteristic: u128) -> (d:
    PacketDisposition)
    ensures
        packet.characteristic_uuid != target_characteristic <==> d is Ignored,
        (packet.characteristic_uuid == target_characteristic && json_accepts(
            utf8_lossy_of(packet.payload@),
        )) <==> d is Emit,
        (packet.characteristic_uuid == target_characteristic && !json_accepts(
            utf8_lossy_of(packet.payload@),
        )) <==> d is Malformed,
        d matches PacketDisposition::Malformed(t) ==> t@ == utf8_lossy_of(packet.payload@),
{
    if packet.characteristic_uuid != target_characteristic {
        return PacketDisposition::Ignored;
    }
    let text = decode_utf8_lossy(&packet.payload);
    match parse_json_value(text.as_str()) {
        Some(value) => PacketDisposition::Emit(value),
        None => PacketDisposition::Malformed(text),
    }
}

} // verus!
