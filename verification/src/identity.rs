use crate::errors::BleError;
use crate::uuid_text::{parse_uuid_text, uuid_text_value, valid_uuid_text};
use vstd::prelude::*;

verus! {

/// The immutable target of the whole pipeline: which GATT service to
/// scan for, and which characteristic of that service to subscribe to.
#[derive(Clone, Copy, Debug, PartialEq, Eq, Structural)]
pub struct TargetIdentity {
    pub service_uuid: u128,
    pub characteristic_uuid: u128,
}

impl TargetIdentity {
    /// Parses the two hyphenated UUID strings.
    ///
    /// Construction fails with `MalformedIdentity` on every string that
    /// is not well-formed hyphenated UUID text; this is the one fatal
    /// error of the system, found before any supervisor exists.
    pub fn new(service: &str, characteristic: &str) -> (r: Result<TargetIdentity, BleError>)
        ensures
            r is Ok <==> valid_uuid_text(service@) && valid_uuid_text(characteristic@),
            r matches Ok(t) ==> t.service_uuid as int == uuid_text_value(service@)
                && t.characteristic_uuid as int == uuid_text_value(characteristic@),
            r matches Err(e) ==> e == BleError::MalformedIdentity,
    {
        let service_uuid = match parse_uuid_text(service) {
            Some(v) => v,
            None => {
                return Err(BleError::MalformedIdentity);
            },
        };
        let characteristic_uuid = match parse_uuid_text(characteristic) {
            Some(v) => v,
            None => {
                return Err(BleError::MalformedIdentity);
            },
        };
        Ok(TargetIdentity { service_uuid, characteristic_uuid })
    }
}

} // verus!
