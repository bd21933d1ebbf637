//! The display dispatcher's decisions: whether a display call may proceed
//! at all (only a Connected session may write), and which of a
//! peripheral's characteristics is the vendor write target. The writes
//! themselves are unacknowledged transport operations performed outside;
//! packets already written when one fails are not retracted.

use vstd::prelude::*;

use crate::structures::{AdapterHandle, SharedData};

verus! {

/// Why a display call failed.
#[derive(Clone, Copy, PartialEq, Eq, Structural, Debug)]
pub enum DispatchError {
    /// The session holds no bound peripheral; nothing was written.
    NotConnected,
    /// The bound peripheral could not be resolved through its adapter.
    PeripheralUnavailable,
    /// The peripheral exposes no vendor write characteristic.
    CharacteristicNotFound,
    /// An unacknowledged write failed; the remaining packets were not sent.
    TransportWriteFailed,
}

/// The well-known identifier of the vendor write characteristic.
pub open spec fn vendor_write_uuid() -> Seq<char> {
    "6e400002-b5a3-f393-e0a9-e50e24dcca9e"@
}

/// The vendor write characteristic identifier, in string form, for
/// comparison against what the peripheral enumerates.
pub fn vendor_uuid_string() -> (r: String)
    ensures
        r@ == vendor_write_uuid(),
{
    "6e400002-b5a3-f393-e0a9-e50e24dcca9e".to_owned()
}

/// What a display call must act on: the bound address and adapter. While
/// Disconnected the call fails here, before any transport write is
/// attempted. Does not change the session.
pub fn display_target(session: &SharedData) -> (r: Result<(String, AdapterHandle), DispatchError>)
    ensures
        match r {
            Ok(t) => session.binding matches Some(b) && t.0 == b.address && t.1 == b.adapter,
            Err(e) => session.binding is None && e == DispatchError::NotConnected,
        },
{
    match &session.binding {
        Some(b) => Ok((b.address.clone(), b.adapter)),
        None => Err(DispatchError::NotConnected),
    }
}

/// Searches a peripheral's enumerated characteristics for the vendor write
/// target, returning the position of the first match.
pub fn find_write_characteristic(uuids: &Vec<String>) -> (r: Option<usize>)
    ensures
        match r {
            Some(i) => i < uuids@.len() && (#[trigger] uuids@[i as int])@ == vendor_write_uuid()
                && forall|k: int| 0 <= k < i ==> (#[trigger] uuids@[k])@ != vendor_write_uuid(),
            None => forall|k: int|
                0 <= k < uuids@.len() ==> (#[trigger] uuids@[k])@ != vendor_write_uuid(),
        },
{
    let vendor = vendor_uuid_string();
    let mut i: usize = 0;
    while i < uuids.len()
        invariant
            i <= uuids.len(),
            vendor@ == vendor_write_uuid(),
            forall|k: int| 0 <= k < i ==> (#[trigger] uuids@[k])@ != vendor_write_uuid(),
        decreases uuids.len() - i,
    {
        if uuids[i].eq(&vendor) {
            return Some(i);
        }
        i = i + 1;
    }
    None
}

/// The message the front end shows for a display failure.
pub open spec fn dispatch_error_text(e: DispatchError) -> Seq<char> {
    match e {
        DispatchError::NotConnected => "Please connect to a device first"@,
        DispatchError::PeripheralUnavailable => "Couldn't get glasses"@,
        DispatchError::CharacteristicNotFound => "Couldn't find write characteristic"@,
        DispatchError::TransportWriteFailed => "Couldn't write to the glasses"@,
    }
}

impl DispatchError {
    /// Renders this failure as its human-readable message.
    pub fn message(&self) -> (r: String)
        ensures
            r@ == dispatch_error_text(*self),
    {
        match self {
            DispatchError::NotConnected => "Please connect to a device first".to_owned(),
            DispatchError::PeripheralUnavailable => "Couldn't get glasses".to_owned(),
            DispatchError::CharacteristicNotFound => "Couldn't find write characteristic".to_owned(),
            DispatchError::TransportWriteFailed => "Couldn't write to the glasses".to_owned(),
        }
    }
}

} // verus!
