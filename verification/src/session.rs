//! The device session: a two-state machine (Disconnected, Connected) over
//! the one process-wide peripheral binding, plus the pure decisions behind
//! discovery and connect — which adapter to use, which scan results to
//! surface, which peripheral matches the requested address. The transport
//! itself (scanning, link-layer connect and disconnect) happens outside;
//! its outcome comes back as an event, and the functions here decide the
//! next state and the result.

use vstd::prelude::*;

use crate::structures::{AdapterHandle, Binding, Device, DeviceView, SharedData};

verus! {

/// Why a session operation failed.
#[derive(Clone, Copy, PartialEq, Eq, Structural, Debug)]
pub enum SessionError {
    /// No wireless adapter is available on this machine.
    NoAdapter,
    /// The scan window closed without the requested peripheral appearing.
    PeripheralNotFound,
    /// The link-layer connect to the peripheral failed.
    ConnectFailed,
    /// The peripheral connected but its capabilities could not be read.
    CapabilityDiscoveryFailed,
    /// The operation needs a bound peripheral and none is bound.
    NotConnected,
    /// The bound peripheral could not be resolved through its adapter.
    PeripheralUnavailable,
    /// The link-layer disconnect failed.
    DisconnectFailed,
}

/// What came of a connect attempt, reported by the transport layer.
pub enum ConnectEvent {
    /// The peripheral was found, the link came up, and its capabilities
    /// were read: the session may bind to it.
    Established { address: String, adapter: AdapterHandle },
    /// No adapter was available to scan with.
    NoAdapter,
    /// The scan did not turn up the requested address.
    PeripheralNotFound,
    /// The link-layer connect failed.
    LinkFailed,
    /// Capability discovery failed after the link came up.
    CapabilityDiscoveryFailed,
}

/// What came of a disconnect attempt, reported by the transport layer.
pub enum DisconnectEvent {
    /// The link was closed.
    Closed,
    /// The bound peripheral could not be resolved; nothing was attempted.
    PeripheralUnavailable,
    /// The link-layer disconnect failed.
    CloseFailed,
}

/// The session state after a connect attempt ends with `ev`: a successful
/// attempt binds address and adapter together (rebinding if already
/// connected); every failure leaves the state exactly as it was.
pub open spec fn connect_post(s: SharedData, ev: ConnectEvent) -> SharedData {
    match ev {
        ConnectEvent::Established { address, adapter } => SharedData {
            binding: Some(Binding { address, adapter }),
        },
        _ => s,
    }
}

/// The result a connect attempt reports for `ev`.
pub open spec fn connect_result(ev: ConnectEvent) -> Result<(), SessionError> {
    match ev {
        ConnectEvent::Established { .. } => Ok(()),
        ConnectEvent::NoAdapter => Err(SessionError::NoAdapter),
        ConnectEvent::PeripheralNotFound => Err(SessionError::PeripheralNotFound),
        ConnectEvent::LinkFailed => Err(SessionError::ConnectFailed),
        ConnectEvent::CapabilityDiscoveryFailed => Err(SessionError::CapabilityDiscoveryFailed),
    }
}

/// The session state after a disconnect attempt ends with `ev`: only a
/// closed link while connected clears the binding; everything else leaves
/// the state exactly as it was.
pub open spec fn disconnect_post(s: SharedData, ev: DisconnectEvent) -> SharedData {
    if s.binding is None {
        s
    } else {
        match ev {
            DisconnectEvent::Closed => SharedData { binding: None },
            _ => s,
        }
    }
}

/// The result a disconnect attempt reports for `ev`.
pub open spec fn disconnect_result(s: SharedData, ev: DisconnectEvent) -> Result<
    (),
    SessionError,
> {
    if s.binding is None {
        Err(SessionError::NotConnected)
    } else {
        match ev {
            DisconnectEvent::Closed => Ok(()),
            DisconnectEvent::PeripheralUnavailable => Err(SessionError::PeripheralUnavailable),
            DisconnectEvent::CloseFailed => Err(SessionError::DisconnectFailed),
        }
    }
}

/// Steps the session on the outcome of a connect attempt.
pub fn apply_connect(session: &mut SharedData, ev: ConnectEvent) -> (r: Result<(), SessionError>)
    ensures
        *final(session) == connect_post(*old(session), ev),
        r == connect_result(ev),
{
    match ev {
        ConnectEvent::Established { address, adapter } => {
            session.binding = Some(Binding { address, adapter });
            Ok(())
        },
        ConnectEvent::NoAdapter => Err(SessionError::NoAdapter),
        ConnectEvent::PeripheralNotFound => Err(SessionError::PeripheralNotFound),
        ConnectEvent::LinkFailed => Err(SessionError::ConnectFailed),
        ConnectEvent::CapabilityDiscoveryFailed => Err(SessionError::CapabilityDiscoveryFailed),
    }
}

/// Steps the session on the outcome of a disconnect attempt.
pub fn apply_disconnect(session: &mut SharedData, ev: DisconnectEvent) -> (r: Result<
    (),
    SessionError,
>)
    ensures
        *final(session) == disconnect_post(*old(session), ev),
        r == disconnect_result(*old(session), ev),
{
    if session.binding.is_none() {
        return Err(SessionError::NotConnected);
    }
    match ev {
        DisconnectEvent::Closed => {
            session.binding = None;
            Ok(())
        },
        DisconnectEvent::PeripheralUnavailable => Err(SessionError::PeripheralUnavailable),
        DisconnectEvent::CloseFailed => Err(SessionError::DisconnectFailed),
    }
}

/// What a disconnect must act on: the bound address and adapter, or the
/// precondition failure when nothing is bound. Does not change the session.
pub fn disconnect_target(session: &SharedData) -> (r: Result<(String, AdapterHandle), SessionError>)
    ensures
        match r {
            Ok(t) => session.binding matches Some(b) && t.0 == b.address && t.1 == b.adapter,
            Err(e) => session.binding is None && e == SessionError::NotConnected,
        },
{
    match &session.binding {
        Some(b) => Ok((b.address.clone(), b.adapter)),
        None => Err(SessionError::NotConnected),
    }
}

/// Picks the adapter an operation should use: the session's bound adapter
/// if one is cached, otherwise the first adapter the platform offers;
/// an error only when neither exists.
pub fn select_adapter(session: &SharedData, available: &Vec<AdapterHandle>) -> (r: Result<
    AdapterHandle,
    SessionError,
>)
    ensures
        match r {
            Ok(a) => (session.binding matches Some(b) && a == b.adapter) || (session.binding
                is None && available@.len() > 0 && a == available@[0]),
            Err(e) => session.binding is None && available@.len() == 0 && e
                == SessionError::NoAdapter,
        },
{
    match &session.binding {
        Some(b) => Ok(b.adapter),
        None => {
            if available.len() > 0 {
                Ok(available[0])
            } else {
                Err(SessionError::NoAdapter)
            }
        },
    }
}

/// One peripheral as the scan reported it: its address in string form and
/// its advertised name, if it advertised one.
pub struct PeripheralInfo {
    pub address: String,
    pub name: Option<String>,
}

/// Mathematical shape of a `PeripheralInfo`.
pub ghost struct PeripheralView {
    pub address: Seq<char>,
    pub name: Option<Seq<char>>,
}

impl View for PeripheralInfo {
    type V = PeripheralView;

    open spec fn view(&self) -> PeripheralView {
        PeripheralView {
            address: self.address@,
            name: match self.name {
                Some(n) => Some(n@),
                None => None,
            },
        }
    }
}

/// The descriptors a scan surfaces: every peripheral with a non-empty
/// advertised name, in scan order, nameless ones silently dropped.
pub open spec fn named_devices(scan: Seq<PeripheralView>) -> Seq<DeviceView>
    decreases scan.len(),
{
    if scan.len() == 0 {
        Seq::empty()
    } else {
        let rest = named_devices(scan.drop_last());
        let p = scan.last();
        match p.name {
            Some(n) => if n.len() > 0 {
                rest.push(DeviceView { device_name: n, device_address: p.address })
            } else {
                rest
            },
            None => rest,
        }
    }
}

/// Turns raw scan results into discovery output, keeping exactly the
/// peripherals that advertise a non-empty name.
pub fn filter_named(scan: &Vec<PeripheralInfo>) -> (r: Vec<Device>)
    ensures
        r@.map_values(|d: Device| d@) == named_devices(
            scan@.map_values(|p: PeripheralInfo| p@),
        ),
{
    let ghost sv: Seq<PeripheralView> = scan@.map_values(|p: PeripheralInfo| p@);
    let mut found: Vec<Device> = Vec::new();
    let mut i: usize = 0;
    while i < scan.len()
        invariant
            i <= scan.len(),
            sv == scan@.map_values(|p: PeripheralInfo| p@),
            found@.map_values(|d: Device| d@) == named_devices(sv.take(i as int)),
        decreases scan.len() - i,
    {
        let ghost pre = found@.map_values(|d: Device| d@);
        match &scan[i].name {
            Some(n) => {
                if !n.as_str().is_empty() {
                    found.push(
                        Device {
                            device_name: n.clone(),
                            device_address: scan[i].address.clone(),
                        },
                    );
                }
            },
            None => {},
        }
        proof {
            assert(sv.take(i as int + 1).drop_last() =~= sv.take(i as int));
            assert(sv.take(i as int + 1).last() == sv[i as int]);
            assert(found@.map_values(|d: Device| d@) =~= named_devices(sv.take(i as int + 1)));
        }
        i = i + 1;
    }
    proof {
        assert(sv.take(sv.len() as int) =~= sv);
    }
    found
}

/// Searches scan results for the peripheral whose address matches the
/// requested one, returning the position of the first match.
pub fn find_peripheral(scan: &Vec<PeripheralInfo>, target: &String) -> (r: Option<usize>)
    ensures
        match r {
            Some(i) => i < scan@.len() && (#[trigger] scan@[i as int]).address@ == target@
                && forall|k: int| 0 <= k < i ==> (#[trigger] scan@[k]).address@ != target@,
            None => forall|k: int|
                0 <= k < scan@.len() ==> (#[trigger] scan@[k]).address@ != target@,
        },
{
    let mut i: usize = 0;
    while i < scan.len()
        invariant
            i <= scan.len(),
            forall|k: int| 0 <= k < i ==> (#[trigger] scan@[k]).address@ != target@,
        decreases scan.len() - i,
    {
        if scan[i].address.eq(target) {
            return Some(i);
        }
        i = i + 1;
    }
    None
}

/// The message the front end shows for a session failure.
pub open spec fn session_error_text(e: SessionError) -> Seq<char> {
    match e {
        SessionError::NoAdapter => "Couldn't get adapter"@,
        SessionError::PeripheralNotFound => "Couldn't get peripheral"@,
        SessionError::ConnectFailed => "Couldn't reach glasses"@,
        SessionError::CapabilityDiscoveryFailed => "Couldn't connect to the glasses"@,
        SessionError::NotConnected => "Couldn't get stored address"@,
        SessionError::PeripheralUnavailable => "Couldn't get peripheral"@,
        SessionError::DisconnectFailed => "Couldn't disconnect the glasses"@,
    }
}

impl SessionError {
    /// Renders this failure as its human-readable message.
    pub fn message(&self) -> (r: String)
        ensures
            r@ == session_error_text(*self),
    {
        match self {
            SessionError::NoAdapter => "Couldn't get adapter".to_owned(),
            SessionError::PeripheralNotFound => "Couldn't get peripheral".to_owned(),
            SessionError::ConnectFailed => "Couldn't reach glasses".to_owned(),
            SessionError::CapabilityDiscoveryFailed => "Couldn't connect to the glasses".to_owned(),
            SessionError::NotConnected => "Couldn't get stored address".to_owned(),
            SessionError::PeripheralUnavailable => "Couldn't get peripheral".to_owned(),
            SessionError::DisconnectFailed => "Couldn't disconnect the glasses".to_owned(),
        }
    }
}

/// A successful connect binds both halves of the session fact at once:
/// afterwards the bound address and the adapter handle are both set, to
/// exactly the peripheral that was connected.
pub proof fn lemma_connect_success_binds(s: SharedData, address: String, adapter: AdapterHandle)
    ensures
        connect_post(s, ConnectEvent::Established { address, adapter }).binding == Some(
            Binding { address, adapter },
        ),
        connect_result(ConnectEvent::Established { address, adapter }) == Ok::<(), SessionError>(
            (),
        ),
{
}

/// A failed connect is a self-loop: whatever binding the session held
/// before — including a prior connection to another device — is untouched,
/// and the reported result is an error.
pub proof fn lemma_connect_failure_preserves_binding(s: SharedData, ev: ConnectEvent)
    requires
        connect_result(ev) is Err,
    ensures
        connect_post(s, ev) == s,
{
}

/// A successful disconnect clears both halves of the session fact at once.
pub proof fn lemma_disconnect_success_clears(s: SharedData)
    requires
        s.binding is Some,
    ensures
        disconnect_post(s, DisconnectEvent::Closed).binding is None,
        disconnect_result(s, DisconnectEvent::Closed) == Ok::<(), SessionError>(()),
{
}

/// A failed disconnect is a self-loop: the binding is untouched.
pub proof fn lemma_disconnect_failure_preserves_binding(s: SharedData, ev: DisconnectEvent)
    requires
        disconnect_result(s, ev) is Err,
    ensures
        disconnect_post(s, ev) == s,
{
}

} // verus!
