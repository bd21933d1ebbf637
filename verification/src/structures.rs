//! Shared data shapes: the pixel/packet frame, discovery results, error
//! payloads, and the session record of the one bound peripheral.

use vstd::prelude::*;

verus! {

/// A rectangular grid of bytes. On the way into the encoder each row is a
/// line of 2-bit pixel intensities; on the way out each row is one
/// transport packet of the encoded command stream.
pub struct Frame {
    pub glasses_frame: Vec<Vec<u8>>,
}

impl View for Frame {
    type V = Seq<Seq<u8>>;

    open spec fn view(&self) -> Seq<Seq<u8>> {
        self.glasses_frame@.map_values(|row: Vec<u8>| row@)
    }
}

/// One discovered peripheral, surfaced to the caller: its wireless address
/// in string form and its advertised name.
pub struct Device {
    pub device_name: String,
    pub device_address: String,
}

/// Mathematical shape of a `Device`: both fields as character sequences.
pub ghost struct DeviceView {
    pub device_name: Seq<char>,
    pub device_address: Seq<char>,
}

impl View for Device {
    type V = DeviceView;

    open spec fn view(&self) -> DeviceView {
        DeviceView { device_name: self.device_name@, device_address: self.device_address@ }
    }
}

/// The single structured message that crosses the boundary to the front end
/// when an operation fails.
#[derive(Debug)]
pub struct ErrorMessage {
    pub message: String,
}

impl View for ErrorMessage {
    type V = Seq<char>;

    open spec fn view(&self) -> Seq<char> {
        self.message@
    }
}

/// Names one adapter of the platform's wireless manager by its position in
/// the manager's adapter list. The session stores this handle so that later
/// operations reuse the adapter acquired first.
#[derive(Clone, Copy, PartialEq, Eq, Structural, Debug)]
pub struct AdapterHandle {
    pub index: usize,
}

/// The atomic "connected" fact: a peripheral address together with the
/// adapter it was reached through. The two are one value so that no state
/// can hold one without the other.
pub struct Binding {
    pub address: String,
    pub adapter: AdapterHandle,
}

/// Process-wide record of which peripheral (if any) is currently bound.
/// `binding == None` is the Disconnected state; `binding == Some(..)` is the
/// Connected state.
pub struct SharedData {
    pub binding: Option<Binding>,
}

impl SharedData {
    pub open spec fn is_connected(&self) -> bool {
        self.binding is Some
    }

    /// A fresh session starts with no binding.
    pub fn new() -> (s: SharedData)
        ensures
            !s.is_connected(),
    {
        SharedData { binding: None }
    }

    /// The address of the bound peripheral, if any.
    pub fn bound_address(&self) -> (r: Option<String>)
        ensures
            match r {
                Some(a) => self.binding matches Some(b) && a == b.address,
                None => self.binding is None,
            },
    {
        match &self.binding {
            Some(b) => Some(b.address.clone()),
            None => None,
        }
    }

    /// The adapter the bound peripheral was reached through, if any.
    pub fn adapter_handle(&self) -> (r: Option<AdapterHandle>)
        ensures
            match r {
                Some(a) => self.binding matches Some(b) && a == b.adapter,
                None => self.binding is None,
            },
    {
        match &self.binding {
            Some(b) => Some(b.adapter),
            None => None,
        }
    }
}

} // verus!
