use vstd::prelude::*;

verus! {

// Names fixed by the BlueZ bus API, and the timeouts this library puts on its
// bus calls.

/// Timeout, in milliseconds, on the one managed-object enumeration that
/// discovery issues.
pub const DISCOVERY_TIMEOUT_MS: u64 = 5000;

/// Timeout, in milliseconds, on each property read or write.
pub const PROPERTY_TIMEOUT_MS: u64 = 1000;

/// The bus name under which the BlueZ service registers.
pub open spec fn spec_bluez_service_name() -> Seq<char> {
    "org.bluez"@
}

pub fn bluez_service_name() -> (r: &'static str)
    ensures
        r@ == spec_bluez_service_name(),
{
    "org.bluez"
}

/// The path of the root object, against which discovery enumerates the managed
/// objects.
pub open spec fn spec_root_object_path() -> Seq<char> {
    "/"@
}

pub fn root_object_path() -> (r: &'static str)
    ensures
        r@ == spec_root_object_path(),
{
    "/"
}

/// The interface through which an adapter's properties are read and written.
pub open spec fn spec_adapter_iface() -> Seq<char> {
    "org.bluez.Adapter1"@
}

pub fn adapter_iface() -> (r: &'static str)
    ensures
        r@ == spec_adapter_iface(),
{
    "org.bluez.Adapter1"
}

/// The interface whose presence on an object marks it as the adapter this
/// library looks for.
pub open spec fn spec_le_advertising_manager_iface() -> Seq<char> {
    "org.bluez.LEAdvertisingManager1"@
}

pub fn le_advertising_manager_iface() -> (r: &'static str)
    ensures
        r@ == spec_le_advertising_manager_iface(),
{
    "org.bluez.LEAdvertisingManager1"
}

/// The boolean property on the adapter interface that reflects whether the
/// radio is enabled.
pub open spec fn spec_powered_property() -> Seq<char> {
    "Powered"@
}

pub fn powered_property() -> (r: &'static str)
    ensures
        r@ == spec_powered_property(),
{
    "Powered"
}

/// One object of the managed-object table: its bus path and the names of the
/// interfaces it implements.
///
/// The table is the transport's snapshot of every object a service manages, in
/// the order the transport happens to walk it. Discovery consumes only the
/// interface names, so property values are left out of the model.
#[derive(Debug, Clone, PartialEq)]
pub struct ObjectEntry {
    pub path: String,
    pub interfaces: Vec<String>,
}

/// A property-write request for the transport to issue: set `property` on
/// `interface` of the object at `object_path`, owned by the service named
/// `service`, to `value`, giving up after `timeout_ms` milliseconds.
#[derive(Debug, Clone, PartialEq)]
pub struct PropertyWrite {
    pub service: String,
    pub object_path: String,
    pub interface: String,
    pub property: String,
    pub value: bool,
    pub timeout_ms: u64,
}

/// A property-read request for the transport to issue: read `property` on
/// `interface` of the object at `object_path`, owned by the service named
/// `service`, giving up after `timeout_ms` milliseconds.
#[derive(Debug, Clone, PartialEq)]
pub struct PropertyRead {
    pub service: String,
    pub object_path: String,
    pub interface: String,
    pub property: String,
    pub timeout_ms: u64,
}

/// What the transport observed when it performed a property read.
#[derive(Debug, Clone, PartialEq)]
pub enum ReadOutcome {
    /// The read returned a boolean.
    Value(bool),
    /// The read returned a value of some other type.
    WrongType,
    /// The transport call itself failed; carries the transport's description.
    Failed(String),
}

} // verus!
