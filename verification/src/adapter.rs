use vstd::prelude::*;

use crate::bus::{
    ObjectEntry, PropertyWrite, adapter_iface, bluez_service_name, powered_property,
    spec_adapter_iface, spec_bluez_service_name, spec_le_advertising_manager_iface,
    spec_powered_property, le_advertising_manager_iface, PROPERTY_TIMEOUT_MS,
};
use crate::error::Error;
use crate::poll::{PollState, PoweredPoll};

verus! {

/// True when the entry lists the LE advertising manager interface, the
/// discriminator by which discovery recognises the adapter object.
pub open spec fn entry_matches(e: ObjectEntry) -> bool {
    exists|i: int|
        0 <= i < e.interfaces@.len() && #[trigger] e.interfaces@[i]@
            == spec_le_advertising_manager_iface()
}

/// True when `i` indexes the first matching entry of the table.
pub open spec fn is_first_match(table: Seq<ObjectEntry>, i: int) -> bool {
    &&& 0 <= i < table.len()
    &&& entry_matches(table[i])
    &&& forall|j: int| 0 <= j < i ==> !(#[trigger] entry_matches(table[j]))
}

/// Everything discovery promises of its result on a given table: on success,
/// the identity of the first matching entry in the table's order; on failure,
/// the not-found error, exactly when no entry matches.
pub open spec fn discovery_post(table: Seq<ObjectEntry>, r: Result<Adapter, Error>) -> bool {
    match r {
        Ok(a) => exists|i: int|
            #[trigger] is_first_match(table, i) && a.object_path@ == table[i].path@,
        Err(e) => {
            &&& e == Error::NotFound
            &&& forall|i: int| 0 <= i < table.len() ==> !(#[trigger] entry_matches(table[i]))
        },
    }
}

/// The full shape of the request that a power write issues: a write of `on` to
/// the `Powered` property on the adapter interface of the object at `path`,
/// owned by the BlueZ service, under the property timeout.
pub open spec fn is_powered_write(w: PropertyWrite, path: Seq<char>, on: bool) -> bool {
    &&& w.service@ == spec_bluez_service_name()
    &&& w.object_path@ == path
    &&& w.interface@ == spec_adapter_iface()
    &&& w.property@ == spec_powered_property()
    &&& w.value == on
    &&& w.timeout_ms == PROPERTY_TIMEOUT_MS
}

/// A handle on the one adapter object that discovery located: its bus path,
/// resolved once at construction and never re-resolved. If the adapter later
/// disappears from the bus, operations against this identity fail rather than
/// silently re-discovering.
#[derive(Debug, Clone)]
pub struct Adapter {
    pub object_path: String,
}

impl Adapter {
    /// Whether `e` lists an interface whose name equals `target`.
    fn entry_has_iface(e: &ObjectEntry, target: &String) -> (r: bool)
        ensures
            r == exists|i: int|
                0 <= i < e.interfaces@.len() && #[trigger] e.interfaces@[i]@ == target@,
    {
        let n = e.interfaces.len();
        let mut j: usize = 0;
        while j < n
            invariant
                j <= n,
                n == e.interfaces@.len(),
                forall|k: int| 0 <= k < j ==> #[trigger] e.interfaces@[k]@ != target@,
            decreases n - j,
        {
            if e.interfaces[j].eq(target) {
                return true;
            }
            j += 1;
        }
        false
    }

    /// Scan the managed-object table in its given order and return the path of
    /// the first entry that lists the LE advertising manager interface.
    fn find_adapter(objects: &Vec<ObjectEntry>) -> (r: Result<String, Error>)
        ensures
            match r {
                Ok(p) => exists|i: int|
                    #[trigger] is_first_match(objects@, i) && p@ == objects@[i].path@,
                Err(e) => {
                    &&& e == Error::NotFound
                    &&& forall|i: int|
                        0 <= i < objects@.len() ==> !(#[trigger] entry_matches(objects@[i]))
                },
            },
    {
        let target = le_advertising_manager_iface().to_owned();
        let n = objects.len();
        let mut i: usize = 0;
        while i < n
            invariant
                i <= n,
                n == objects@.len(),
                target@ == spec_le_advertising_manager_iface(),
                forall|j: int| 0 <= j < i ==> !(#[trigger] entry_matches(objects@[j])),
            decreases n - i,
        {
            if Self::entry_has_iface(&objects[i], &target) {
                proof {
                    assert(is_first_match(objects@, i as int));
                }
                return Ok(objects[i].path.clone());
            }
            i += 1;
        }
        Err(Error::NotFound)
    }

    /// Resolve the adapter's identity from a snapshot of the bus's managed
    /// objects: the first entry, in the table's order, that lists the LE
    /// advertising manager interface. When no entry qualifies the result is
    /// the catchable not-found error, never an empty identity.
    pub fn new(objects: &Vec<ObjectEntry>) -> (r: Result<Adapter, Error>)
        ensures
            discovery_post(objects@, r),
    {
        match Self::find_adapter(objects) {
            Ok(p) => Ok(Adapter { object_path: p }),
            Err(e) => Err(e),
        }
    }

    /// The request that sets the adapter's `Powered` property to `on`. Issuing
    /// it succeeds once the write call completes, whether or not the hardware
    /// transition has finished; the request depends on nothing but this
    /// adapter's identity and `on`.
    pub fn powered_on(&self, on: bool) -> (r: PropertyWrite)
        ensures
            is_powered_write(r, self.object_path@, on),
    {
        PropertyWrite {
            service: bluez_service_name().to_owned(),
            object_path: self.object_path.clone(),
            interface: adapter_iface().to_owned(),
            property: powered_property().to_owned(),
            value: on,
            timeout_ms: PROPERTY_TIMEOUT_MS,
        }
    }

    /// Begin awaiting the adapter's `Powered` property reading back `true`:
    /// the returned machine starts in its polling state, against this
    /// adapter's identity.
    pub fn is_powered_on(&self) -> (r: PoweredPoll)
        ensures
            r.object_path@ == self.object_path@,
            r.state is Polling,
    {
        PoweredPoll { object_path: self.object_path.clone(), state: PollState::Polling }
    }
}

/// Discovery determinism: a table whose only matching entry stands at `k`
/// makes discovery return exactly that entry's identity, whatever the table's
/// other contents.
pub proof fn lemma_discovery_determinism(
    table: Seq<ObjectEntry>,
    k: int,
    r: Result<Adapter, Error>,
)
    requires
        discovery_post(table, r),
        0 <= k < table.len(),
        entry_matches(table[k]),
        forall|j: int| 0 <= j < table.len() && j != k ==> !(#[trigger] entry_matches(table[j])),
    ensures
        r matches Ok(a) && a.object_path@ == table[k].path@,
{
    match r {
        Ok(a) => {
            let i = choose|i: int|
                #[trigger] is_first_match(table, i) && a.object_path@ == table[i].path@;
            assert(i == k);
        },
        Err(e) => {
            assert(!entry_matches(table[k]));
        },
    }
}

/// Discovery failure: a table in which no entry lists the LE advertising
/// manager interface makes discovery yield the not-found error — not a panic
/// and not a default or empty identity.
pub proof fn lemma_discovery_failure(table: Seq<ObjectEntry>, r: Result<Adapter, Error>)
    requires
        discovery_post(table, r),
        forall|i: int| 0 <= i < table.len() ==> !(#[trigger] entry_matches(table[i])),
    ensures
        r == Err::<Adapter, Error>(Error::NotFound),
{
    match r {
        Ok(a) => {
            let i = choose|i: int|
                #[trigger] is_first_match(table, i) && a.object_path@ == table[i].path@;
            assert(entry_matches(table[i]));
        },
        Err(e) => {},
    }
}

/// Write independence: the requests produced by setting power on and then off
/// are two property writes, each fully determined by the adapter's identity
/// and the requested value alone. They agree on everything but the written
/// value, and neither is, or depends on, a read.
pub proof fn lemma_write_independence(
    path: Seq<char>,
    first: PropertyWrite,
    second: PropertyWrite,
)
    requires
        is_powered_write(first, path, true),
        is_powered_write(second, path, false),
    ensures
        first.value == true,
        second.value == false,
        first.object_path@ == path,
        second.object_path@ == path,
        first.service@ == second.service@,
        first.interface@ == second.interface@,
        first.property@ == second.property@,
        first.timeout_ms == second.timeout_ms,
{
}

} // verus!
