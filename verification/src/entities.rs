//! The synthesized entity hierarchy: adapter, devices, GATT services,
//! characteristics and descriptors, together with the mathematical models
//! that the contracts speak of.
//!
//! Every entity is a plain in-memory record.  An entity belongs to exactly
//! one owner: descriptors sit inside their characteristic, characteristics
//! inside their service, services inside their device, and devices inside
//! the adapter.  Entity identifiers come from an
//! [`IdCache`](crate::ids::IdCache) and are unique across the whole tree.

use vstd::prelude::*;
use vstd::string::StrSliceExecFns;

verus! {

// ---------------------------------------------------------------------------
// Mathematical models
// ---------------------------------------------------------------------------

/// Model of a GATT descriptor.
#[verifier::ext_equal]
pub ghost struct DescriptorModel {
    pub id: u128,
    pub uuid: Seq<char>,
    pub value: Option<Seq<u8>>,
}

/// Model of a GATT characteristic.
#[verifier::ext_equal]
pub ghost struct CharacteristicModel {
    pub id: u128,
    pub uuid: Seq<char>,
    pub value: Option<Seq<u8>>,
    pub flags: Seq<Seq<char>>,
    pub descriptors: Seq<DescriptorModel>,
}

/// Model of a GATT service.
#[verifier::ext_equal]
pub ghost struct ServiceModel {
    pub id: u128,
    pub uuid: Seq<char>,
    pub characteristics: Seq<CharacteristicModel>,
}

/// Model of a device.  A device with `name == Some(Seq::empty())` (a
/// present-but-empty display name) is distinct from one with `name == None`
/// (an absent display name); both are valid, differently-testable states.
#[verifier::ext_equal]
pub ghost struct DeviceModel {
    pub id: u128,
    pub name: Option<Seq<char>>,
    pub address: Seq<char>,
    pub connectable: bool,
    pub uuids: Seq<Seq<char>>,
    pub services: Seq<ServiceModel>,
}

/// Model of the adapter.
#[verifier::ext_equal]
pub ghost struct AdapterModel {
    pub name: Seq<char>,
    pub powered: bool,
    pub discoverable: bool,
    pub present: bool,
    pub devices: Seq<DeviceModel>,
}

/// The views of a sequence of strings.
pub open spec fn string_seq_view(v: Seq<String>) -> Seq<Seq<char>> {
    v.map_values(|s: String| s@)
}

/// The view of an optional string.
pub open spec fn name_view(n: Option<String>) -> Option<Seq<char>> {
    match n {
        Some(s) => Some(s@),
        None => None,
    }
}

/// A display name character reduced to a single byte.  Names in the fixture
/// set are ASCII, where this is exactly the character's byte.
pub open spec fn char_byte(c: char) -> u8 {
    (((c as u32) % 256) as u8)
}

/// The byte value a device's display name contributes to its device-name
/// characteristic: one byte per character, empty when the name is absent.
pub open spec fn display_name_bytes(name: Option<Seq<char>>) -> Seq<u8> {
    match name {
        Some(s) => s.map_values(|c: char| char_byte(c)),
        None => Seq::empty(),
    }
}

// ---------------------------------------------------------------------------
// Executable entities
// ---------------------------------------------------------------------------

/// A GATT descriptor: identifier, UUID and an optional byte value.
pub struct Descriptor {
    pub id: u128,
    pub uuid: String,
    pub value: Option<Vec<u8>>,
}

impl View for Descriptor {
    type V = DescriptorModel;

    open spec fn view(&self) -> DescriptorModel {
        DescriptorModel {
            id: self.id,
            uuid: self.uuid@,
            value: match self.value {
                Some(v) => Some(v@),
                None => None,
            },
        }
    }
}

/// A GATT characteristic: identifier, UUID, optional byte value, access
/// flags and the descriptors it owns.
pub struct Characteristic {
    pub id: u128,
    pub uuid: String,
    pub value: Option<Vec<u8>>,
    pub flags: Vec<String>,
    pub descriptors: Vec<Descriptor>,
}

impl View for Characteristic {
    type V = CharacteristicModel;

    open spec fn view(&self) -> CharacteristicModel {
        CharacteristicModel {
            id: self.id,
            uuid: self.uuid@,
            value: match self.value {
                Some(v) => Some(v@),
                None => None,
            },
            flags: string_seq_view(self.flags@),
            descriptors: self.descriptors@.map_values(|d: Descriptor| d@),
        }
    }
}

/// A GATT service: identifier, UUID and the characteristics it owns.
/// Service UUIDs need not be unique: duplicate UUIDs on one device are a
/// valid, deliberately-constructed edge case.
pub struct Service {
    pub id: u128,
    pub uuid: String,
    pub characteristics: Vec<Characteristic>,
}

impl View for Service {
    type V = ServiceModel;

    open spec fn view(&self) -> ServiceModel {
        ServiceModel {
            id: self.id,
            uuid: self.uuid@,
            characteristics: self.characteristics@.map_values(|c: Characteristic| c@),
        }
    }
}

/// A device: identifier, optional display name, address, connectable flag,
/// advertised service UUIDs (order preserved, duplicates allowed) and the
/// services it owns.
pub struct Device {
    pub id: u128,
    pub name: Option<String>,
    pub address: String,
    pub connectable: bool,
    pub uuids: Vec<String>,
    pub services: Vec<Service>,
}

impl View for Device {
    type V = DeviceModel;

    open spec fn view(&self) -> DeviceModel {
        DeviceModel {
            id: self.id,
            name: name_view(self.name),
            address: self.address@,
            connectable: self.connectable,
            uuids: string_seq_view(self.uuids@),
            services: self.services@.map_values(|s: Service| s@),
        }
    }
}

/// The fake adapter: a mutable record with name, powered flag,
/// discoverable flag and presence flag, plus the devices created under it.
/// The adapter itself is obtained from a [`Manager`](crate::dispatch::Manager);
/// this library only configures it and populates it.
pub struct Adapter {
    pub name: String,
    pub powered: bool,
    pub discoverable: bool,
    pub present: bool,
    pub devices: Vec<Device>,
}

impl View for Adapter {
    type V = AdapterModel;

    open spec fn view(&self) -> AdapterModel {
        AdapterModel {
            name: self.name@,
            powered: self.powered,
            discoverable: self.discoverable,
            present: self.present,
            devices: self.devices@.map_values(|d: Device| d@),
        }
    }
}

// ---------------------------------------------------------------------------
// The identifiers a sub-tree holds
// ---------------------------------------------------------------------------

/// The identifiers of a characteristic and its descriptors, in tree order.
pub open spec fn characteristic_id_seq(c: CharacteristicModel) -> Seq<u128> {
    seq![c.id] + c.descriptors.map_values(|d: DescriptorModel| d.id)
}

/// The identifiers of every characteristic in `cs`, with their descriptors.
pub open spec fn characteristics_id_seq(cs: Seq<CharacteristicModel>) -> Seq<u128>
    decreases cs.len(),
{
    if cs.len() == 0 {
        Seq::<u128>::empty()
    } else {
        characteristic_id_seq(cs[0]) + characteristics_id_seq(cs.drop_first())
    }
}

/// The identifiers a service sub-tree holds: its own and those of all its
/// characteristics and descriptors.
pub open spec fn service_id_seq(s: ServiceModel) -> Seq<u128> {
    seq![s.id] + characteristics_id_seq(s.characteristics)
}

// ---------------------------------------------------------------------------
// Address validity
// ---------------------------------------------------------------------------

/// Whether `c` is a hexadecimal digit.
pub open spec fn is_hex_digit(c: char) -> bool {
    ||| '0' <= c && c <= '9'
    ||| 'a' <= c && c <= 'f'
    ||| 'A' <= c && c <= 'F'
}

/// A well-formed device address: six hexadecimal octets separated by
/// colons, as in `00:00:00:00:00:01`.
pub open spec fn valid_address(s: Seq<char>) -> bool {
    &&& s.len() == 17
    &&& forall|i: int|
        #![trigger s[i]]
        0 <= i < 17 ==> if i % 3 == 2 {
            s[i] == ':'
        } else {
            is_hex_digit(s[i])
        }
}

/// Runtime check matching [`valid_address`].
pub fn check_address(s: &str) -> (b: bool)
    ensures
        b == valid_address(s@),
{
    let len = s.unicode_len();
    if len != 17 {
        return false;
    }
    let mut i: usize = 0;
    while i < 17
        invariant
            0 <= i <= 17,
            s@.len() == 17,
            forall|j: int|
                #![trigger s@[j]]
                0 <= j < i ==> if j % 3 == 2 {
                    s@[j] == ':'
                } else {
                    is_hex_digit(s@[j])
                },
        decreases 17 - i,
    {
        let c = s.get_char(i);
        let ok = if i % 3 == 2 {
            c == ':'
        } else {
            ('0' <= c && c <= '9') || ('a' <= c && c <= 'f') || ('A' <= c && c <= 'F')
        };
        if !ok {
            return false;
        }
        i += 1;
    }
    true
}

// ---------------------------------------------------------------------------
// Attribute mutators
// ---------------------------------------------------------------------------

impl Adapter {
    /// A fresh, unconfigured adapter with no devices.
    pub fn new() -> (r: Adapter)
        ensures
            r@ == (AdapterModel {
                name: Seq::<char>::empty(),
                powered: false,
                discoverable: false,
                present: true,
                devices: Seq::<DeviceModel>::empty(),
            }),
    {
        let r = Adapter {
            name: String::new(),
            powered: false,
            discoverable: false,
            present: true,
            devices: Vec::new(),
        };
        proof {
            assert(r@ =~= AdapterModel {
                name: Seq::<char>::empty(),
                powered: false,
                discoverable: false,
                present: true,
                devices: Seq::<DeviceModel>::empty(),
            });
        }
        r
    }

    /// Sets the adapter's display name.
    pub fn set_name(&mut self, name: String) -> (r: Result<(), crate::FixtureError>)
        ensures
            r is Ok,
            *final(self) == (Adapter { name, ..*old(self) }),
    {
        self.name = name;
        Ok(())
    }

    /// Sets the powered flag.
    pub fn set_powered(&mut self, powered: bool) -> (r: Result<(), crate::FixtureError>)
        ensures
            r is Ok,
            *final(self) == (Adapter { powered, ..*old(self) }),
    {
        self.powered = powered;
        Ok(())
    }

    /// Sets the discoverable flag.
    pub fn set_discoverable(&mut self, discoverable: bool) -> (r: Result<
        (),
        crate::FixtureError,
    >)
        ensures
            r is Ok,
            *final(self) == (Adapter { discoverable, ..*old(self) }),
    {
        self.discoverable = discoverable;
        Ok(())
    }

    /// Sets the presence flag.
    pub fn set_present(&mut self, present: bool) -> (r: Result<(), crate::FixtureError>)
        ensures
            r is Ok,
            *final(self) == (Adapter { present, ..*old(self) }),
    {
        self.present = present;
        Ok(())
    }
}

impl Device {
    /// Sets or clears the device's display name.
    pub fn set_name(&mut self, name: Option<String>) -> (r: Result<(), crate::FixtureError>)
        ensures
            r is Ok,
            *final(self) == (Device { name, ..*old(self) }),
    {
        self.name = name;
        Ok(())
    }

    /// Sets the device's address.  A malformed address is rejected with
    /// [`AttributeError`](crate::FixtureError::AttributeError) and leaves
    /// the device unchanged.
    pub fn set_address(&mut self, address: String) -> (r: Result<(), crate::FixtureError>)
        ensures
            valid_address(address@) ==> r is Ok && *final(self) == (Device {
                address,
                ..*old(self)
            }),
            !valid_address(address@) ==> r == Err::<(), _>(crate::FixtureError::AttributeError)
                && *final(self) == *old(self),
    {
        if check_address(address.as_str()) {
            self.address = address;
            Ok(())
        } else {
            Err(crate::FixtureError::AttributeError)
        }
    }

    /// Sets the connectable flag.
    pub fn set_connectable(&mut self, connectable: bool) -> (r: Result<(), crate::FixtureError>)
        ensures
            r is Ok,
            *final(self) == (Device { connectable, ..*old(self) }),
    {
        self.connectable = connectable;
        Ok(())
    }

    /// Replaces the advertised service UUID list.  Order is preserved and
    /// duplicates are allowed.
    pub fn set_uuids(&mut self, uuids: Vec<String>) -> (r: Result<(), crate::FixtureError>)
        ensures
            r is Ok,
            *final(self) == (Device { uuids, ..*old(self) }),
    {
        self.uuids = uuids;
        Ok(())
    }
}

impl Service {
    /// Sets the service's UUID.
    pub fn set_uuid(&mut self, uuid: String) -> (r: Result<(), crate::FixtureError>)
        ensures
            r is Ok,
            *final(self) == (Service { uuid, ..*old(self) }),
    {
        self.uuid = uuid;
        Ok(())
    }
}

impl Characteristic {
    /// Sets the characteristic's UUID.
    pub fn set_uuid(&mut self, uuid: String) -> (r: Result<(), crate::FixtureError>)
        ensures
            r is Ok,
            *final(self) == (Characteristic { uuid, ..*old(self) }),
    {
        self.uuid = uuid;
        Ok(())
    }

    /// Sets the characteristic's byte value.
    pub fn set_value(&mut self, value: Vec<u8>) -> (r: Result<(), crate::FixtureError>)
        ensures
            r is Ok,
            *final(self) == (Characteristic { value: Some(value), ..*old(self) }),
    {
        self.value = Some(value);
        Ok(())
    }

    /// Sets the characteristic's access flags.  This is a distinct, later
    /// step, not bundled into construction: a characteristic can exist
    /// without flags before flags are applied.
    pub fn set_flags(&mut self, flags: Vec<String>) -> (r: Result<(), crate::FixtureError>)
        ensures
            r is Ok,
            *final(self) == (Characteristic { flags, ..*old(self) }),
    {
        self.flags = flags;
        Ok(())
    }
}

impl Descriptor {
    /// Sets the descriptor's UUID.
    pub fn set_uuid(&mut self, uuid: String) -> (r: Result<(), crate::FixtureError>)
        ensures
            r is Ok,
            *final(self) == (Descriptor { uuid, ..*old(self) }),
    {
        self.uuid = uuid;
        Ok(())
    }

    /// Sets the descriptor's byte value.
    pub fn set_value(&mut self, value: Vec<u8>) -> (r: Result<(), crate::FixtureError>)
        ensures
            r is Ok,
            *final(self) == (Descriptor { value: Some(value), ..*old(self) }),
    {
        self.value = Some(value);
        Ok(())
    }
}

} // verus!
