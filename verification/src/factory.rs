//! Entity construction: one builder per entity kind.
//!
//! Each builder allocates a fresh identifier from the cache, creates the
//! entity and applies the caller-supplied attributes through the fallible
//! attribute mutators.  Construction halts at the first failure: the partly
//! configured entity is dropped, but the identifier it consumed stays in
//! the cache (no rollback is performed).

use vstd::prelude::*;

use crate::FixtureError;
use crate::entities::{
    Characteristic, CharacteristicModel, Descriptor, DescriptorModel, Device, DeviceModel,
    Service, ServiceModel, display_name_bytes, name_view, string_seq_view, valid_address,
};
use crate::ids::IdCache;

verus! {

// ---------------------------------------------------------------------------
// Models of freshly built entities
// ---------------------------------------------------------------------------

/// A just-built device: named, addressed, connectable, not yet owning any
/// service.
pub open spec fn built_device(
    id: u128,
    name: Option<Seq<char>>,
    address: Seq<char>,
    uuids: Seq<Seq<char>>,
) -> DeviceModel {
    DeviceModel { id, name, address, connectable: true, uuids, services: Seq::empty() }
}

/// A just-built service: no characteristics yet.
pub open spec fn built_service(id: u128, uuid: Seq<char>) -> ServiceModel {
    ServiceModel { id, uuid, characteristics: Seq::empty() }
}

/// A just-built characteristic: no flags, no descriptors.
pub open spec fn built_characteristic(
    id: u128,
    uuid: Seq<char>,
    value: Option<Seq<u8>>,
) -> CharacteristicModel {
    CharacteristicModel { id, uuid, value, flags: Seq::empty(), descriptors: Seq::empty() }
}

/// A just-built descriptor.
pub open spec fn built_descriptor(
    id: u128,
    uuid: Seq<char>,
    value: Option<Seq<u8>>,
) -> DescriptorModel {
    DescriptorModel { id, uuid, value }
}

// ---------------------------------------------------------------------------
// Builders
// ---------------------------------------------------------------------------

/// Creates a device: allocates an identifier, sets the name, the address
/// and the connectable flag.  Fails with `AttributeError` exactly when the
/// address is malformed; the identifier is consumed either way.
pub fn create_device(cache: &mut IdCache, name: String, address: String) -> (r: Result<
    Device,
    FixtureError,
>)
    requires
        old(cache).wf(),
    ensures
        final(cache).wf(),
        old(cache)@.is_prefix_of(final(cache)@),
        final(cache)@.len() == old(cache)@.len() + 1,
        r is Ok <==> valid_address(address@),
        r matches Ok(d) ==> {
            &&& final(cache)@ == old(cache)@.push(d.id)
            &&& !old(cache)@.contains(d.id)
            &&& d@ == built_device(d.id, Some(name@), address@, Seq::<Seq<char>>::empty())
        },
        r matches Err(e) ==> e == FixtureError::AttributeError,
{
    let id = cache.generate_id();
    let mut device = Device {
        id,
        name: None,
        address: String::new(),
        connectable: false,
        uuids: Vec::new(),
        services: Vec::new(),
    };
    match device.set_name(Some(name)) {
        Ok(()) => (),
        Err(e) => {
            return Err(e);
        },
    }
    match device.set_address(address) {
        Ok(()) => (),
        Err(e) => {
            return Err(e);
        },
    }
    match device.set_connectable(true) {
        Ok(()) => (),
        Err(e) => {
            return Err(e);
        },
    }
    proof {
        assert(device@ =~= built_device(
            id,
            name_view(device.name),
            device.address@,
            Seq::<Seq<char>>::empty(),
        ));
    }
    Ok(device)
}

/// Creates a device as [`create_device`] does, then attaches the given
/// sequence of advertised service UUIDs (order preserved, duplicates
/// allowed).
pub fn create_device_with_uuids(
    cache: &mut IdCache,
    name: String,
    address: String,
    uuids: Vec<String>,
) -> (r: Result<Device, FixtureError>)
    requires
        old(cache).wf(),
    ensures
        final(cache).wf(),
        old(cache)@.is_prefix_of(final(cache)@),
        final(cache)@.len() == old(cache)@.len() + 1,
        r is Ok <==> valid_address(address@),
        r matches Ok(d) ==> {
            &&& final(cache)@ == old(cache)@.push(d.id)
            &&& !old(cache)@.contains(d.id)
            &&& d@ == built_device(d.id, Some(name@), address@, string_seq_view(uuids@))
        },
        r matches Err(e) ==> e == FixtureError::AttributeError,
{
    let mut device = match create_device(cache, name, address) {
        Ok(d) => d,
        Err(e) => {
            return Err(e);
        },
    };
    match device.set_uuids(uuids) {
        Ok(()) => (),
        Err(e) => {
            return Err(e);
        },
    }
    proof {
        assert(device@ =~= built_device(
            device.id,
            name_view(device.name),
            device.address@,
            string_seq_view(device.uuids@),
        ));
    }
    Ok(device)
}

/// Creates a service under no device yet: allocates an identifier and sets
/// the UUID.  The caller attaches the service to its device.
pub fn create_service(cache: &mut IdCache, uuid: String) -> (r: Result<Service, FixtureError>)
    requires
        old(cache).wf(),
    ensures
        final(cache).wf(),
        r is Ok,
        r matches Ok(s) ==> {
            &&& final(cache)@ == old(cache)@.push(s.id)
            &&& !old(cache)@.contains(s.id)
            &&& s@ == built_service(s.id, uuid@)
        },
{
    let id = cache.generate_id();
    let mut service = Service { id, uuid: String::new(), characteristics: Vec::new() };
    match service.set_uuid(uuid) {
        Ok(()) => (),
        Err(e) => {
            return Err(e);
        },
    }
    proof {
        assert(service@ =~= built_service(id, service.uuid@));
    }
    Ok(service)
}

/// Creates a characteristic with no value: allocates an identifier and
/// sets the UUID.  The caller attaches it to its service; flags are a
/// distinct, later step.
pub fn create_characteristic(cache: &mut IdCache, uuid: String) -> (r: Result<
    Characteristic,
    FixtureError,
>)
    requires
        old(cache).wf(),
    ensures
        final(cache).wf(),
        r is Ok,
        r matches Ok(c) ==> {
            &&& final(cache)@ == old(cache)@.push(c.id)
            &&& !old(cache)@.contains(c.id)
            &&& c@ == built_characteristic(c.id, uuid@, None)
        },
{
    let id = cache.generate_id();
    let mut characteristic = Characteristic {
        id,
        uuid: String::new(),
        value: None,
        flags: Vec::new(),
        descriptors: Vec::new(),
    };
    match characteristic.set_uuid(uuid) {
        Ok(()) => (),
        Err(e) => {
            return Err(e);
        },
    }
    proof {
        assert(characteristic@ =~= built_characteristic(id, characteristic.uuid@, None));
    }
    Ok(characteristic)
}

/// Creates a characteristic as [`create_characteristic`] does, then sets
/// its byte value.
pub fn create_characteristic_with_value(cache: &mut IdCache, uuid: String, value: Vec<u8>) -> (r:
    Result<Characteristic, FixtureError>)
    requires
        old(cache).wf(),
    ensures
        final(cache).wf(),
        r is Ok,
        r matches Ok(c) ==> {
            &&& final(cache)@ == old(cache)@.push(c.id)
            &&& !old(cache)@.contains(c.id)
            &&& c@ == built_characteristic(c.id, uuid@, Some(value@))
        },
{
    let mut characteristic = match create_characteristic(cache, uuid) {
        Ok(c) => c,
        Err(e) => {
            return Err(e);
        },
    };
    match characteristic.set_value(value) {
        Ok(()) => (),
        Err(e) => {
            return Err(e);
        },
    }
    proof {
        assert(characteristic@ =~= built_characteristic(
            characteristic.id,
            characteristic.uuid@,
            characteristic@.value,
        ));
    }
    Ok(characteristic)
}

/// Creates a descriptor with no value: allocates an identifier and sets
/// the UUID.  The caller attaches it to its characteristic.
pub fn create_descriptor(cache: &mut IdCache, uuid: String) -> (r: Result<
    Descriptor,
    FixtureError,
>)
    requires
        old(cache).wf(),
    ensures
        final(cache).wf(),
        r is Ok,
        r matches Ok(d) ==> {
            &&& final(cache)@ == old(cache)@.push(d.id)
            &&& !old(cache)@.contains(d.id)
            &&& d@ == built_descriptor(d.id, uuid@, None)
        },
{
    let id = cache.generate_id();
    let mut descriptor = Descriptor { id, uuid: String::new(), value: None };
    match descriptor.set_uuid(uuid) {
        Ok(()) => (),
        Err(e) => {
            return Err(e);
        },
    }
    Ok(descriptor)
}

/// Creates a descriptor as [`create_descriptor`] does, then sets its byte
/// value.
pub fn create_descriptor_with_value(cache: &mut IdCache, uuid: String, value: Vec<u8>) -> (r:
    Result<Descriptor, FixtureError>)
    requires
        old(cache).wf(),
    ensures
        final(cache).wf(),
        r is Ok,
        r matches Ok(d) ==> {
            &&& final(cache)@ == old(cache)@.push(d.id)
            &&& !old(cache)@.contains(d.id)
            &&& d@ == built_descriptor(d.id, uuid@, Some(value@))
        },
{
    let mut descriptor = match create_descriptor(cache, uuid) {
        Ok(d) => d,
        Err(e) => {
            return Err(e);
        },
    };
    match descriptor.set_value(value) {
        Ok(()) => (),
        Err(e) => {
            return Err(e);
        },
    }
    Ok(descriptor)
}

/// Computes the device-name characteristic value for a display name: one
/// byte per character, empty when the name is absent.
pub fn display_name_value(name: &Option<String>) -> (v: Vec<u8>)
    ensures
        v@ == display_name_bytes(name_view(*name)),
{
    let mut v: Vec<u8> = Vec::new();
    match name {
        None => {
            proof {
                assert(v@ =~= display_name_bytes(name_view(*name)));
            }
            v
        },
        Some(s) => {
            let len = s.as_str().unicode_len();
            let mut i: usize = 0;
            while i < len
                invariant
                    0 <= i <= len,
                    len == s@.len(),
                    v@ == s@.subrange(0, i as int).map_values(|c: char| crate::entities::char_byte(c)),
                decreases len - i,
            {
                let c = s.as_str().get_char(i);
                let n: u32 = c as u32;
                v.push((n % 256) as u8);
                proof {
                    assert(s@.subrange(0, i + 1 as int).drop_last() =~= s@.subrange(0, i as int));
                    assert(v@ =~= s@.subrange(0, i + 1 as int).map_values(
                        |c: char| crate::entities::char_byte(c),
                    ));
                }
                i += 1;
            }
            proof {
                assert(s@.subrange(0, len as int) =~= s@);
                assert(v@ =~= display_name_bytes(name_view(*name)));
            }
            v
        },
    }
}

} // verus!
