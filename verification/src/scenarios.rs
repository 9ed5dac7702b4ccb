//! The scenario library: named constants and the composite builders that
//! assemble recognizable sub-trees reused across scenarios.
//!
//! Each composite builder constructs its sub-entities in a fixed order
//! (service before characteristics before descriptors, named
//! characteristics before unnamed ones), because scenario variants
//! selectively omit trailing steps to produce "missing X" fixtures.

use vstd::prelude::*;
use vstd::string::StringExecFns;

use crate::FixtureError;
use crate::entities::{
    CharacteristicModel, Device, DeviceModel, ServiceModel, characteristics_id_seq,
    display_name_bytes, service_id_seq, valid_address,
};
use crate::ids::{distinct_ids, lemma_issued_ids_distinct};
use crate::factory::{
    built_characteristic, built_descriptor, create_characteristic,
    create_characteristic_with_value, create_descriptor_with_value, create_device_with_uuids,
    create_service, display_name_value,
};
use crate::ids::IdCache;

verus! {

broadcast use Seq::lemma_push_map_commute;

// Characteristic access flags
pub const READ_FLAG: &'static str = "read";
pub const WRITE_FLAG: &'static str = "write";

// Adapter names
pub const NOT_PRESENT_ADAPTER: &'static str = "NotPresentAdapter";
pub const NOT_POWERED_ADAPTER: &'static str = "NotPoweredAdapter";
pub const EMPTY_ADAPTER: &'static str = "EmptyAdapter";
pub const GLUCOSE_HEART_RATE_ADAPTER: &'static str = "GlucoseHeartRateAdapter";
pub const UNICODE_DEVICE_ADAPTER: &'static str = "UnicodeDeviceAdapter";
pub const MISSING_SERVICE_HEART_RATE_ADAPTER: &'static str = "MissingServiceHeartRateAdapter";
pub const MISSING_CHARACTERISTIC_HEART_RATE_ADAPTER: &'static str =
    "MissingCharacteristicHeartRateAdapter";
pub const MISSING_DESCRIPTOR_HEART_RATE_ADAPTER: &'static str =
    "MissingDescriptorHeartRateAdapter";
pub const HEART_RATE_ADAPTER: &'static str = "HeartRateAdapter";
pub const EMPTY_NAME_HEART_RATE_ADAPTER: &'static str = "EmptyNameHeartRateAdapter";
pub const NO_NAME_HEART_RATE_ADAPTER: &'static str = "NoNameHeartRateAdapter";
pub const TWO_HEART_RATE_SERVICES_ADAPTER: &'static str = "TwoHeartRateServicesAdapter";
pub const BLACKLIST_TEST_ADAPTER: &'static str = "BlacklistTestAdapter";

// Device names
pub const CONNECTABLE_DEVICE_NAME: &'static str = "Connectable Device";
pub const EMPTY_DEVICE_NAME: &'static str = "";
pub const GLUCOSE_DEVICE_NAME: &'static str = "Glucose Device";
pub const HEART_RATE_DEVICE_NAME: &'static str = "Heart Rate Device";
pub const UNICODE_DEVICE_NAME: &'static str = "\u{2764}\u{2764}\u{2764}\u{2764}\u{2764}\u{2764}\u{2764}\u{2764}\u{2764}";

// Device addresses
pub const CONNECTABLE_DEVICE_ADDRESS: &'static str = "00:00:00:00:00:04";
pub const GLUCOSE_DEVICE_ADDRESS: &'static str = "00:00:00:00:00:01";
pub const HEART_RATE_DEVICE_ADDRESS: &'static str = "00:00:00:00:00:03";
pub const UNICODE_DEVICE_ADDRESS: &'static str = "00:00:00:00:00:02";

// Service UUIDs
pub const BLACKLIST_TEST_SERVICE_UUID: &'static str = "611c954a-263b-4f4a-aab6-01ddb953f985";
pub const DEVICE_INFORMATION_UUID: &'static str = "0000180a-0000-1000-8000-00805f9b34fb";
pub const GENERIC_ACCESS_SERVICE_UUID: &'static str = "00001800-0000-1000-8000-00805f9b34fb";
pub const GLUCOSE_SERVICE_UUID: &'static str = "00001808-0000-1000-8000-00805f9b34fb";
pub const HEART_RATE_SERVICE_UUID: &'static str = "0000180d-0000-1000-8000-00805f9b34fb";
pub const HUMAN_INTERFACE_DEVICE_SERVICE_UUID: &'static str =
    "00001812-0000-1000-8000-00805f9b34fb";
pub const TX_POWER_SERVICE_UUID: &'static str = "00001804-0000-1000-8000-00805f9b34fb";

// Characteristic UUIDs
pub const BLACKLIST_EXCLUDE_READS_CHARACTERISTIC_UUID: &'static str =
    "bad1c9a2-9a5b-4015-8b60-1579bbbf2135";
pub const BODY_SENSOR_LOCATION_CHARACTERISTIC_UUID: &'static str =
    "00002a38-0000-1000-8000-00805f9b34fb";
pub const DEVICE_NAME_CHARACTERISTIC_UUID: &'static str =
    "00002a00-0000-1000-8000-00805f9b34fb";
pub const HEART_RATE_MEASUREMENT_CHARACTERISTIC_UUID: &'static str =
    "00002a37-0000-1000-8000-00805f9b34fb";
pub const PERIPHERAL_PRIVACY_FLAG_CHARACTERISTIC_UUID: &'static str =
    "00002a02-0000-1000-8000-00805f9b34fb";
pub const SERIAL_NUMBER_STRING_UUID: &'static str = "00002a25-0000-1000-8000-00805f9b34fb";

// Descriptor UUIDs
pub const BLACKLIST_EXCLUDE_READS_DESCRIPTOR_UUID: &'static str =
    "aaaaaaaa-aaaa-1181-0510-810819516110";
pub const BLACKLIST_DESCRIPTOR_UUID: &'static str = "07711111-6104-0970-7011-1107105110aaa";
pub const CHARACTERISTIC_USER_DESCRIPTION_UUID: &'static str =
    "00002901-0000-1000-8000-00805f9b34fb";
pub const CLIENT_CHARACTERISTIC_CONFIGURATION_UUID: &'static str =
    "00002902-0000-1000-8000-00805f9b34fb";
pub const NUMBER_OF_DIGITALS_UUID: &'static str = "00002909-0000-1000-8000-00805f9b34fb";

/// Every device address used by the fixture set is well-formed.
pub proof fn lemma_fixture_addresses_valid()
    ensures
        valid_address(CONNECTABLE_DEVICE_ADDRESS@),
        valid_address(GLUCOSE_DEVICE_ADDRESS@),
        valid_address(HEART_RATE_DEVICE_ADDRESS@),
        valid_address(UNICODE_DEVICE_ADDRESS@),
{
    reveal_strlit("00:00:00:00:00:04");
    reveal_strlit("00:00:00:00:00:01");
    reveal_strlit("00:00:00:00:00:03");
    reveal_strlit("00:00:00:00:00:02");
}

/// The read and write access flags, as their views.
pub open spec fn read_write_flag_views() -> Seq<Seq<char>> {
    seq![READ_FLAG@, WRITE_FLAG@]
}

/// Builds the `[read, write]` flag list handed to `set_flags`.
pub fn read_write_flags() -> (v: Vec<String>)
    ensures
        crate::entities::string_seq_view(v@) == read_write_flag_views(),
{
    let v = vec![String::from_str(READ_FLAG), String::from_str(WRITE_FLAG)];
    proof {
        assert(crate::entities::string_seq_view(v@) =~= read_write_flag_views());
    }
    v
}

/// The heart-rate service sub-tree: one service carrying a measurement
/// characteristic with a one-byte value and two body-sensor-location
/// characteristics sharing one UUID but holding the distinct values `1`
/// and `2` (a deliberate duplicate-UUID edge case).  `ids` are the four
/// identifiers drawn, in order of construction.
pub open spec fn heart_rate_service_model(ids: Seq<u128>) -> ServiceModel {
    ServiceModel {
        id: ids[0],
        uuid: HEART_RATE_SERVICE_UUID@,
        characteristics: seq![
            built_characteristic(
                ids[1],
                HEART_RATE_MEASUREMENT_CHARACTERISTIC_UUID@,
                Some(seq![3u8]),
            ),
            built_characteristic(
                ids[2],
                BODY_SENSOR_LOCATION_CHARACTERISTIC_UUID@,
                Some(seq![1u8]),
            ),
            built_characteristic(
                ids[3],
                BODY_SENSOR_LOCATION_CHARACTERISTIC_UUID@,
                Some(seq![2u8]),
            ),
        ],
    }
}

/// Builds the heart-rate service under `device`, drawing four fresh
/// identifiers.
pub fn create_heart_rate_service(device: &mut Device, cache: &mut IdCache) -> (r: Result<
    (),
    FixtureError,
>)
    requires
        old(cache).wf(),
    ensures
        final(cache).wf(),
        r is Ok,
        old(cache)@.is_prefix_of(final(cache)@),
        final(cache)@.len() == old(cache)@.len() + 4,
        final(device)@ == (DeviceModel {
            services: old(device)@.services.push(
                heart_rate_service_model(final(cache)@.skip(old(cache)@.len() as int)),
            ),
            ..old(device)@
        }),
{
    let ghost c0 = cache@;
    // Heart Rate Service
    let mut heart_rate_service = match create_service(
        cache,
        String::from_str(HEART_RATE_SERVICE_UUID),
    ) {
        Ok(s) => s,
        Err(e) => {
            return Err(e);
        },
    };

    // Heart Rate Measurement Characteristic
    let heart_rate_measurement_characteristic = match create_characteristic_with_value(
        cache,
        String::from_str(HEART_RATE_MEASUREMENT_CHARACTERISTIC_UUID),
        vec![3u8],
    ) {
        Ok(c) => c,
        Err(e) => {
            return Err(e);
        },
    };
    heart_rate_service.characteristics.push(heart_rate_measurement_characteristic);

    // Body Sensor Location Characteristic 1
    let body_sensor_location_characteristic_1 = match create_characteristic_with_value(
        cache,
        String::from_str(BODY_SENSOR_LOCATION_CHARACTERISTIC_UUID),
        vec![1u8],
    ) {
        Ok(c) => c,
        Err(e) => {
            return Err(e);
        },
    };
    heart_rate_service.characteristics.push(body_sensor_location_characteristic_1);

    // Body Sensor Location Characteristic 2
    let body_sensor_location_characteristic_2 = match create_characteristic_with_value(
        cache,
        String::from_str(BODY_SENSOR_LOCATION_CHARACTERISTIC_UUID),
        vec![2u8],
    ) {
        Ok(c) => c,
        Err(e) => {
            return Err(e);
        },
    };
    heart_rate_service.characteristics.push(body_sensor_location_characteristic_2);

    proof {
        let drawn = cache@.skip(c0.len() as int);
        assert(drawn =~= seq![
            heart_rate_service.id,
            drawn[1],
            drawn[2],
            drawn[3],
        ]);
        assert(heart_rate_service@.characteristics =~~= seq![
            built_characteristic(
                drawn[1],
                HEART_RATE_MEASUREMENT_CHARACTERISTIC_UUID@,
                Some(seq![3u8]),
            ),
            built_characteristic(
                drawn[2],
                BODY_SENSOR_LOCATION_CHARACTERISTIC_UUID@,
                Some(seq![1u8]),
            ),
            built_characteristic(
                drawn[3],
                BODY_SENSOR_LOCATION_CHARACTERISTIC_UUID@,
                Some(seq![2u8]),
            ),
        ]);
        assert(heart_rate_service@ =~~= heart_rate_service_model(drawn));
    }
    device.services.push(heart_rate_service);
    proof {
        assert(device@ =~~= (DeviceModel {
            services: old(device)@.services.push(
                heart_rate_service_model(cache@.skip(old(cache)@.len() as int)),
            ),
            ..old(device)@
        }));
    }
    Ok(())
}

/// The generic-access service sub-tree: a device-name characteristic whose
/// value is the owning device's display name bytes, with read and write
/// flags and three fixed descriptors (number of digitals, user description,
/// client configuration), plus a peripheral-privacy-flag characteristic
/// with read and write flags and no value.  `ids` are the six identifiers
/// drawn, in order of construction; `name` is the owning device's display
/// name when the service is built.
pub open spec fn generic_access_service_model(
    ids: Seq<u128>,
    name: Option<Seq<char>>,
) -> ServiceModel {
    ServiceModel {
        id: ids[0],
        uuid: GENERIC_ACCESS_SERVICE_UUID@,
        characteristics: seq![
            (CharacteristicModel {
                id: ids[1],
                uuid: DEVICE_NAME_CHARACTERISTIC_UUID@,
                value: Some(display_name_bytes(name)),
                flags: read_write_flag_views(),
                descriptors: seq![
                    built_descriptor(ids[2], NUMBER_OF_DIGITALS_UUID@, Some(seq![49u8, 49u8])),
                    built_descriptor(
                        ids[3],
                        CHARACTERISTIC_USER_DESCRIPTION_UUID@,
                        Some(seq![22u8, 33u8, 44u8, 55u8]),
                    ),
                    built_descriptor(
                        ids[4],
                        CLIENT_CHARACTERISTIC_CONFIGURATION_UUID@,
                        Some(seq![0u8, 0u8]),
                    ),
                ],
            }),
            (CharacteristicModel {
                id: ids[5],
                uuid: PERIPHERAL_PRIVACY_FLAG_CHARACTERISTIC_UUID@,
                value: None,
                flags: read_write_flag_views(),
                descriptors: Seq::empty(),
            }),
        ],
    }
}

/// Builds the generic-access service under `device`, drawing six fresh
/// identifiers.  The device-name characteristic takes its value from the
/// device's display name at the time of construction.
pub fn create_generic_access_service(device: &mut Device, cache: &mut IdCache) -> (r: Result<
    (),
    FixtureError,
>)
    requires
        old(cache).wf(),
    ensures
        final(cache).wf(),
        r is Ok,
        old(cache)@.is_prefix_of(final(cache)@),
        final(cache)@.len() == old(cache)@.len() + 6,
        final(device)@ == (DeviceModel {
            services: old(device)@.services.push(
                generic_access_service_model(
                    final(cache)@.skip(old(cache)@.len() as int),
                    old(device)@.name,
                ),
            ),
            ..old(device)@
        }),
{
    let ghost c0 = cache@;
    let name_value = display_name_value(&device.name);

    let mut generic_access_service = match create_service(
        cache,
        String::from_str(GENERIC_ACCESS_SERVICE_UUID),
    ) {
        Ok(s) => s,
        Err(e) => {
            return Err(e);
        },
    };

    // Device Name Characteristic
    let mut device_name_characteristic = match create_characteristic_with_value(
        cache,
        String::from_str(DEVICE_NAME_CHARACTERISTIC_UUID),
        name_value,
    ) {
        Ok(c) => c,
        Err(e) => {
            return Err(e);
        },
    };
    match device_name_characteristic.set_flags(read_write_flags()) {
        Ok(()) => (),
        Err(e) => {
            return Err(e);
        },
    }

    // Number of Digitals descriptor
    let number_of_digitals_descriptor = match create_descriptor_with_value(
        cache,
        String::from_str(NUMBER_OF_DIGITALS_UUID),
        vec![49u8, 49u8],
    ) {
        Ok(d) => d,
        Err(e) => {
            return Err(e);
        },
    };
    device_name_characteristic.descriptors.push(number_of_digitals_descriptor);

    // Characteristic User Description Descriptor
    let characteristic_user_description = match create_descriptor_with_value(
        cache,
        String::from_str(CHARACTERISTIC_USER_DESCRIPTION_UUID),
        vec![22u8, 33u8, 44u8, 55u8],
    ) {
        Ok(d) => d,
        Err(e) => {
            return Err(e);
        },
    };
    device_name_characteristic.descriptors.push(characteristic_user_description);

    // Client Characteristic Configuration descriptor
    let client_characteristic_configuration = match create_descriptor_with_value(
        cache,
        String::from_str(CLIENT_CHARACTERISTIC_CONFIGURATION_UUID),
        vec![0u8, 0u8],
    ) {
        Ok(d) => d,
        Err(e) => {
            return Err(e);
        },
    };
    device_name_characteristic.descriptors.push(client_characteristic_configuration);
    generic_access_service.characteristics.push(device_name_characteristic);

    // Peripheral Privacy Flag Characteristic
    let mut peripheral_privacy_flag_characteristic = match create_characteristic(
        cache,
        String::from_str(PERIPHERAL_PRIVACY_FLAG_CHARACTERISTIC_UUID),
    ) {
        Ok(c) => c,
        Err(e) => {
            return Err(e);
        },
    };
    match peripheral_privacy_flag_characteristic.set_flags(read_write_flags()) {
        Ok(()) => (),
        Err(e) => {
            return Err(e);
        },
    }
    generic_access_service.characteristics.push(peripheral_privacy_flag_characteristic);

    proof {
        let drawn = cache@.skip(c0.len() as int);
        let model = generic_access_service_model(drawn, old(device)@.name);
        assert(drawn =~= seq![drawn[0], drawn[1], drawn[2], drawn[3], drawn[4], drawn[5]]);
        assert(generic_access_service@.characteristics =~~= model.characteristics);
        assert(generic_access_service@ =~~= model);
    }
    device.services.push(generic_access_service);
    proof {
        assert(device@ =~~= (DeviceModel {
            services: old(device)@.services.push(
                generic_access_service_model(
                    cache@.skip(old(cache)@.len() as int),
                    old(device)@.name,
                ),
            ),
            ..old(device)@
        }));
    }
    Ok(())
}

/// The full heart-rate device: it advertises the generic-access and
/// heart-rate UUIDs and owns both composite services.  `ids` are the eleven
/// identifiers drawn, in order of construction: the device, then the six of
/// the generic-access sub-tree, then the four of the heart-rate sub-tree.
pub open spec fn heart_rate_device_model(ids: Seq<u128>) -> DeviceModel {
    DeviceModel {
        id: ids[0],
        name: Some(HEART_RATE_DEVICE_NAME@),
        address: HEART_RATE_DEVICE_ADDRESS@,
        connectable: true,
        uuids: seq![GENERIC_ACCESS_SERVICE_UUID@, HEART_RATE_SERVICE_UUID@],
        services: seq![
            generic_access_service_model(ids.subrange(1, 7), Some(HEART_RATE_DEVICE_NAME@)),
            heart_rate_service_model(ids.subrange(7, 11)),
        ],
    }
}

/// Builds the full heart-rate device, drawing eleven fresh identifiers.
/// The caller attaches the device to the adapter.
pub fn create_heart_rate_device(cache: &mut IdCache) -> (r: Result<Device, FixtureError>)
    requires
        old(cache).wf(),
    ensures
        final(cache).wf(),
        r is Ok,
        old(cache)@.is_prefix_of(final(cache)@),
        final(cache)@.len() == old(cache)@.len() + 11,
        r matches Ok(d) ==> d@ == heart_rate_device_model(
            final(cache)@.skip(old(cache)@.len() as int),
        ),
{
    let ghost c0 = cache@;
    // Heart Rate Device
    let mut heart_rate_device = match create_device_with_uuids(
        cache,
        String::from_str(HEART_RATE_DEVICE_NAME),
        String::from_str(HEART_RATE_DEVICE_ADDRESS),
        vec![
            String::from_str(GENERIC_ACCESS_SERVICE_UUID),
            String::from_str(HEART_RATE_SERVICE_UUID),
        ],
    ) {
        Ok(d) => d,
        Err(e) => {
            proof {
                lemma_fixture_addresses_valid();
            }
            return Err(e);
        },
    };

    let ghost c1 = cache@;

    // Generic Access Service
    match create_generic_access_service(&mut heart_rate_device, cache) {
        Ok(()) => (),
        Err(e) => {
            return Err(e);
        },
    }
    let ghost c2 = cache@;

    // Heart Rate Service
    match create_heart_rate_service(&mut heart_rate_device, cache) {
        Ok(()) => (),
        Err(e) => {
            return Err(e);
        },
    }

    proof {
        let drawn = cache@.skip(c0.len() as int);
        assert(c2 =~= cache@.subrange(0, c2.len() as int));
        assert(c1 =~= c2.subrange(0, c1.len() as int));
        assert(drawn.subrange(1, 7) =~= c2.skip(c1.len() as int));
        assert(drawn.subrange(7, 11) =~= cache@.skip(c2.len() as int));
        let m = heart_rate_device_model(drawn);
        assert(drawn[0] == cache@[c0.len() as int]);
        assert(cache@[c0.len() as int] == c2[c0.len() as int]);
        assert(c2[c0.len() as int] == c1[c0.len() as int]);
        assert(heart_rate_device@.id == m.id);
        assert(heart_rate_device@.name == m.name);
        assert(heart_rate_device@.address == m.address);
        assert(heart_rate_device@.connectable == m.connectable);
        assert(heart_rate_device@.uuids =~~= m.uuids);
        assert(heart_rate_device@.services =~~= m.services);
        assert(heart_rate_device@ =~~= heart_rate_device_model(drawn));
    }
    Ok(heart_rate_device)
}


/// The generic-access sub-tree holds exactly the six identifiers drawn for
/// it, in order of construction.
pub proof fn lemma_generic_access_service_ids(ids: Seq<u128>, name: Option<Seq<char>>)
    requires
        ids.len() == 6,
    ensures
        service_id_seq(generic_access_service_model(ids, name)) =~= ids,
{
    let s = generic_access_service_model(ids, name);
    reveal_with_fuel(characteristics_id_seq, 4);
    assert(s.characteristics.drop_first() =~= seq![s.characteristics[1]]);
    assert(seq![s.characteristics[1]].drop_first() =~= Seq::<CharacteristicModel>::empty());
    assert(service_id_seq(s) =~= ids);
}

/// Round trip: constructing the generic-access composite twice, under two
/// different devices, yields two independent sub-trees sharing no
/// identifiers, provided the two draws of the identifier cache are
/// disjoint, which [`crate::ids::lemma_application_ids_distinct`]
/// guarantees for any two applications against one cache.
pub proof fn lemma_generic_access_round_trip(
    first_ids: Seq<u128>,
    second_ids: Seq<u128>,
    first_name: Option<Seq<char>>,
    second_name: Option<Seq<char>>,
)
    requires
        first_ids.len() == 6,
        second_ids.len() == 6,
        distinct_ids(first_ids + second_ids),
    ensures
        forall|x: u128|
            service_id_seq(generic_access_service_model(first_ids, first_name)).contains(x)
                ==> !service_id_seq(
                generic_access_service_model(second_ids, second_name),
            ).contains(x),
{
    lemma_generic_access_service_ids(first_ids, first_name);
    lemma_generic_access_service_ids(second_ids, second_name);
    lemma_issued_ids_distinct(first_ids, second_ids);
    let s1 = service_id_seq(generic_access_service_model(first_ids, first_name));
    let s2 = service_id_seq(generic_access_service_model(second_ids, second_name));
    assert forall|x: u128| s1.contains(x) implies !s2.contains(x) by {
        let i = choose|i: int| 0 <= i < s1.len() && s1[i] == x;
        if s2.contains(x) {
            let j = choose|j: int| 0 <= j < s2.len() && s2[j] == x;
            assert(first_ids[i] == second_ids[j]);
        }
    }
}

} // verus!
