//! The scenario dispatcher: maps a scenario name to its fixture and applies
//! it against a caller-supplied adapter manager.
//!
//! The dispatcher asks the manager for an adapter, resets the adapter's
//! name, powered and discoverable attributes to scenario defaults, then
//! runs the recognized scenario's construction sequence.  An unrecognized
//! name is reported with `UnknownScenarioError`; a manager that cannot
//! supply an adapter with `NoAdapterError`.  The first failure propagates
//! immediately and nothing already created is torn down.

use vstd::prelude::*;
use vstd::string::StringExecFns;

use crate::FixtureError;
use crate::entities::{
    Adapter, AdapterModel, CharacteristicModel, DeviceModel, ServiceModel, display_name_bytes,
};
use crate::factory::{
    built_characteristic, built_descriptor, built_device, built_service, create_characteristic,
    create_characteristic_with_value, create_descriptor_with_value, create_device,
    create_device_with_uuids, create_service, display_name_value,
};
use crate::ids::IdCache;
use crate::scenarios::{
    BLACKLIST_DESCRIPTOR_UUID, BLACKLIST_EXCLUDE_READS_CHARACTERISTIC_UUID,
    BLACKLIST_EXCLUDE_READS_DESCRIPTOR_UUID, BLACKLIST_TEST_ADAPTER, BLACKLIST_TEST_SERVICE_UUID,
    BODY_SENSOR_LOCATION_CHARACTERISTIC_UUID, CONNECTABLE_DEVICE_ADDRESS,
    CONNECTABLE_DEVICE_NAME, DEVICE_INFORMATION_UUID, DEVICE_NAME_CHARACTERISTIC_UUID,
    EMPTY_ADAPTER, EMPTY_DEVICE_NAME, EMPTY_NAME_HEART_RATE_ADAPTER,
    GENERIC_ACCESS_SERVICE_UUID, GLUCOSE_DEVICE_ADDRESS, GLUCOSE_DEVICE_NAME,
    GLUCOSE_HEART_RATE_ADAPTER, GLUCOSE_SERVICE_UUID, HEART_RATE_ADAPTER,
    HEART_RATE_DEVICE_ADDRESS, HEART_RATE_DEVICE_NAME,
    HEART_RATE_MEASUREMENT_CHARACTERISTIC_UUID, HEART_RATE_SERVICE_UUID,
    HUMAN_INTERFACE_DEVICE_SERVICE_UUID, MISSING_CHARACTERISTIC_HEART_RATE_ADAPTER,
    MISSING_DESCRIPTOR_HEART_RATE_ADAPTER, MISSING_SERVICE_HEART_RATE_ADAPTER,
    NOT_POWERED_ADAPTER, NOT_PRESENT_ADAPTER, NO_NAME_HEART_RATE_ADAPTER,
    PERIPHERAL_PRIVACY_FLAG_CHARACTERISTIC_UUID, SERIAL_NUMBER_STRING_UUID,
    TWO_HEART_RATE_SERVICES_ADAPTER, TX_POWER_SERVICE_UUID, UNICODE_DEVICE_ADAPTER,
    UNICODE_DEVICE_ADDRESS, UNICODE_DEVICE_NAME, create_generic_access_service, create_heart_rate_device,
    create_heart_rate_service, generic_access_service_model, heart_rate_device_model,
    heart_rate_service_model, lemma_fixture_addresses_valid, read_write_flag_views,
    read_write_flags,
};

verus! {

broadcast use Seq::lemma_push_map_commute;

/// The adapter manager collaborator: it owns at most one adapter per test
/// run and the identifier cache that all scenario applications draw from.
pub struct Manager {
    /// The adapter handle, once obtained.
    pub adapter: Option<Adapter>,
    /// Whether the manager can create an adapter when none exists yet.
    pub can_create_adapter: bool,
    /// The identifiers issued so far, shared by every scenario application
    /// against this manager.
    pub cache: IdCache,
}

impl Manager {
    /// The identifier cache has never issued duplicates.
    pub open spec fn wf(&self) -> bool {
        self.cache.wf()
    }

    /// Whether a request for an adapter can be satisfied.
    pub open spec fn adapter_obtainable(&self) -> bool {
        self.adapter is Some || self.can_create_adapter
    }

    /// A manager that will lazily create its adapter on first request.
    pub fn new() -> (r: Manager)
        ensures
            r.adapter is None,
            r.can_create_adapter,
            r.cache@ == Seq::<u128>::empty(),
            r.wf(),
    {
        Manager { adapter: None, can_create_adapter: true, cache: IdCache::new() }
    }

    /// A manager with no adapter and no way to create one: every scenario
    /// application against it fails with `NoAdapterError`.
    pub fn new_without_adapter() -> (r: Manager)
        ensures
            r.adapter is None,
            !r.can_create_adapter,
            r.cache@ == Seq::<u128>::empty(),
            r.wf(),
    {
        Manager { adapter: None, can_create_adapter: false, cache: IdCache::new() }
    }
}

/// The adapter a manager hands out before any configuration.
pub open spec fn fresh_adapter_model() -> AdapterModel {
    AdapterModel {
        name: Seq::<char>::empty(),
        powered: false,
        discoverable: false,
        present: true,
        devices: Seq::<DeviceModel>::empty(),
    }
}

/// The adapter that a scenario application will configure: the manager's
/// existing adapter, or a fresh one when it creates one on demand.
pub open spec fn obtained_adapter_model(m: Manager) -> AdapterModel {
    match m.adapter {
        Some(a) => a@,
        None => fresh_adapter_model(),
    }
}

/// Whether `name` names a recognized scenario.
pub open spec fn known_scenario(name: Seq<char>) -> bool {
    ||| name == NOT_PRESENT_ADAPTER@
    ||| name == NOT_POWERED_ADAPTER@
    ||| name == EMPTY_ADAPTER@
    ||| name == GLUCOSE_HEART_RATE_ADAPTER@
    ||| name == UNICODE_DEVICE_ADAPTER@
    ||| name == MISSING_SERVICE_HEART_RATE_ADAPTER@
    ||| name == MISSING_CHARACTERISTIC_HEART_RATE_ADAPTER@
    ||| name == MISSING_DESCRIPTOR_HEART_RATE_ADAPTER@
    ||| name == HEART_RATE_ADAPTER@
    ||| name == EMPTY_NAME_HEART_RATE_ADAPTER@
    ||| name == NO_NAME_HEART_RATE_ADAPTER@
    ||| name == TWO_HEART_RATE_SERVICES_ADAPTER@
    ||| name == BLACKLIST_TEST_ADAPTER@
}

/// How many identifiers the recognized scenario draws.
pub open spec fn scenario_id_count(name: Seq<char>) -> nat {
    if name == NOT_PRESENT_ADAPTER@ {
        0
    } else if name == NOT_POWERED_ADAPTER@ {
        0
    } else if name == EMPTY_ADAPTER@ {
        0
    } else if name == GLUCOSE_HEART_RATE_ADAPTER@ {
        2
    } else if name == UNICODE_DEVICE_ADAPTER@ {
        1
    } else if name == MISSING_SERVICE_HEART_RATE_ADAPTER@ {
        1
    } else if name == MISSING_CHARACTERISTIC_HEART_RATE_ADAPTER@ {
        3
    } else if name == MISSING_DESCRIPTOR_HEART_RATE_ADAPTER@ {
        8
    } else if name == HEART_RATE_ADAPTER@ {
        11
    } else if name == EMPTY_NAME_HEART_RATE_ADAPTER@ {
        11
    } else if name == NO_NAME_HEART_RATE_ADAPTER@ {
        11
    } else if name == TWO_HEART_RATE_SERVICES_ADAPTER@ {
        12
    } else if name == BLACKLIST_TEST_ADAPTER@ {
        18
    } else {
        0
    }
}

/// The UUID list the heart-rate devices advertise.
pub open spec fn heart_rate_uuid_views() -> Seq<Seq<char>> {
    seq![GENERIC_ACCESS_SERVICE_UUID@, HEART_RATE_SERVICE_UUID@]
}

/// The glucose + heart-rate two-device fixture: both devices are bare,
/// advertising their service UUIDs but owning no services.
pub open spec fn glucose_heart_rate_devices(ids: Seq<u128>) -> Seq<DeviceModel> {
    seq![
        built_device(
            ids[0],
            Some(GLUCOSE_DEVICE_NAME@),
            GLUCOSE_DEVICE_ADDRESS@,
            seq![GLUCOSE_SERVICE_UUID@, TX_POWER_SERVICE_UUID@],
        ),
        built_device(
            ids[1],
            Some(HEART_RATE_DEVICE_NAME@),
            HEART_RATE_DEVICE_ADDRESS@,
            heart_rate_uuid_views(),
        ),
    ]
}

/// One device whose display name is not ASCII, advertising no UUIDs.
pub open spec fn unicode_devices(ids: Seq<u128>) -> Seq<DeviceModel> {
    seq![
        built_device(
            ids[0],
            Some(UNICODE_DEVICE_NAME@),
            UNICODE_DEVICE_ADDRESS@,
            Seq::<Seq<char>>::empty(),
        ),
    ]
}

/// A heart-rate device that advertises its services but owns none.
pub open spec fn missing_service_devices(ids: Seq<u128>) -> Seq<DeviceModel> {
    seq![
        built_device(
            ids[0],
            Some(HEART_RATE_DEVICE_NAME@),
            HEART_RATE_DEVICE_ADDRESS@,
            heart_rate_uuid_views(),
        ),
    ]
}

/// A heart-rate device whose two services own no characteristics.
pub open spec fn missing_characteristic_devices(ids: Seq<u128>) -> Seq<DeviceModel> {
    seq![
        (DeviceModel {
            services: seq![
                built_service(ids[1], GENERIC_ACCESS_SERVICE_UUID@),
                built_service(ids[2], HEART_RATE_SERVICE_UUID@),
            ],
            ..built_device(
                ids[0],
                Some(HEART_RATE_DEVICE_NAME@),
                HEART_RATE_DEVICE_ADDRESS@,
                heart_rate_uuid_views(),
            )
        }),
    ]
}

/// A heart-rate device whose device-name characteristic carries no
/// descriptors (and no flags): the generic-access service holds only that
/// characteristic and the explicitly added peripheral-privacy one.
pub open spec fn missing_descriptor_devices(ids: Seq<u128>) -> Seq<DeviceModel> {
    seq![
        (DeviceModel {
            services: seq![
                (ServiceModel {
                    id: ids[1],
                    uuid: GENERIC_ACCESS_SERVICE_UUID@,
                    characteristics: seq![
                        built_characteristic(
                            ids[2],
                            DEVICE_NAME_CHARACTERISTIC_UUID@,
                            Some(display_name_bytes(Some(HEART_RATE_DEVICE_NAME@))),
                        ),
                        (CharacteristicModel {
                            id: ids[3],
                            uuid: PERIPHERAL_PRIVACY_FLAG_CHARACTERISTIC_UUID@,
                            value: None,
                            flags: read_write_flag_views(),
                            descriptors: Seq::<crate::entities::DescriptorModel>::empty(),
                        }),
                    ],
                }),
                heart_rate_service_model(ids.subrange(4, 8)),
            ],
            ..built_device(
                ids[0],
                Some(HEART_RATE_DEVICE_NAME@),
                HEART_RATE_DEVICE_ADDRESS@,
                heart_rate_uuid_views(),
            )
        }),
    ]
}

/// The full heart-rate device fixture.
pub open spec fn heart_rate_devices(ids: Seq<u128>) -> Seq<DeviceModel> {
    seq![heart_rate_device_model(ids)]
}

/// The full heart-rate device, renamed to the present-but-empty display
/// name after construction.
pub open spec fn empty_name_devices(ids: Seq<u128>) -> Seq<DeviceModel> {
    seq![(DeviceModel { name: Some(EMPTY_DEVICE_NAME@), ..heart_rate_device_model(ids) })]
}

/// The full heart-rate device, with its display name removed after
/// construction.
pub open spec fn no_name_devices(ids: Seq<u128>) -> Seq<DeviceModel> {
    seq![(DeviceModel { name: None, ..heart_rate_device_model(ids) })]
}

/// A device advertising the heart-rate UUID twice and owning two distinct
/// services that both carry the heart-rate UUID, with disjoint
/// characteristic sets: measurement and location 1 on the first, location 2
/// on the second.
pub open spec fn two_heart_rate_services_devices(ids: Seq<u128>) -> Seq<DeviceModel> {
    seq![
        (DeviceModel {
            uuids: seq![
                GENERIC_ACCESS_SERVICE_UUID@,
                HEART_RATE_SERVICE_UUID@,
                HEART_RATE_SERVICE_UUID@,
            ],
            services: seq![
                generic_access_service_model(
                    ids.subrange(1, 7),
                    Some(HEART_RATE_DEVICE_NAME@),
                ),
                (ServiceModel {
                    id: ids[7],
                    uuid: HEART_RATE_SERVICE_UUID@,
                    characteristics: seq![
                        built_characteristic(
                            ids[9],
                            HEART_RATE_MEASUREMENT_CHARACTERISTIC_UUID@,
                            Some(seq![3u8]),
                        ),
                        built_characteristic(
                            ids[10],
                            BODY_SENSOR_LOCATION_CHARACTERISTIC_UUID@,
                            Some(seq![1u8]),
                        ),
                    ],
                }),
                (ServiceModel {
                    id: ids[8],
                    uuid: HEART_RATE_SERVICE_UUID@,
                    characteristics: seq![
                        built_characteristic(
                            ids[11],
                            BODY_SENSOR_LOCATION_CHARACTERISTIC_UUID@,
                            Some(seq![2u8]),
                        ),
                    ],
                }),
            ],
            ..built_device(
                ids[0],
                Some(HEART_RATE_DEVICE_NAME@),
                HEART_RATE_DEVICE_ADDRESS@,
                heart_rate_uuid_views(),
            )
        }),
    ]
}

/// The blacklist-test device: excluded-attribute characteristics and
/// descriptors beside the ordinary composite services.
pub open spec fn blacklist_device_model(ids: Seq<u128>) -> DeviceModel {
    (DeviceModel {
            services: seq![
                (ServiceModel {
                    id: ids[1],
                    uuid: BLACKLIST_TEST_SERVICE_UUID@,
                    characteristics: seq![
                        (CharacteristicModel {
                            id: ids[2],
                            uuid: BLACKLIST_EXCLUDE_READS_CHARACTERISTIC_UUID@,
                            value: None,
                            flags: read_write_flag_views(),
                            descriptors: seq![
                                built_descriptor(
                                    ids[3],
                                    BLACKLIST_EXCLUDE_READS_DESCRIPTOR_UUID@,
                                    Some(seq![54u8, 54u8, 54u8]),
                                ),
                                built_descriptor(
                                    ids[4],
                                    BLACKLIST_DESCRIPTOR_UUID@,
                                    Some(seq![54u8, 54u8, 54u8]),
                                ),
                            ],
                        }),
                    ],
                }),
                (ServiceModel {
                    id: ids[5],
                    uuid: DEVICE_INFORMATION_UUID@,
                    characteristics: seq![
                        built_characteristic(ids[6], SERIAL_NUMBER_STRING_UUID@, None),
                    ],
                }),
                generic_access_service_model(
                    ids.subrange(7, 13),
                    Some(CONNECTABLE_DEVICE_NAME@),
                ),
                heart_rate_service_model(ids.subrange(13, 17)),
                built_service(ids[17], HUMAN_INTERFACE_DEVICE_SERVICE_UUID@),
            ],
            ..built_device(
                ids[0],
                Some(CONNECTABLE_DEVICE_NAME@),
                CONNECTABLE_DEVICE_ADDRESS@,
                seq![
                    BLACKLIST_TEST_SERVICE_UUID@,
                    DEVICE_INFORMATION_UUID@,
                    GENERIC_ACCESS_SERVICE_UUID@,
                    HEART_RATE_SERVICE_UUID@,
                    HUMAN_INTERFACE_DEVICE_SERVICE_UUID@,
                ],
            )
    })
}

/// The blacklist-test fixture constructs a single such device.
pub open spec fn blacklist_devices(ids: Seq<u128>) -> Seq<DeviceModel> {
    seq![blacklist_device_model(ids)]
}

/// The devices a recognized scenario constructs under the adapter, in
/// order, as a function of the identifiers drawn while it runs.
pub open spec fn scenario_devices(name: Seq<char>, ids: Seq<u128>) -> Seq<DeviceModel> {
    if name == NOT_PRESENT_ADAPTER@ || name == NOT_POWERED_ADAPTER@ || name == EMPTY_ADAPTER@ {
        Seq::<DeviceModel>::empty()
    } else if name == GLUCOSE_HEART_RATE_ADAPTER@ {
        glucose_heart_rate_devices(ids)
    } else if name == UNICODE_DEVICE_ADAPTER@ {
        unicode_devices(ids)
    } else if name == MISSING_SERVICE_HEART_RATE_ADAPTER@ {
        missing_service_devices(ids)
    } else if name == MISSING_CHARACTERISTIC_HEART_RATE_ADAPTER@ {
        missing_characteristic_devices(ids)
    } else if name == MISSING_DESCRIPTOR_HEART_RATE_ADAPTER@ {
        missing_descriptor_devices(ids)
    } else if name == HEART_RATE_ADAPTER@ {
        heart_rate_devices(ids)
    } else if name == EMPTY_NAME_HEART_RATE_ADAPTER@ {
        empty_name_devices(ids)
    } else if name == NO_NAME_HEART_RATE_ADAPTER@ {
        no_name_devices(ids)
    } else if name == TWO_HEART_RATE_SERVICES_ADAPTER@ {
        two_heart_rate_services_devices(ids)
    } else if name == BLACKLIST_TEST_ADAPTER@ {
        blacklist_devices(ids)
    } else {
        Seq::<DeviceModel>::empty()
    }
}

/// The adapter after a recognized scenario ran against it: named after the
/// scenario, discoverable, powered unless the scenario turns power off,
/// present unless the scenario marks it absent, with the scenario's devices
/// appended to whatever the adapter already carried.
pub open spec fn applied_adapter_model(
    base: AdapterModel,
    name: Seq<char>,
    ids: Seq<u128>,
) -> AdapterModel {
    AdapterModel {
        name: name,
        powered: name != NOT_POWERED_ADAPTER@,
        discoverable: true,
        present: if name == NOT_PRESENT_ADAPTER@ {
            false
        } else {
            base.present
        },
        devices: base.devices + scenario_devices(name, ids),
    }
}

/// Resets the adapter's name, powered and discoverable attributes to the
/// scenario defaults.
pub fn set_adapter(adapter: &mut Adapter, adapter_name: String) -> (r: Result<(), FixtureError>)
    ensures
        r is Ok,
        final(adapter)@ == (AdapterModel {
            name: adapter_name@,
            powered: true,
            discoverable: true,
            ..old(adapter)@
        }),
{
    match adapter.set_name(adapter_name) {
        Ok(()) => (),
        Err(e) => {
            return Err(e);
        },
    }
    match adapter.set_powered(true) {
        Ok(()) => (),
        Err(e) => {
            return Err(e);
        },
    }
    match adapter.set_discoverable(true) {
        Ok(()) => (),
        Err(e) => {
            return Err(e);
        },
    }
    Ok(())
}

/// Whether `name` equals the scenario constant `expected`.
fn name_is(name: &String, expected: &str) -> (b: bool)
    ensures
        b == (name@ == expected@),
{
    let e = String::from_str(expected);
    *name == e
}

/// The adapter as a device-building scenario leaves it: scenario defaults
/// applied and the scenario's devices appended.
pub open spec fn adapter_with_devices(
    base: AdapterModel,
    name: Seq<char>,
    devices: Seq<DeviceModel>,
) -> AdapterModel {
    AdapterModel {
        name: name,
        powered: true,
        discoverable: true,
        present: base.present,
        devices: base.devices + devices,
    }
}

/// The two adapter names of equal length differ in their fifth character.
proof fn lemma_present_powered_names_differ()
    ensures
        NOT_PRESENT_ADAPTER@ != NOT_POWERED_ADAPTER@,
{
    reveal_strlit("NotPresentAdapter");
    reveal_strlit("NotPoweredAdapter");
    assert(NOT_PRESENT_ADAPTER@[4] != NOT_POWERED_ADAPTER@[4]);
}

/// Builds the glucose + heart-rate two-device fixture.
fn apply_glucose_heart_rate(adapter: &mut Adapter, cache: &mut IdCache, data_set_name: String) -> (r: Result<
    (),
    FixtureError,
>)
    requires
        old(cache).wf(),
    ensures
        final(cache).wf(),
        r == Ok::<(), FixtureError>(()),
        old(cache)@.is_prefix_of(final(cache)@),
        final(cache)@.len() == old(cache)@.len() + 2,
        final(adapter)@ == adapter_with_devices(
            old(adapter)@,
            data_set_name@,
            glucose_heart_rate_devices(final(cache)@.skip(old(cache)@.len() as int)),
        ),
{
    let ghost c0 = cache@;
    let ghost a0 = adapter@;
    let ghost name = data_set_name@;
    proof {
        lemma_fixture_addresses_valid();
    }
    match set_adapter(adapter, data_set_name) {
        Ok(()) => (),
        Err(e) => {
            return Err(e);
        },
    }

    // Glucose Device
    let glucose_device = match create_device_with_uuids(
        cache,
        String::from_str(GLUCOSE_DEVICE_NAME),
        String::from_str(GLUCOSE_DEVICE_ADDRESS),
        vec![String::from_str(GLUCOSE_SERVICE_UUID), String::from_str(TX_POWER_SERVICE_UUID)],
    ) {
        Ok(d) => d,
        Err(e) => {
            return Err(e);
        },
    };
    adapter.devices.push(glucose_device);

    // Heart Rate Device
    let heart_rate_device = match create_device_with_uuids(
        cache,
        String::from_str(HEART_RATE_DEVICE_NAME),
        String::from_str(HEART_RATE_DEVICE_ADDRESS),
        vec![
            String::from_str(GENERIC_ACCESS_SERVICE_UUID),
            String::from_str(HEART_RATE_SERVICE_UUID),
        ],
    ) {
        Ok(d) => d,
        Err(e) => {
            return Err(e);
        },
    };
    adapter.devices.push(heart_rate_device);

    proof {
        let drawn = cache@.skip(c0.len() as int);
        assert(drawn =~= seq![drawn[0], drawn[1]]);
        assert(adapter@ =~~= adapter_with_devices(a0, name, glucose_heart_rate_devices(drawn)));
    }
    Ok(())
}

/// Builds the unicode-named device fixture.
fn apply_unicode_device(adapter: &mut Adapter, cache: &mut IdCache, data_set_name: String) -> (r:
    Result<(), FixtureError>)
    requires
        old(cache).wf(),
    ensures
        final(cache).wf(),
        r == Ok::<(), FixtureError>(()),
        old(cache)@.is_prefix_of(final(cache)@),
        final(cache)@.len() == old(cache)@.len() + 1,
        final(adapter)@ == adapter_with_devices(
            old(adapter)@,
            data_set_name@,
            unicode_devices(final(cache)@.skip(old(cache)@.len() as int)),
        ),
{
    let ghost c0 = cache@;
    let ghost a0 = adapter@;
    let ghost name = data_set_name@;
    proof {
        lemma_fixture_addresses_valid();
    }
    match set_adapter(adapter, data_set_name) {
        Ok(()) => (),
        Err(e) => {
            return Err(e);
        },
    }

    // Unicode Device
    let unicode_device = match create_device(
        cache,
        String::from_str(UNICODE_DEVICE_NAME),
        String::from_str(UNICODE_DEVICE_ADDRESS),
    ) {
        Ok(d) => d,
        Err(e) => {
            return Err(e);
        },
    };
    adapter.devices.push(unicode_device);

    proof {
        let drawn = cache@.skip(c0.len() as int);
        assert(drawn =~= seq![drawn[0]]);
        assert(adapter@ =~~= adapter_with_devices(a0, name, unicode_devices(drawn)));
    }
    Ok(())
}

/// Builds the heart-rate device that is missing all its services.
fn apply_missing_service(adapter: &mut Adapter, cache: &mut IdCache, data_set_name: String) -> (r:
    Result<(), FixtureError>)
    requires
        old(cache).wf(),
    ensures
        final(cache).wf(),
        r == Ok::<(), FixtureError>(()),
        old(cache)@.is_prefix_of(final(cache)@),
        final(cache)@.len() == old(cache)@.len() + 1,
        final(adapter)@ == adapter_with_devices(
            old(adapter)@,
            data_set_name@,
            missing_service_devices(final(cache)@.skip(old(cache)@.len() as int)),
        ),
{
    let ghost c0 = cache@;
    let ghost a0 = adapter@;
    let ghost name = data_set_name@;
    proof {
        lemma_fixture_addresses_valid();
    }
    match set_adapter(adapter, data_set_name) {
        Ok(()) => (),
        Err(e) => {
            return Err(e);
        },
    }

    // Heart Rate Device
    let heart_rate_device = match create_device_with_uuids(
        cache,
        String::from_str(HEART_RATE_DEVICE_NAME),
        String::from_str(HEART_RATE_DEVICE_ADDRESS),
        vec![
            String::from_str(GENERIC_ACCESS_SERVICE_UUID),
            String::from_str(HEART_RATE_SERVICE_UUID),
        ],
    ) {
        Ok(d) => d,
        Err(e) => {
            return Err(e);
        },
    };
    adapter.devices.push(heart_rate_device);

    proof {
        let drawn = cache@.skip(c0.len() as int);
        assert(drawn =~= seq![drawn[0]]);
        assert(adapter@ =~~= adapter_with_devices(a0, name, missing_service_devices(drawn)));
    }
    Ok(())
}

/// Builds the heart-rate device whose services are missing all their
/// characteristics.
fn apply_missing_characteristic(
    adapter: &mut Adapter,
    cache: &mut IdCache,
    data_set_name: String,
) -> (r: Result<(), FixtureError>)
    requires
        old(cache).wf(),
    ensures
        final(cache).wf(),
        r == Ok::<(), FixtureError>(()),
        old(cache)@.is_prefix_of(final(cache)@),
        final(cache)@.len() == old(cache)@.len() + 3,
        final(adapter)@ == adapter_with_devices(
            old(adapter)@,
            data_set_name@,
            missing_characteristic_devices(final(cache)@.skip(old(cache)@.len() as int)),
        ),
{
    let ghost c0 = cache@;
    let ghost a0 = adapter@;
    let ghost name = data_set_name@;
    proof {
        lemma_fixture_addresses_valid();
    }
    match set_adapter(adapter, data_set_name) {
        Ok(()) => (),
        Err(e) => {
            return Err(e);
        },
    }

    // Heart Rate Device
    let mut heart_rate_device = match create_device_with_uuids(
        cache,
        String::from_str(HEART_RATE_DEVICE_NAME),
        String::from_str(HEART_RATE_DEVICE_ADDRESS),
        vec![
            String::from_str(GENERIC_ACCESS_SERVICE_UUID),
            String::from_str(HEART_RATE_SERVICE_UUID),
        ],
    ) {
        Ok(d) => d,
        Err(e) => {
            return Err(e);
        },
    };

    // Generic Access Service
    let generic_access_service = match create_service(
        cache,
        String::from_str(GENERIC_ACCESS_SERVICE_UUID),
    ) {
        Ok(s) => s,
        Err(e) => {
            return Err(e);
        },
    };
    heart_rate_device.services.push(generic_access_service);

    // Heart Rate Service
    let heart_rate_service = match create_service(
        cache,
        String::from_str(HEART_RATE_SERVICE_UUID),
    ) {
        Ok(s) => s,
        Err(e) => {
            return Err(e);
        },
    };
    heart_rate_device.services.push(heart_rate_service);
    adapter.devices.push(heart_rate_device);

    proof {
        let drawn = cache@.skip(c0.len() as int);
        assert(drawn =~= seq![drawn[0], drawn[1], drawn[2]]);
        assert(adapter@ =~~= adapter_with_devices(
            a0,
            name,
            missing_characteristic_devices(drawn),
        ));
    }
    Ok(())
}

/// Builds the heart-rate device whose device-name characteristic is missing
/// its descriptors.
fn apply_missing_descriptor(adapter: &mut Adapter, cache: &mut IdCache, data_set_name: String) -> (r: Result<
    (),
    FixtureError,
>)
    requires
        old(cache).wf(),
    ensures
        final(cache).wf(),
        r == Ok::<(), FixtureError>(()),
        old(cache)@.is_prefix_of(final(cache)@),
        final(cache)@.len() == old(cache)@.len() + 8,
        final(adapter)@ == adapter_with_devices(
            old(adapter)@,
            data_set_name@,
            missing_descriptor_devices(final(cache)@.skip(old(cache)@.len() as int)),
        ),
{
    let ghost c0 = cache@;
    let ghost a0 = adapter@;
    let ghost name = data_set_name@;
    proof {
        lemma_fixture_addresses_valid();
    }
    match set_adapter(adapter, data_set_name) {
        Ok(()) => (),
        Err(e) => {
            return Err(e);
        },
    }

    // Heart Rate Device
    let mut heart_rate_device = match create_device_with_uuids(
        cache,
        String::from_str(HEART_RATE_DEVICE_NAME),
        String::from_str(HEART_RATE_DEVICE_ADDRESS),
        vec![
            String::from_str(GENERIC_ACCESS_SERVICE_UUID),
            String::from_str(HEART_RATE_SERVICE_UUID),
        ],
    ) {
        Ok(d) => d,
        Err(e) => {
            return Err(e);
        },
    };

    // Generic Access Service
    let mut generic_access_service = match create_service(
        cache,
        String::from_str(GENERIC_ACCESS_SERVICE_UUID),
    ) {
        Ok(s) => s,
        Err(e) => {
            return Err(e);
        },
    };

    // Device Name Characteristic, with no descriptors
    let device_name_characteristic = match create_characteristic_with_value(
        cache,
        String::from_str(DEVICE_NAME_CHARACTERISTIC_UUID),
        display_name_value(&heart_rate_device.name),
    ) {
        Ok(c) => c,
        Err(e) => {
            return Err(e);
        },
    };
    generic_access_service.characteristics.push(device_name_characteristic);

    // Peripheral Privacy Flag Characteristic
    let mut peripheral_privacy_flag_characteristic = match create_characteristic(
        cache,
        String::from_str(PERIPHERAL_PRIVACY_FLAG_CHARACTERISTIC_UUID),
    ) {
        Ok(c) => c,
        Err(e) => {
            return Err(e);
        },
    };
    match peripheral_privacy_flag_characteristic.set_flags(read_write_flags()) {
        Ok(()) => (),
        Err(e) => {
            return Err(e);
        },
    }
    generic_access_service.characteristics.push(peripheral_privacy_flag_characteristic);
    heart_rate_device.services.push(generic_access_service);

    // Heart Rate Service
    let ghost c_before_hr = cache@;
    match create_heart_rate_service(&mut heart_rate_device, cache) {
        Ok(()) => (),
        Err(e) => {
            return Err(e);
        },
    }
    proof {
        let drawn = cache@.skip(c0.len() as int);
        assert(drawn =~= seq![
            drawn[0],
            drawn[1],
            drawn[2],
            drawn[3],
            drawn[4],
            drawn[5],
            drawn[6],
            drawn[7],
        ]);
        assert(c_before_hr =~= cache@.subrange(0, c_before_hr.len() as int));
        assert(drawn.subrange(4, 8) =~= cache@.skip(c_before_hr.len() as int));
        assert(drawn[0] == cache@[c0.len() as int]);
        assert(cache@[c0.len() as int] == c_before_hr[c0.len() as int]);
        assert(c_before_hr[c0.len() as int] == heart_rate_device.id);
        assert(drawn[1] == c_before_hr[c0.len() as int + 1]);
        assert(drawn[2] == c_before_hr[c0.len() as int + 2]);
        assert(drawn[3] == c_before_hr[c0.len() as int + 3]);
        assert(heart_rate_device@ =~~= missing_descriptor_devices(drawn)[0]);
    }
    adapter.devices.push(heart_rate_device);

    proof {
        let drawn = cache@.skip(c0.len() as int);
        assert(adapter@ =~~= adapter_with_devices(a0, name, missing_descriptor_devices(drawn)));
    }
    Ok(())
}

/// Builds the full heart-rate device fixture, optionally renaming the
/// device afterwards: `rename` is `None` to keep the name, or the new
/// display name (present or absent) to apply after construction.
fn apply_heart_rate(
    adapter: &mut Adapter,
    cache: &mut IdCache,
    data_set_name: String,
    rename: Option<Option<String>>,
) -> (r: Result<(), FixtureError>)
    requires
        old(cache).wf(),
    ensures
        final(cache).wf(),
        r == Ok::<(), FixtureError>(()),
        old(cache)@.is_prefix_of(final(cache)@),
        final(cache)@.len() == old(cache)@.len() + 11,
        ({
            let drawn = final(cache)@.skip(old(cache)@.len() as int);
            let built = match rename {
                None => heart_rate_device_model(drawn),
                Some(n) => DeviceModel {
                    name: crate::entities::name_view(n),
                    ..heart_rate_device_model(drawn)
                },
            };
            final(adapter)@ == adapter_with_devices(old(adapter)@, data_set_name@, seq![built])
        }),
{
    let ghost c0 = cache@;
    let ghost a0 = adapter@;
    let ghost name = data_set_name@;
    match set_adapter(adapter, data_set_name) {
        Ok(()) => (),
        Err(e) => {
            return Err(e);
        },
    }

    // Heart Rate Device
    let mut heart_rate_device = match create_heart_rate_device(cache) {
        Ok(d) => d,
        Err(e) => {
            return Err(e);
        },
    };
    match rename {
        None => (),
        Some(new_name) => {
            match heart_rate_device.set_name(new_name) {
                Ok(()) => (),
                Err(e) => {
                    return Err(e);
                },
            }
        },
    }
    adapter.devices.push(heart_rate_device);

    proof {
        assert(adapter@.devices =~~= a0.devices + seq![adapter@.devices.last()]);
        assert(adapter@ =~~= adapter_with_devices(a0, name, seq![adapter@.devices.last()]));
    }
    Ok(())
}

/// Builds the device that carries two distinct heart-rate services.
fn apply_two_heart_rate_services(
    adapter: &mut Adapter,
    cache: &mut IdCache,
    data_set_name: String,
) -> (r: Result<(), FixtureError>)
    requires
        old(cache).wf(),
    ensures
        final(cache).wf(),
        r == Ok::<(), FixtureError>(()),
        old(cache)@.is_prefix_of(final(cache)@),
        final(cache)@.len() == old(cache)@.len() + 12,
        final(adapter)@ == adapter_with_devices(
            old(adapter)@,
            data_set_name@,
            two_heart_rate_services_devices(final(cache)@.skip(old(cache)@.len() as int)),
        ),
{
    let ghost c0 = cache@;
    let ghost a0 = adapter@;
    let ghost name = data_set_name@;
    proof {
        lemma_fixture_addresses_valid();
    }
    match set_adapter(adapter, data_set_name) {
        Ok(()) => (),
        Err(e) => {
            return Err(e);
        },
    }

    // Heart Rate Device, advertising the heart-rate UUID twice
    let mut heart_rate_device = match create_device_with_uuids(
        cache,
        String::from_str(HEART_RATE_DEVICE_NAME),
        String::from_str(HEART_RATE_DEVICE_ADDRESS),
        vec![
            String::from_str(GENERIC_ACCESS_SERVICE_UUID),
            String::from_str(HEART_RATE_SERVICE_UUID),
        ],
    ) {
        Ok(d) => d,
        Err(e) => {
            return Err(e);
        },
    };
    match heart_rate_device.set_uuids(vec![
        String::from_str(GENERIC_ACCESS_SERVICE_UUID),
        String::from_str(HEART_RATE_SERVICE_UUID),
        String::from_str(HEART_RATE_SERVICE_UUID),
    ]) {
        Ok(()) => (),
        Err(e) => {
            return Err(e);
        },
    }

    // Generic Access Service
    let ghost c_before_ga = cache@;
    match create_generic_access_service(&mut heart_rate_device, cache) {
        Ok(()) => (),
        Err(e) => {
            return Err(e);
        },
    }
    let ghost c_after_ga = cache@;

    // Heart Rate Service 1
    let mut heart_rate_service_1 = match create_service(
        cache,
        String::from_str(HEART_RATE_SERVICE_UUID),
    ) {
        Ok(s) => s,
        Err(e) => {
            return Err(e);
        },
    };

    // Heart Rate Service 2
    let mut heart_rate_service_2 = match create_service(
        cache,
        String::from_str(HEART_RATE_SERVICE_UUID),
    ) {
        Ok(s) => s,
        Err(e) => {
            return Err(e);
        },
    };

    // Heart Rate Measurement Characteristic
    let heart_rate_measurement_characteristic = match create_characteristic_with_value(
        cache,
        String::from_str(HEART_RATE_MEASUREMENT_CHARACTERISTIC_UUID),
        vec![3u8],
    ) {
        Ok(c) => c,
        Err(e) => {
            return Err(e);
        },
    };
    heart_rate_service_1.characteristics.push(heart_rate_measurement_characteristic);

    // Body Sensor Location Characteristic 1
    let body_sensor_location_characteristic_1 = match create_characteristic_with_value(
        cache,
        String::from_str(BODY_SENSOR_LOCATION_CHARACTERISTIC_UUID),
        vec![1u8],
    ) {
        Ok(c) => c,
        Err(e) => {
            return Err(e);
        },
    };
    heart_rate_service_1.characteristics.push(body_sensor_location_characteristic_1);

    // Body Sensor Location Characteristic 2
    let body_sensor_location_characteristic_2 = match create_characteristic_with_value(
        cache,
        String::from_str(BODY_SENSOR_LOCATION_CHARACTERISTIC_UUID),
        vec![2u8],
    ) {
        Ok(c) => c,
        Err(e) => {
            return Err(e);
        },
    };
    heart_rate_service_2.characteristics.push(body_sensor_location_characteristic_2);

    heart_rate_device.services.push(heart_rate_service_1);
    heart_rate_device.services.push(heart_rate_service_2);
    proof {
        let drawn = cache@.skip(c0.len() as int);
        assert(drawn =~= seq![
            drawn[0],
            drawn[1],
            drawn[2],
            drawn[3],
            drawn[4],
            drawn[5],
            drawn[6],
            drawn[7],
            drawn[8],
            drawn[9],
            drawn[10],
            drawn[11],
        ]);
        assert(c_after_ga =~= cache@.subrange(0, c_after_ga.len() as int));
        assert(c_before_ga =~= c_after_ga.subrange(0, c_before_ga.len() as int));
        assert(drawn.subrange(1, 7) =~= c_after_ga.skip(c_before_ga.len() as int));
        assert(drawn[0] == cache@[c0.len() as int]);
        assert(cache@[c0.len() as int] == c_after_ga[c0.len() as int]);
        assert(c_after_ga[c0.len() as int] == c_before_ga[c0.len() as int]);
        assert(c_before_ga[c0.len() as int] == heart_rate_device.id);
        assert(heart_rate_device@ =~~= two_heart_rate_services_devices(drawn)[0]);
    }
    adapter.devices.push(heart_rate_device);

    proof {
        let drawn = cache@.skip(c0.len() as int);
        assert(adapter@ =~~= adapter_with_devices(
            a0,
            name,
            two_heart_rate_services_devices(drawn),
        ));
    }
    Ok(())
}

/// Builds the blacklist-test device, drawing eighteen fresh identifiers.
#[verifier::rlimit(100)]
#[verifier::spinoff_prover]
fn create_blacklist_device(cache: &mut IdCache) -> (r: Result<crate::entities::Device, FixtureError>)
    requires
        old(cache).wf(),
    ensures
        final(cache).wf(),
        r is Ok,
        old(cache)@.is_prefix_of(final(cache)@),
        final(cache)@.len() == old(cache)@.len() + 18,
        r matches Ok(d) ==> d@ == blacklist_device_model(
            final(cache)@.skip(old(cache)@.len() as int),
        ),
{
    let ghost c0 = cache@;
    proof {
        lemma_fixture_addresses_valid();
    }
    // Connectable Device
    let mut connectable_device = match create_device_with_uuids(
        cache,
        String::from_str(CONNECTABLE_DEVICE_NAME),
        String::from_str(CONNECTABLE_DEVICE_ADDRESS),
        vec![
            String::from_str(BLACKLIST_TEST_SERVICE_UUID),
            String::from_str(DEVICE_INFORMATION_UUID),
            String::from_str(GENERIC_ACCESS_SERVICE_UUID),
            String::from_str(HEART_RATE_SERVICE_UUID),
            String::from_str(HUMAN_INTERFACE_DEVICE_SERVICE_UUID),
        ],
    ) {
        Ok(d) => d,
        Err(e) => {
            return Err(e);
        },
    };

    // Blacklist Test Service
    let mut blacklist_test_service = match create_service(
        cache,
        String::from_str(BLACKLIST_TEST_SERVICE_UUID),
    ) {
        Ok(s) => s,
        Err(e) => {
            return Err(e);
        },
    };

    // Blacklist Exclude Reads Characteristic
    let mut blacklist_exclude_reads_characteristic = match create_characteristic(
        cache,
        String::from_str(BLACKLIST_EXCLUDE_READS_CHARACTERISTIC_UUID),
    ) {
        Ok(c) => c,
        Err(e) => {
            return Err(e);
        },
    };
    match blacklist_exclude_reads_characteristic.set_flags(read_write_flags()) {
        Ok(()) => (),
        Err(e) => {
            return Err(e);
        },
    }

    // Blacklist Exclude Reads Descriptor
    let blacklist_exclude_reads_descriptor = match create_descriptor_with_value(
        cache,
        String::from_str(BLACKLIST_EXCLUDE_READS_DESCRIPTOR_UUID),
        vec![54u8, 54u8, 54u8],
    ) {
        Ok(d) => d,
        Err(e) => {
            return Err(e);
        },
    };
    blacklist_exclude_reads_characteristic.descriptors.push(blacklist_exclude_reads_descriptor);

    // Blacklist Descriptor
    let blacklist_descriptor = match create_descriptor_with_value(
        cache,
        String::from_str(BLACKLIST_DESCRIPTOR_UUID),
        vec![54u8, 54u8, 54u8],
    ) {
        Ok(d) => d,
        Err(e) => {
            return Err(e);
        },
    };
    blacklist_exclude_reads_characteristic.descriptors.push(blacklist_descriptor);
    blacklist_test_service.characteristics.push(blacklist_exclude_reads_characteristic);
    connectable_device.services.push(blacklist_test_service);

    // Device Information Service
    let mut device_information_service = match create_service(
        cache,
        String::from_str(DEVICE_INFORMATION_UUID),
    ) {
        Ok(s) => s,
        Err(e) => {
            return Err(e);
        },
    };

    // Serial Number String Characteristic
    let serial_number_string_characteristic = match create_characteristic(
        cache,
        String::from_str(SERIAL_NUMBER_STRING_UUID),
    ) {
        Ok(c) => c,
        Err(e) => {
            return Err(e);
        },
    };
    device_information_service.characteristics.push(serial_number_string_characteristic);
    connectable_device.services.push(device_information_service);

    // Generic Access Service
    let ghost c_before_ga = cache@;
    match create_generic_access_service(&mut connectable_device, cache) {
        Ok(()) => (),
        Err(e) => {
            return Err(e);
        },
    }
    let ghost c_after_ga = cache@;

    // Heart Rate Service
    match create_heart_rate_service(&mut connectable_device, cache) {
        Ok(()) => (),
        Err(e) => {
            return Err(e);
        },
    }
    let ghost c_after_hr = cache@;

    // Human Interface Device Service
    let human_interface_device_service = match create_service(
        cache,
        String::from_str(HUMAN_INTERFACE_DEVICE_SERVICE_UUID),
    ) {
        Ok(s) => s,
        Err(e) => {
            return Err(e);
        },
    };
    connectable_device.services.push(human_interface_device_service);
    proof {
        let drawn = cache@.skip(c0.len() as int);
        assert(drawn =~= seq![
            drawn[0],
            drawn[1],
            drawn[2],
            drawn[3],
            drawn[4],
            drawn[5],
            drawn[6],
            drawn[7],
            drawn[8],
            drawn[9],
            drawn[10],
            drawn[11],
            drawn[12],
            drawn[13],
            drawn[14],
            drawn[15],
            drawn[16],
            drawn[17],
        ]);
        assert(c_after_hr =~= cache@.subrange(0, c_after_hr.len() as int));
        assert(c_after_ga =~= c_after_hr.subrange(0, c_after_ga.len() as int));
        assert(c_before_ga =~= c_after_ga.subrange(0, c_before_ga.len() as int));
        assert(drawn.subrange(7, 13) =~= c_after_ga.skip(c_before_ga.len() as int));
        assert(drawn.subrange(13, 17) =~= c_after_hr.skip(c_after_ga.len() as int));
        assert forall|i: int| 0 <= i < 7 implies drawn[i] == c_before_ga[c0.len() + i] by {
            assert(drawn[i] == cache@[c0.len() + i]);
            assert(cache@[c0.len() + i] == c_after_hr[c0.len() + i]);
            assert(c_after_hr[c0.len() + i] == c_after_ga[c0.len() + i]);
            assert(c_after_ga[c0.len() + i] == c_before_ga[c0.len() + i]);
        }
        assert(c_before_ga[c0.len() as int] == connectable_device.id);
        assert(connectable_device@ =~~= blacklist_device_model(drawn));
        assert forall|i: int| 0 <= i < c0.len() implies cache@[i] == c0[i] by {
            assert(c_after_hr[i] == cache@[i]);
            assert(c_after_ga[i] == c_after_hr[i]);
            assert(c_before_ga[i] == c_after_ga[i]);
        }
        assert(c0 =~= cache@.subrange(0, c0.len() as int));
    }
    Ok(connectable_device)
}

/// Builds the blacklist-test device fixture.
fn apply_blacklist_test(adapter: &mut Adapter, cache: &mut IdCache, data_set_name: String) -> (r:
    Result<(), FixtureError>)
    requires
        old(cache).wf(),
    ensures
        final(cache).wf(),
        r == Ok::<(), FixtureError>(()),
        old(cache)@.is_prefix_of(final(cache)@),
        final(cache)@.len() == old(cache)@.len() + 18,
        final(adapter)@ == adapter_with_devices(
            old(adapter)@,
            data_set_name@,
            blacklist_devices(final(cache)@.skip(old(cache)@.len() as int)),
        ),
{
    let ghost c0 = cache@;
    let ghost a0 = adapter@;
    let ghost name = data_set_name@;
    match set_adapter(adapter, data_set_name) {
        Ok(()) => (),
        Err(e) => {
            return Err(e);
        },
    }
    let connectable_device = match create_blacklist_device(cache) {
        Ok(d) => d,
        Err(e) => {
            return Err(e);
        },
    };
    adapter.devices.push(connectable_device);

    proof {
        let drawn = cache@.skip(c0.len() as int);
        assert(adapter@ =~~= adapter_with_devices(a0, name, blacklist_devices(drawn)));
    }
    Ok(())
}

/// Applies the named scenario's construction sequence against an adapter
/// already obtained from the manager.
fn apply_scenario(adapter: &mut Adapter, cache: &mut IdCache, data_set_name: String) -> (r:
    Result<(), FixtureError>)
    requires
        old(cache).wf(),
    ensures
        final(cache).wf(),
        !known_scenario(data_set_name@) ==> {
            &&& r == Err::<(), FixtureError>(FixtureError::UnknownScenarioError)
            &&& *final(cache) == *old(cache)
            &&& *final(adapter) == *old(adapter)
        },
        known_scenario(data_set_name@) ==> {
            &&& r == Ok::<(), FixtureError>(())
            &&& old(cache)@.is_prefix_of(final(cache)@)
            &&& final(cache)@.len() == old(cache)@.len() + scenario_id_count(data_set_name@)
            &&& final(adapter)@ == applied_adapter_model(
                old(adapter)@,
                data_set_name@,
                final(cache)@.skip(old(cache)@.len() as int),
            )
        },
{
    let ghost name = data_set_name@;
    let ghost c0 = cache@;
    let ghost a0 = adapter@;
    if name_is(&data_set_name, NOT_PRESENT_ADAPTER) {
        match set_adapter(adapter, data_set_name) {
            Ok(()) => (),
            Err(e) => {
                return Err(e);
            },
        }
        match adapter.set_present(false) {
            Ok(()) => (),
            Err(e) => {
                return Err(e);
            },
        }
        proof {
            lemma_present_powered_names_differ();
            assert(adapter@ =~~= applied_adapter_model(a0, name, cache@.skip(c0.len() as int)));
        }
        Ok(())
    } else if name_is(&data_set_name, NOT_POWERED_ADAPTER) {
        match set_adapter(adapter, data_set_name) {
            Ok(()) => (),
            Err(e) => {
                return Err(e);
            },
        }
        match adapter.set_powered(false) {
            Ok(()) => (),
            Err(e) => {
                return Err(e);
            },
        }
        proof {
            assert(adapter@ =~~= applied_adapter_model(a0, name, cache@.skip(c0.len() as int)));
        }
        Ok(())
    } else if name_is(&data_set_name, EMPTY_ADAPTER) {
        match set_adapter(adapter, data_set_name) {
            Ok(()) => (),
            Err(e) => {
                return Err(e);
            },
        }
        proof {
            assert(adapter@ =~~= applied_adapter_model(a0, name, cache@.skip(c0.len() as int)));
        }
        Ok(())
    } else if name_is(&data_set_name, GLUCOSE_HEART_RATE_ADAPTER) {
        let r = apply_glucose_heart_rate(adapter, cache, data_set_name);
        proof {
            assert(adapter@ =~~= applied_adapter_model(a0, name, cache@.skip(c0.len() as int)));
        }
        r
    } else if name_is(&data_set_name, UNICODE_DEVICE_ADAPTER) {
        let r = apply_unicode_device(adapter, cache, data_set_name);
        proof {
            assert(adapter@ =~~= applied_adapter_model(a0, name, cache@.skip(c0.len() as int)));
        }
        r
    } else if name_is(&data_set_name, MISSING_SERVICE_HEART_RATE_ADAPTER) {
        let r = apply_missing_service(adapter, cache, data_set_name);
        proof {
            assert(adapter@ =~~= applied_adapter_model(a0, name, cache@.skip(c0.len() as int)));
        }
        r
    } else if name_is(&data_set_name, MISSING_CHARACTERISTIC_HEART_RATE_ADAPTER) {
        let r = apply_missing_characteristic(adapter, cache, data_set_name);
        proof {
            assert(adapter@ =~~= applied_adapter_model(a0, name, cache@.skip(c0.len() as int)));
        }
        r
    } else if name_is(&data_set_name, MISSING_DESCRIPTOR_HEART_RATE_ADAPTER) {
        let r = apply_missing_descriptor(adapter, cache, data_set_name);
        proof {
            assert(adapter@ =~~= applied_adapter_model(a0, name, cache@.skip(c0.len() as int)));
        }
        r
    } else if name_is(&data_set_name, HEART_RATE_ADAPTER) {
        let r = apply_heart_rate(adapter, cache, data_set_name, None);
        proof {
            assert(adapter@ =~~= applied_adapter_model(a0, name, cache@.skip(c0.len() as int)));
        }
        r
    } else if name_is(&data_set_name, EMPTY_NAME_HEART_RATE_ADAPTER) {
        let r = apply_heart_rate(
            adapter,
            cache,
            data_set_name,
            Some(Some(String::from_str(EMPTY_DEVICE_NAME))),
        );
        proof {
            assert(adapter@ =~~= applied_adapter_model(a0, name, cache@.skip(c0.len() as int)));
        }
        r
    } else if name_is(&data_set_name, NO_NAME_HEART_RATE_ADAPTER) {
        let r = apply_heart_rate(adapter, cache, data_set_name, Some(None));
        proof {
            assert(adapter@ =~~= applied_adapter_model(a0, name, cache@.skip(c0.len() as int)));
        }
        r
    } else if name_is(&data_set_name, TWO_HEART_RATE_SERVICES_ADAPTER) {
        let r = apply_two_heart_rate_services(adapter, cache, data_set_name);
        proof {
            assert(adapter@ =~~= applied_adapter_model(a0, name, cache@.skip(c0.len() as int)));
        }
        r
    } else if name_is(&data_set_name, BLACKLIST_TEST_ADAPTER) {
        let r = apply_blacklist_test(adapter, cache, data_set_name);
        proof {
            assert(adapter@ =~~= applied_adapter_model(a0, name, cache@.skip(c0.len() as int)));
        }
        r
    } else {
        Err(FixtureError::UnknownScenarioError)
    }
}

/// Applies the named scenario against the manager: obtains (or lazily
/// creates) the adapter, resets its attributes to scenario defaults and
/// constructs the scenario's fixture tree.  Returns the first error
/// encountered: `NoAdapterError` when the manager cannot supply an adapter
/// (before any entity construction), `UnknownScenarioError` when the name
/// is not recognized (the cache is then untouched), and otherwise fully
/// constructs the fixture.
pub fn test(manager: &mut Manager, data_set_name: String) -> (r: Result<(), FixtureError>)
    requires
        old(manager).wf(),
    ensures
        final(manager).wf(),
        final(manager).can_create_adapter == old(manager).can_create_adapter,
        !old(manager).adapter_obtainable() ==> {
            &&& r == Err::<(), FixtureError>(FixtureError::NoAdapterError)
            &&& *final(manager) == *old(manager)
        },
        old(manager).adapter_obtainable() && !known_scenario(data_set_name@) ==> {
            &&& r == Err::<(), FixtureError>(FixtureError::UnknownScenarioError)
            &&& final(manager).cache == old(manager).cache
            &&& final(manager).adapter matches Some(a) && a@ == obtained_adapter_model(
                *old(manager),
            )
        },
        old(manager).adapter_obtainable() && known_scenario(data_set_name@) ==> {
            &&& r == Ok::<(), FixtureError>(())
            &&& old(manager).cache@.is_prefix_of(final(manager).cache@)
            &&& final(manager).cache@.len() == old(manager).cache@.len() + scenario_id_count(
                data_set_name@,
            )
            &&& final(manager).adapter matches Some(a) && a@ == applied_adapter_model(
                obtained_adapter_model(*old(manager)),
                data_set_name@,
                final(manager).cache@.skip(old(manager).cache@.len() as int),
            )
        },
{
    if manager.adapter.is_none() {
        if manager.can_create_adapter {
            manager.adapter = Some(Adapter::new());
        } else {
            return Err(FixtureError::NoAdapterError);
        }
    }
    let mut adapter = manager.adapter.take().unwrap();
    proof {
        assert(adapter@ =~~= obtained_adapter_model(*old(manager)));
    }
    let r = apply_scenario(&mut adapter, &mut manager.cache, data_set_name);
    manager.adapter = Some(adapter);
    r
}


/// The "missing descriptor" fixture yields a device-name characteristic
/// with zero descriptors and no characteristic beyond it and the
/// explicitly added peripheral-privacy one, while the full heart-rate
/// fixture yields the same characteristic with exactly three descriptors.
pub proof fn lemma_descriptor_presence(partial_ids: Seq<u128>, full_ids: Seq<u128>)
    ensures
        missing_descriptor_devices(partial_ids)[0].services[0].characteristics.len() == 2,
        missing_descriptor_devices(partial_ids)[0].services[0].characteristics[0].uuid
            == DEVICE_NAME_CHARACTERISTIC_UUID@,
        missing_descriptor_devices(partial_ids)[0].services[0].characteristics[0].descriptors.len()
            == 0,
        missing_descriptor_devices(partial_ids)[0].services[0].characteristics[1].uuid
            == PERIPHERAL_PRIVACY_FLAG_CHARACTERISTIC_UUID@,
        heart_rate_devices(full_ids)[0].services[0].characteristics[0].uuid
            == DEVICE_NAME_CHARACTERISTIC_UUID@,
        heart_rate_devices(full_ids)[0].services[0].characteristics[0].descriptors.len() == 3,
{
}

/// The two-heart-rate-services fixture advertises the heart-rate UUID
/// twice and owns two distinct service entities both carrying that UUID,
/// with disjoint characteristic sets: measurement and first body-sensor
/// location on the first service, the second location on the second.
pub proof fn lemma_two_heart_rate_services(ids: Seq<u128>)
    requires
        ids.len() == 12,
        crate::ids::distinct_ids(ids),
    ensures
        ({
            let d = two_heart_rate_services_devices(ids)[0];
            &&& d.uuids.len() == 3
            &&& d.uuids[1] == HEART_RATE_SERVICE_UUID@
            &&& d.uuids[2] == HEART_RATE_SERVICE_UUID@
            &&& d.services.len() == 3
            &&& d.services[1].uuid == HEART_RATE_SERVICE_UUID@
            &&& d.services[2].uuid == HEART_RATE_SERVICE_UUID@
            &&& d.services[1].id != d.services[2].id
            &&& d.services[1].characteristics.len() == 2
            &&& d.services[2].characteristics.len() == 1
            &&& d.services[1].characteristics[0].uuid
                == HEART_RATE_MEASUREMENT_CHARACTERISTIC_UUID@
            &&& d.services[1].characteristics[0].value == Some(seq![3u8])
            &&& d.services[1].characteristics[1].uuid
                == BODY_SENSOR_LOCATION_CHARACTERISTIC_UUID@
            &&& d.services[1].characteristics[1].value == Some(seq![1u8])
            &&& d.services[2].characteristics[0].uuid
                == BODY_SENSOR_LOCATION_CHARACTERISTIC_UUID@
            &&& d.services[2].characteristics[0].value == Some(seq![2u8])
            &&& forall|i: int, j: int|
                0 <= i < 2 && 0 <= j < 1 ==> d.services[1].characteristics[i].id
                    != d.services[2].characteristics[j].id
        }),
{
}

/// The empty-name and no-name fixtures are distinguishable: one device has
/// a present-but-empty display name, the other an absent one.
pub proof fn lemma_empty_and_no_name_distinguishable(ids: Seq<u128>)
    ensures
        empty_name_devices(ids)[0].name == Some(Seq::<char>::empty()),
        no_name_devices(ids)[0].name is None,
        empty_name_devices(ids)[0].name != no_name_devices(ids)[0].name,
{
    reveal_strlit("");
    assert(EMPTY_DEVICE_NAME@ =~= Seq::<char>::empty());
}

} // verus!
