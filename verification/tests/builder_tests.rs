use bluetooth_fixture::FixtureError;
use bluetooth_fixture::entities::check_address;
use bluetooth_fixture::factory::{
    create_characteristic, create_characteristic_with_value, create_descriptor,
    create_descriptor_with_value, create_device, create_device_with_uuids, create_service,
};
use bluetooth_fixture::ids::IdCache;
use bluetooth_fixture::scenarios::{
    create_generic_access_service, create_heart_rate_device, create_heart_rate_service,
};

#[test]
fn generate_id_never_repeats() {
    let mut cache = IdCache::new();
    let mut seen: Vec<u128> = Vec::new();
    for _ in 0..256 {
        let id = cache.generate_id();
        assert!(!seen.contains(&id));
        seen.push(id);
    }
    assert_eq!(cache.issued_count(), 256);
}

#[test]
fn check_address_accepts_the_fixture_addresses() {
    assert!(check_address("00:00:00:00:00:01"));
    assert!(check_address("00:00:00:00:00:04"));
    assert!(check_address("aA:bB:cC:dD:eE:fF"));
}

#[test]
fn check_address_rejects_malformed_addresses() {
    assert!(!check_address(""));
    assert!(!check_address("00:00:00:00:00"));
    assert!(!check_address("00:00:00:00:00:001"));
    assert!(!check_address("00-00-00-00-00-01"));
    assert!(!check_address("0g:00:00:00:00:01"));
}

#[test]
fn create_device_rejects_malformed_address() {
    let mut cache = IdCache::new();
    let r = create_device(&mut cache, "Some Device".to_string(), "not an address".to_string());
    assert_eq!(r.err(), Some(FixtureError::AttributeError));
    // The identifier drawn before the rejected assignment stays consumed.
    assert_eq!(cache.issued_count(), 1);
}

#[test]
fn create_device_with_uuids_propagates_address_error() {
    let mut cache = IdCache::new();
    let r = create_device_with_uuids(
        &mut cache,
        "Some Device".to_string(),
        "00:00:00:00:00".to_string(),
        vec!["0000180d-0000-1000-8000-00805f9b34fb".to_string()],
    );
    assert_eq!(r.err(), Some(FixtureError::AttributeError));
}

#[test]
fn create_device_sets_all_attributes() {
    let mut cache = IdCache::new();
    let device =
        create_device(&mut cache, "Some Device".to_string(), "00:00:00:00:00:07".to_string())
            .unwrap();
    assert_eq!(device.name.as_deref(), Some("Some Device"));
    assert_eq!(device.address, "00:00:00:00:00:07");
    assert!(device.connectable);
    assert_eq!(device.uuids.len(), 0);
    assert_eq!(device.services.len(), 0);
}

#[test]
fn create_device_with_uuids_preserves_order_and_duplicates() {
    let mut cache = IdCache::new();
    let uuids = vec![
        "0000180d-0000-1000-8000-00805f9b34fb".to_string(),
        "00001800-0000-1000-8000-00805f9b34fb".to_string(),
        "0000180d-0000-1000-8000-00805f9b34fb".to_string(),
    ];
    let device = create_device_with_uuids(
        &mut cache,
        "Some Device".to_string(),
        "00:00:00:00:00:07".to_string(),
        uuids.clone(),
    )
    .unwrap();
    assert_eq!(device.uuids, uuids);
}

#[test]
fn create_service_and_children_are_bare() {
    let mut cache = IdCache::new();
    let service =
        create_service(&mut cache, "0000180d-0000-1000-8000-00805f9b34fb".to_string()).unwrap();
    assert_eq!(service.uuid, "0000180d-0000-1000-8000-00805f9b34fb");
    assert_eq!(service.characteristics.len(), 0);

    let characteristic =
        create_characteristic(&mut cache, "00002a02-0000-1000-8000-00805f9b34fb".to_string())
            .unwrap();
    assert_eq!(characteristic.value, None);
    assert_eq!(characteristic.flags.len(), 0);
    assert_eq!(characteristic.descriptors.len(), 0);

    let with_value = create_characteristic_with_value(
        &mut cache,
        "00002a37-0000-1000-8000-00805f9b34fb".to_string(),
        vec![3],
    )
    .unwrap();
    assert_eq!(with_value.value.as_deref(), Some(&[3u8][..]));

    let descriptor =
        create_descriptor(&mut cache, "00002901-0000-1000-8000-00805f9b34fb".to_string())
            .unwrap();
    assert_eq!(descriptor.value, None);

    let descriptor_with_value = create_descriptor_with_value(
        &mut cache,
        "00002902-0000-1000-8000-00805f9b34fb".to_string(),
        vec![0, 0],
    )
    .unwrap();
    assert_eq!(descriptor_with_value.value.as_deref(), Some(&[0u8, 0][..]));

    assert_eq!(cache.issued_count(), 5);
}

#[test]
fn heart_rate_device_draws_eleven_identifiers() {
    let mut cache = IdCache::new();
    let device = create_heart_rate_device(&mut cache).unwrap();
    assert_eq!(cache.issued_count(), 11);
    assert_eq!(device.services.len(), 2);
    assert_eq!(device.services[0].characteristics.len(), 2);
    assert_eq!(device.services[1].characteristics.len(), 3);
}

#[test]
fn heart_rate_service_duplicates_location_uuid_with_distinct_values() {
    let mut cache = IdCache::new();
    let mut device =
        create_device(&mut cache, "Heart Rate Device".to_string(), "00:00:00:00:00:03".to_string())
            .unwrap();
    create_heart_rate_service(&mut device, &mut cache).unwrap();
    let service = &device.services[0];
    assert_eq!(service.characteristics[1].uuid, service.characteristics[2].uuid);
    assert_eq!(service.characteristics[1].value.as_deref(), Some(&[1u8][..]));
    assert_eq!(service.characteristics[2].value.as_deref(), Some(&[2u8][..]));
}

#[test]
fn generic_access_value_follows_the_device_name() {
    let mut cache = IdCache::new();
    let mut device =
        create_device(&mut cache, "Custom Name".to_string(), "00:00:00:00:00:09".to_string())
            .unwrap();
    create_generic_access_service(&mut device, &mut cache).unwrap();
    let device_name = &device.services[0].characteristics[0];
    assert_eq!(device_name.value.as_deref(), Some("Custom Name".as_bytes()));
}

#[test]
fn generic_access_round_trip_shares_no_identifiers() {
    let mut cache = IdCache::new();
    let mut first =
        create_device(&mut cache, "First Device".to_string(), "00:00:00:00:00:05".to_string())
            .unwrap();
    let mut second =
        create_device(&mut cache, "Second Device".to_string(), "00:00:00:00:00:06".to_string())
            .unwrap();
    create_generic_access_service(&mut first, &mut cache).unwrap();
    create_generic_access_service(&mut second, &mut cache).unwrap();

    let mut first_ids: Vec<u128> = Vec::new();
    let mut second_ids: Vec<u128> = Vec::new();
    let first_service = &first.services[0];
    let second_service = &second.services[0];
    first_ids.push(first_service.id);
    second_ids.push(second_service.id);
    for c in &first_service.characteristics {
        first_ids.push(c.id);
        for d in &c.descriptors {
            first_ids.push(d.id);
        }
    }
    for c in &second_service.characteristics {
        second_ids.push(c.id);
        for d in &c.descriptors {
            second_ids.push(d.id);
        }
    }
    assert_eq!(first_ids.len(), 6);
    assert_eq!(second_ids.len(), 6);
    for x in &first_ids {
        assert!(!second_ids.contains(x));
    }
}

#[test]
fn error_messages_match_their_kind() {
    assert_eq!(FixtureError::NoAdapterError.message(), "No adapter found");
    assert_eq!(
        FixtureError::UnknownScenarioError.message(),
        "Wrong data set name was provided"
    );
    assert_eq!(
        FixtureError::AttributeError.message(),
        "Failed to set an attribute for testing"
    );
}
