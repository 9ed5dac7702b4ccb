use bluetooth_fixture::dispatch::Manager;
use bluetooth_fixture::entities::{Adapter, Characteristic, Descriptor, Device, Service};
use bluetooth_fixture::FixtureError;

fn apply(manager: &mut Manager, name: &str) -> Result<(), FixtureError> {
    bluetooth_fixture::dispatch::test(manager, name.to_string())
}

fn adapter_of(manager: &Manager) -> &Adapter {
    manager.adapter.as_ref().expect("adapter should exist after a scenario")
}

fn collect_descriptor_ids(d: &Descriptor, out: &mut Vec<u128>) {
    out.push(d.id);
}

fn collect_characteristic_ids(c: &Characteristic, out: &mut Vec<u128>) {
    out.push(c.id);
    for d in &c.descriptors {
        collect_descriptor_ids(d, out);
    }
}

fn collect_service_ids(s: &Service, out: &mut Vec<u128>) {
    out.push(s.id);
    for c in &s.characteristics {
        collect_characteristic_ids(c, out);
    }
}

fn collect_device_ids(d: &Device, out: &mut Vec<u128>) {
    out.push(d.id);
    for s in &d.services {
        collect_service_ids(s, out);
    }
}

fn all_distinct(ids: &[u128]) -> bool {
    for i in 0..ids.len() {
        for j in (i + 1)..ids.len() {
            if ids[i] == ids[j] {
                return false;
            }
        }
    }
    true
}

#[test]
fn not_present_adapter_scenario() {
    let mut m = Manager::new();
    assert_eq!(apply(&mut m, "NotPresentAdapter"), Ok(()));
    let a = adapter_of(&m);
    assert_eq!(a.name, "NotPresentAdapter");
    assert!(a.powered);
    assert!(a.discoverable);
    assert!(!a.present);
    assert_eq!(a.devices.len(), 0);
    assert_eq!(m.cache.issued_count(), 0);
}

#[test]
fn not_powered_adapter_scenario() {
    let mut m = Manager::new();
    assert_eq!(apply(&mut m, "NotPoweredAdapter"), Ok(()));
    let a = adapter_of(&m);
    assert_eq!(a.name, "NotPoweredAdapter");
    assert!(!a.powered);
    assert!(a.discoverable);
    assert!(a.present);
    assert_eq!(a.devices.len(), 0);
}

#[test]
fn empty_adapter_scenario() {
    let mut m = Manager::new();
    assert_eq!(apply(&mut m, "EmptyAdapter"), Ok(()));
    let a = adapter_of(&m);
    assert_eq!(a.name, "EmptyAdapter");
    assert!(a.powered);
    assert!(a.discoverable);
    assert!(a.present);
    assert_eq!(a.devices.len(), 0);
}

#[test]
fn glucose_heart_rate_adapter_scenario() {
    let mut m = Manager::new();
    assert_eq!(apply(&mut m, "GlucoseHeartRateAdapter"), Ok(()));
    let a = adapter_of(&m);
    assert_eq!(a.devices.len(), 2);
    let glucose = &a.devices[0];
    assert_eq!(glucose.name.as_deref(), Some("Glucose Device"));
    assert_eq!(glucose.address, "00:00:00:00:00:01");
    assert!(glucose.connectable);
    assert_eq!(
        glucose.uuids,
        vec![
            "00001808-0000-1000-8000-00805f9b34fb".to_string(),
            "00001804-0000-1000-8000-00805f9b34fb".to_string(),
        ]
    );
    assert_eq!(glucose.services.len(), 0);
    let heart_rate = &a.devices[1];
    assert_eq!(heart_rate.name.as_deref(), Some("Heart Rate Device"));
    assert_eq!(heart_rate.address, "00:00:00:00:00:03");
    assert_eq!(heart_rate.services.len(), 0);
    assert_eq!(m.cache.issued_count(), 2);
}

#[test]
fn unicode_device_adapter_scenario() {
    let mut m = Manager::new();
    assert_eq!(apply(&mut m, "UnicodeDeviceAdapter"), Ok(()));
    let a = adapter_of(&m);
    assert_eq!(a.devices.len(), 1);
    let device = &a.devices[0];
    assert_eq!(device.name.as_deref(), Some("\u{2764}\u{2764}\u{2764}\u{2764}\u{2764}\u{2764}\u{2764}\u{2764}\u{2764}"));
    assert_eq!(device.address, "00:00:00:00:00:02");
    assert_eq!(device.uuids.len(), 0);
}

#[test]
fn missing_service_scenario_owns_no_service() {
    let mut m = Manager::new();
    assert_eq!(apply(&mut m, "MissingServiceHeartRateAdapter"), Ok(()));
    let a = adapter_of(&m);
    assert_eq!(a.devices.len(), 1);
    let device = &a.devices[0];
    assert_eq!(device.uuids.len(), 2);
    assert_eq!(device.services.len(), 0);
}

#[test]
fn missing_characteristic_scenario_owns_bare_services() {
    let mut m = Manager::new();
    assert_eq!(apply(&mut m, "MissingCharacteristicHeartRateAdapter"), Ok(()));
    let a = adapter_of(&m);
    let device = &a.devices[0];
    assert_eq!(device.services.len(), 2);
    assert_eq!(device.services[0].uuid, "00001800-0000-1000-8000-00805f9b34fb");
    assert_eq!(device.services[1].uuid, "0000180d-0000-1000-8000-00805f9b34fb");
    assert_eq!(device.services[0].characteristics.len(), 0);
    assert_eq!(device.services[1].characteristics.len(), 0);
}

#[test]
fn missing_descriptor_scenario_has_bare_device_name_characteristic() {
    let mut m = Manager::new();
    assert_eq!(apply(&mut m, "MissingDescriptorHeartRateAdapter"), Ok(()));
    let a = adapter_of(&m);
    let device = &a.devices[0];
    assert_eq!(device.services.len(), 2);
    let generic_access = &device.services[0];
    assert_eq!(generic_access.characteristics.len(), 2);
    let device_name = &generic_access.characteristics[0];
    assert_eq!(device_name.uuid, "00002a00-0000-1000-8000-00805f9b34fb");
    assert_eq!(device_name.descriptors.len(), 0);
    let privacy = &generic_access.characteristics[1];
    assert_eq!(privacy.uuid, "00002a02-0000-1000-8000-00805f9b34fb");
    assert_eq!(privacy.value, None);
}

#[test]
fn heart_rate_scenario_full_tree() {
    let mut m = Manager::new();
    assert_eq!(apply(&mut m, "HeartRateAdapter"), Ok(()));
    let a = adapter_of(&m);
    assert_eq!(a.name, "HeartRateAdapter");
    assert_eq!(a.devices.len(), 1);
    let device = &a.devices[0];
    assert_eq!(device.name.as_deref(), Some("Heart Rate Device"));
    assert_eq!(device.services.len(), 2);

    let generic_access = &device.services[0];
    assert_eq!(generic_access.uuid, "00001800-0000-1000-8000-00805f9b34fb");
    assert_eq!(generic_access.characteristics.len(), 2);
    let device_name = &generic_access.characteristics[0];
    assert_eq!(device_name.uuid, "00002a00-0000-1000-8000-00805f9b34fb");
    assert_eq!(device_name.value.as_deref(), Some("Heart Rate Device".as_bytes()));
    assert_eq!(device_name.flags, vec!["read".to_string(), "write".to_string()]);
    assert_eq!(device_name.descriptors.len(), 3);
    assert_eq!(device_name.descriptors[0].uuid, "00002909-0000-1000-8000-00805f9b34fb");
    assert_eq!(device_name.descriptors[0].value.as_deref(), Some(&[49u8, 49][..]));
    assert_eq!(device_name.descriptors[1].uuid, "00002901-0000-1000-8000-00805f9b34fb");
    assert_eq!(device_name.descriptors[1].value.as_deref(), Some(&[22u8, 33, 44, 55][..]));
    assert_eq!(device_name.descriptors[2].uuid, "00002902-0000-1000-8000-00805f9b34fb");
    assert_eq!(device_name.descriptors[2].value.as_deref(), Some(&[0u8, 0][..]));
    let privacy = &generic_access.characteristics[1];
    assert_eq!(privacy.uuid, "00002a02-0000-1000-8000-00805f9b34fb");
    assert_eq!(privacy.value, None);
    assert_eq!(privacy.flags, vec!["read".to_string(), "write".to_string()]);

    let heart_rate = &device.services[1];
    assert_eq!(heart_rate.uuid, "0000180d-0000-1000-8000-00805f9b34fb");
    assert_eq!(heart_rate.characteristics.len(), 3);
    assert_eq!(heart_rate.characteristics[0].uuid, "00002a37-0000-1000-8000-00805f9b34fb");
    assert_eq!(heart_rate.characteristics[0].value.as_deref(), Some(&[3u8][..]));
    assert_eq!(heart_rate.characteristics[1].uuid, "00002a38-0000-1000-8000-00805f9b34fb");
    assert_eq!(heart_rate.characteristics[1].value.as_deref(), Some(&[1u8][..]));
    assert_eq!(heart_rate.characteristics[2].uuid, "00002a38-0000-1000-8000-00805f9b34fb");
    assert_eq!(heart_rate.characteristics[2].value.as_deref(), Some(&[2u8][..]));

    assert_eq!(m.cache.issued_count(), 11);
}

#[test]
fn empty_name_and_no_name_scenarios_are_distinguishable() {
    let mut with_empty = Manager::new();
    assert_eq!(apply(&mut with_empty, "EmptyNameHeartRateAdapter"), Ok(()));
    let empty_device = &adapter_of(&with_empty).devices[0];
    assert_eq!(empty_device.name.as_deref(), Some(""));

    let mut with_none = Manager::new();
    assert_eq!(apply(&mut with_none, "NoNameHeartRateAdapter"), Ok(()));
    let nameless_device = &adapter_of(&with_none).devices[0];
    assert_eq!(nameless_device.name, None);

    assert_ne!(empty_device.name, nameless_device.name);
}

#[test]
fn two_heart_rate_services_scenario() {
    let mut m = Manager::new();
    assert_eq!(apply(&mut m, "TwoHeartRateServicesAdapter"), Ok(()));
    let device = &adapter_of(&m).devices[0];

    let heart_rate_uuid = "0000180d-0000-1000-8000-00805f9b34fb";
    let advertised: Vec<&String> =
        device.uuids.iter().filter(|u| u.as_str() == heart_rate_uuid).collect();
    assert_eq!(advertised.len(), 2);

    assert_eq!(device.services.len(), 3);
    let first = &device.services[1];
    let second = &device.services[2];
    assert_eq!(first.uuid, heart_rate_uuid);
    assert_eq!(second.uuid, heart_rate_uuid);
    assert_ne!(first.id, second.id);

    assert_eq!(first.characteristics.len(), 2);
    assert_eq!(first.characteristics[0].uuid, "00002a37-0000-1000-8000-00805f9b34fb");
    assert_eq!(first.characteristics[0].value.as_deref(), Some(&[3u8][..]));
    assert_eq!(first.characteristics[1].uuid, "00002a38-0000-1000-8000-00805f9b34fb");
    assert_eq!(first.characteristics[1].value.as_deref(), Some(&[1u8][..]));
    assert_eq!(second.characteristics.len(), 1);
    assert_eq!(second.characteristics[0].uuid, "00002a38-0000-1000-8000-00805f9b34fb");
    assert_eq!(second.characteristics[0].value.as_deref(), Some(&[2u8][..]));

    for c1 in &first.characteristics {
        for c2 in &second.characteristics {
            assert_ne!(c1.id, c2.id);
        }
    }
}

#[test]
fn blacklist_test_scenario() {
    let mut m = Manager::new();
    assert_eq!(apply(&mut m, "BlacklistTestAdapter"), Ok(()));
    let device = &adapter_of(&m).devices[0];
    assert_eq!(device.name.as_deref(), Some("Connectable Device"));
    assert_eq!(device.address, "00:00:00:00:00:04");
    assert_eq!(device.uuids.len(), 5);
    assert_eq!(device.services.len(), 5);

    let blacklist = &device.services[0];
    assert_eq!(blacklist.uuid, "611c954a-263b-4f4a-aab6-01ddb953f985");
    assert_eq!(blacklist.characteristics.len(), 1);
    let exclude_reads = &blacklist.characteristics[0];
    assert_eq!(exclude_reads.uuid, "bad1c9a2-9a5b-4015-8b60-1579bbbf2135");
    assert_eq!(exclude_reads.descriptors.len(), 2);
    assert_eq!(
        exclude_reads.descriptors[0].uuid,
        "aaaaaaaa-aaaa-1181-0510-810819516110"
    );
    assert_eq!(exclude_reads.descriptors[0].value.as_deref(), Some(&[54u8, 54, 54][..]));
    assert_eq!(
        exclude_reads.descriptors[1].uuid,
        "07711111-6104-0970-7011-1107105110aaa"
    );

    let device_information = &device.services[1];
    assert_eq!(device_information.uuid, "0000180a-0000-1000-8000-00805f9b34fb");
    assert_eq!(device_information.characteristics.len(), 1);
    assert_eq!(
        device_information.characteristics[0].uuid,
        "00002a25-0000-1000-8000-00805f9b34fb"
    );

    assert_eq!(device.services[2].uuid, "00001800-0000-1000-8000-00805f9b34fb");
    assert_eq!(device.services[3].uuid, "0000180d-0000-1000-8000-00805f9b34fb");
    assert_eq!(device.services[4].uuid, "00001812-0000-1000-8000-00805f9b34fb");
    assert_eq!(m.cache.issued_count(), 18);
}

#[test]
fn unknown_scenario_yields_error_and_builds_nothing() {
    let mut m = Manager::new();
    let r = apply(&mut m, "NoSuchAdapter");
    assert_eq!(r, Err(FixtureError::UnknownScenarioError));
    assert_eq!(m.cache.issued_count(), 0);
    let a = adapter_of(&m);
    assert_eq!(a.devices.len(), 0);
    assert_eq!(a.name, "");
}

#[test]
fn no_adapter_yields_error_before_any_construction() {
    let mut m = Manager::new_without_adapter();
    let r = apply(&mut m, "HeartRateAdapter");
    assert_eq!(r, Err(FixtureError::NoAdapterError));
    assert!(m.adapter.is_none());
    assert_eq!(m.cache.issued_count(), 0);
}

#[test]
fn identifiers_distinct_within_and_across_applications() {
    let mut m = Manager::new();
    assert_eq!(apply(&mut m, "HeartRateAdapter"), Ok(()));
    assert_eq!(apply(&mut m, "BlacklistTestAdapter"), Ok(()));
    let a = adapter_of(&m);
    // The second application appends its device next to the first one.
    assert_eq!(a.devices.len(), 2);
    let mut ids: Vec<u128> = Vec::new();
    for d in &a.devices {
        collect_device_ids(d, &mut ids);
    }
    assert_eq!(ids.len(), 29);
    assert_eq!(m.cache.issued_count(), 29);
    assert!(all_distinct(&ids));
}

#[test]
fn repeated_application_keeps_adapter_configuration_of_the_last() {
    let mut m = Manager::new();
    assert_eq!(apply(&mut m, "EmptyAdapter"), Ok(()));
    assert_eq!(apply(&mut m, "NotPoweredAdapter"), Ok(()));
    let a = adapter_of(&m);
    assert_eq!(a.name, "NotPoweredAdapter");
    assert!(!a.powered);
}
