use rusty_pods::dbus::{DbusAirpodsBattery, DbusAirpodsCharging, DbusAirpodsInfo, DbusAirpodsModel};
use rusty_pods::info::{
    AirpodsBattery, AirpodsCharging, AirpodsInEar, AirpodsInfo, AirpodsModel, BEACON_LEN,
};
use rusty_pods::snapshot::{SnapshotStore, BEACON_VENDOR_ID};

fn pro_info(left: u8) -> AirpodsInfo {
    AirpodsInfo {
        battery: AirpodsBattery::Pods { left: Some(left), right: Some(40), case: None },
        charging: AirpodsCharging::Pods { left: true, right: false, case: true },
        ears: Some(AirpodsInEar { left: false, right: true }),
        model: AirpodsModel::AirpodsPro,
    }
}

fn max_info() -> AirpodsInfo {
    AirpodsInfo {
        battery: AirpodsBattery::Single { charge: Some(70) },
        charging: AirpodsCharging::Single(true),
        ears: None,
        model: AirpodsModel::AirpodsMax,
    }
}

/// A payload for a dual model with every battery at 100%.
fn good_payload() -> Vec<u8> {
    let mut data = vec![0u8; BEACON_LEN];
    data[3] = 0x0E;
    data[5] = 0x20;
    data[6] = 0xAA;
    data[7] = 0x0A;
    data
}

#[test]
fn last_replace_wins() {
    let mut store = SnapshotStore::new();
    assert_eq!(store.read(), None);
    store.replace(pro_info(10));
    assert_eq!(store.read(), Some(pro_info(10)));
    let mut bad = good_payload();
    bad[6] = 0xB0;
    assert!(!store.update_from_manufacturer_data(BEACON_VENDOR_ID, &bad));
    assert_eq!(store.read(), Some(pro_info(10)));
    store.replace(max_info());
    assert_eq!(store.read(), Some(max_info()));
}

#[test]
fn decoded_payload_replaces_snapshot() {
    let mut store = SnapshotStore::new();
    store.replace(max_info());
    assert!(store.update_from_manufacturer_data(BEACON_VENDOR_ID, &good_payload()));
    let info = store.read().unwrap();
    assert_eq!(info.model, AirpodsModel::AirpodsPro);
    assert_eq!(
        info.battery,
        AirpodsBattery::Pods { left: Some(100), right: Some(100), case: Some(100) }
    );
}

#[test]
fn other_vendor_and_short_payload_are_ignored() {
    let mut store = SnapshotStore::new();
    assert!(!store.update_from_manufacturer_data(6, &good_payload()));
    assert_eq!(store.read(), None);
    assert!(!store.update_from_manufacturer_data(BEACON_VENDOR_ID, &good_payload()[..26]));
    assert_eq!(store.read(), None);
}

#[test]
fn empty_store_projects_nothing() {
    let store = SnapshotStore::new();
    assert_eq!(store.info(), None);
    assert_eq!(store.battery(), None);
    assert_eq!(store.charging(), None);
    assert_eq!(store.in_ears(), None);
    assert_eq!(store.model(), None);
}

#[test]
fn projections_of_dual_model() {
    let mut store = SnapshotStore::new();
    store.replace(pro_info(60));
    let battery = DbusAirpodsBattery { single: None, left: Some(60), right: Some(40), case: None };
    let charging =
        DbusAirpodsCharging { single: None, left: Some(true), right: Some(false), case: Some(true) };
    assert_eq!(store.battery(), Some(battery));
    assert_eq!(store.charging(), Some(charging));
    assert_eq!(store.in_ears(), Some(AirpodsInEar { left: false, right: true }));
    assert_eq!(store.model(), Some(DbusAirpodsModel::AirpodsPro));
    assert_eq!(
        store.info(),
        Some(DbusAirpodsInfo {
            battery,
            charging,
            ears: Some(AirpodsInEar { left: false, right: true }),
            model: DbusAirpodsModel::AirpodsPro,
        })
    );
}

#[test]
fn projections_of_single_unit() {
    let mut store = SnapshotStore::new();
    store.replace(max_info());
    assert_eq!(
        store.battery(),
        Some(DbusAirpodsBattery { single: Some(70), left: None, right: None, case: None })
    );
    assert_eq!(
        store.charging(),
        Some(DbusAirpodsCharging { single: Some(true), left: None, right: None, case: None })
    );
    assert_eq!(store.in_ears(), None);
    assert_eq!(store.model(), Some(DbusAirpodsModel::AirpodsMax));
}

#[test]
fn unknown_model_is_published_without_code() {
    assert_eq!(DbusAirpodsModel::from(AirpodsModel::Unknown(7)), DbusAirpodsModel::Unknown);
    assert_eq!(DbusAirpodsModel::from(AirpodsModel::BeatsFlex), DbusAirpodsModel::BeatsFlex);
    assert_eq!(DbusAirpodsModel::from(AirpodsModel::Powerbeats3), DbusAirpodsModel::Powerbeats3);
}

#[test]
fn published_defaults_are_empty() {
    let info = DbusAirpodsInfo::default();
    let empty_battery = DbusAirpodsBattery { single: None, left: None, right: None, case: None };
    let empty_charging = DbusAirpodsCharging { single: None, left: None, right: None, case: None };
    assert_eq!(info.battery, empty_battery);
    assert_eq!(info.charging, empty_charging);
    assert_eq!(info.ears, None);
    assert_eq!(info.model, DbusAirpodsModel::Unknown);
    assert_eq!(DbusAirpodsBattery::default(), empty_battery);
    assert_eq!(DbusAirpodsCharging::default(), empty_charging);
    assert_eq!(DbusAirpodsModel::default(), DbusAirpodsModel::Unknown);
}

#[test]
fn conversion_moves_fields() {
    assert_eq!(
        DbusAirpodsBattery::from(AirpodsBattery::Single { charge: None }),
        DbusAirpodsBattery { single: None, left: None, right: None, case: None }
    );
    assert_eq!(
        DbusAirpodsCharging::from(AirpodsCharging::Single(false)),
        DbusAirpodsCharging { single: Some(false), left: None, right: None, case: None }
    );
    let info = DbusAirpodsInfo::from(max_info());
    assert_eq!(info.model, DbusAirpodsModel::AirpodsMax);
    assert_eq!(info.battery.single, Some(70));
    assert_eq!(info.charging.single, Some(true));
}
