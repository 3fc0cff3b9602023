use miband4::store::{ActivityGoal, BandConf, BandLock, Store};

#[test]
fn defaults_match_the_band_conventions() {
    let goal = ActivityGoal::default();
    assert!(goal.notifications);
    assert_eq!(goal.steps, 10000);
    let lock = BandLock::default();
    assert_eq!(lock.pin, "1234");
    assert!(!lock.enabled);
    let conf = BandConf::default();
    assert!(conf.auth_key.is_none());
    assert!(conf.activity_goal.is_none());
    assert!(conf.band_lock.is_none());
    assert!(conf.alias.is_none());
}

#[test]
fn get_band_creates_an_empty_record_once() {
    let mut store = Store::new();
    let conf = store.get_band(String::from("AA:BB"));
    assert!(conf.auth_key.is_none());
    conf.auth_key = Some(String::from("00112233445566778899aabbccddeeff"));
    assert_eq!(store.bands.len(), 1);
    let again = store.get_band(String::from("AA:BB"));
    assert_eq!(
        again.auth_key.as_deref(),
        Some("00112233445566778899aabbccddeeff")
    );
    assert_eq!(store.bands.len(), 1);
}

#[test]
fn records_for_different_bands_stay_apart() {
    let mut store = Store::new();
    store.get_band(String::from("AA")).alias = Some(String::from("left wrist"));
    store.get_band(String::from("BB")).alias = Some(String::from("right wrist"));
    assert_eq!(store.bands.len(), 2);
    assert_eq!(store.get_band(String::from("AA")).alias.as_deref(), Some("left wrist"));
    assert_eq!(store.get_band(String::from("BB")).alias.as_deref(), Some("right wrist"));
}

#[test]
fn alias_falls_back_to_the_address() {
    let mut store = Store::new();
    assert_eq!(store.get_band_alias("AA:BB"), "AA:BB");
    store.get_band(String::from("AA:BB")).alias = Some(String::from("mine"));
    assert_eq!(store.get_band_alias("AA:BB"), "mine");
    assert_eq!(store.get_band_alias("CC:DD"), "CC:DD");
}
