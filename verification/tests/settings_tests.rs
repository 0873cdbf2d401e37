use lock_rs::settings::SettingMap;

#[test]
fn a_first_read_stores_its_default() {
    let mut m: SettingMap<u32> = SettingMap::new();
    assert_eq!(m.get("fov"), None);
    assert_eq!(m.get_or_insert("fov", 100), 100);
    assert_eq!(m.get("fov"), Some(100));
    assert_eq!(m.get_or_insert("fov", 7), 100);
    assert_eq!(m.entries.len(), 1);
}

#[test]
fn a_setting_reads_back_what_was_stored() {
    let mut m: SettingMap<bool> = SettingMap::new();
    m.set("esp_enabled", true);
    assert_eq!(m.get_or_insert("esp_enabled", false), true);
    m.set("esp_enabled", false);
    assert_eq!(m.get("esp_enabled"), Some(false));
    assert_eq!(m.entries.len(), 1);
}

#[test]
fn storing_one_name_leaves_the_others() {
    let mut m: SettingMap<usize> = SettingMap::new();
    m.set("a", 1);
    m.set("b", 2);
    m.set("a", 3);
    assert_eq!(m.get("a"), Some(3));
    assert_eq!(m.get("b"), Some(2));
    assert_eq!(m.get("c"), None);
}
