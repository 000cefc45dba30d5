use vmm_devices::jail::default_id_map;
use vmm_devices::jail::jail_settings;
use vmm_devices::jail::serving_securebits;
use vmm_devices::jail::JailSetting;

fn words(settings: &[JailSetting]) -> Vec<String> {
    settings.iter().map(|s| format!("{:?}", s)).collect()
}

#[test]
fn default_maps_name_one_identity() {
    assert_eq!(default_id_map(0), "0 0 1");
    assert_eq!(default_id_map(1000), "1000 1000 1");
    assert_eq!(default_id_map(u32::MAX), "4294967295 4294967295 1");
}

#[test]
fn settings_for_the_root_directory_as_root() {
    let settings = jail_settings("/".to_string(), 0, 0, None, None, 1000, 1001, 4096);
    assert_eq!(
        words(&settings),
        vec![
            "NamespacePids",
            "NamespaceUser",
            "NamespaceUserDisableSetgroups",
            "UidMap(\"1000 1000 1\")",
            "GidMap(\"1001 1001 1\")",
            "RunAsInit",
            "NamespaceVfs",
            "NamespaceNet",
            "NoNewPrivs",
            "SetRemountMode(524288)",
            "SetRlimit { kind: 7, cur: 4096, max: 4096 }",
            "SetRlimit { kind: 8, cur: 1048576, max: 1048576 }",
        ]
    );
}

#[test]
fn settings_for_a_shared_directory_as_a_user() {
    let settings = jail_settings(
        "/srv/share".to_string(),
        5,
        6,
        Some("0 5 1".to_string()),
        Some("0 6 1".to_string()),
        1000,
        1001,
        1024,
    );
    assert_eq!(
        words(&settings),
        vec![
            "NamespacePids",
            "NamespaceUser",
            "NamespaceUserDisableSetgroups",
            "ChangeUid(5)",
            "ChangeGid(6)",
            "UidMap(\"0 5 1\")",
            "GidMap(\"0 6 1\")",
            "RunAsInit",
            "NamespaceVfs",
            "NamespaceNet",
            "NoNewPrivs",
            "NamespaceVfs",
            "EnterPivotRoot(\"/srv/share\")",
            "SetRemountMode(524288)",
            "SetRlimit { kind: 7, cur: 1024, max: 1024 }",
            "SetRlimit { kind: 8, cur: 1048576, max: 1048576 }",
        ]
    );
}

#[test]
fn the_serving_process_keeps_its_capabilities() {
    assert_eq!(serving_securebits(0), 4);
    assert_eq!(serving_securebits(0b1011), 0b1111);
    assert_eq!(serving_securebits(4), 4);
}
