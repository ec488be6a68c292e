use ice_launcher::assets::{AssetEntry, AssetIndex, AssetIndexInfo, Object};

const DIGEST: &str = "a9993e364706816aba3e25717850c26c9cd0d89d";

#[test]
fn object_path_is_sharded_by_first_two_hex_chars() {
    let object = Object { hash: String::from(DIGEST) };
    assert_eq!(
        object.get_path(),
        "assets/objects/a9/a9993e364706816aba3e25717850c26c9cd0d89d"
    );
}

#[test]
fn object_url_uses_the_same_shard() {
    let object = Object { hash: String::from(DIGEST) };
    assert_eq!(
        object.get_url(),
        "https://resources.download.minecraft.net/a9/a9993e364706816aba3e25717850c26c9cd0d89d"
    );
}

#[test]
fn index_info_path_is_under_indexes_dir() {
    let info = AssetIndexInfo {
        id: String::from("1.19"),
        sha1: String::from(DIGEST),
        size: 1234,
        total_size: Some(567890),
        url: String::from("https://launchermeta.example/1.19.json"),
    };
    assert_eq!(info.get_path(), "assets/indexes/1.19.json");
}

#[test]
fn index_info_download_item_checks_sha1() {
    let info = AssetIndexInfo {
        id: String::from("1.19"),
        sha1: String::from(DIGEST),
        size: 1234,
        total_size: None,
        url: String::from("https://launchermeta.example/1.19.json"),
    };
    let item = info.download_item();
    assert_eq!(item.url, "https://launchermeta.example/1.19.json");
    assert_eq!(item.path, "assets/indexes/1.19.json");
    assert_eq!(item.hash.as_deref(), Some(DIGEST));
    assert_eq!(item.hash_function.as_deref(), Some("sha1"));
    assert!(!item.extract);
}

#[test]
fn download_plan_covers_every_object_in_order() {
    let other = "da39a3ee5e6b4b0d3255bfef95601890afd80709";
    let index = AssetIndex {
        objects: vec![
            AssetEntry {
                name: String::from("minecraft/sounds/ambient.ogg"),
                object: Object { hash: String::from(DIGEST) },
            },
            AssetEntry {
                name: String::from("minecraft/lang/en_us.json"),
                object: Object { hash: String::from(other) },
            },
        ],
    };
    assert!(index.check());
    assert_eq!(index.object_count(), 2);
    let plan = index.download_plan();
    assert_eq!(plan.len(), 2);
    assert_eq!(
        plan[0].url,
        "https://resources.download.minecraft.net/a9/a9993e364706816aba3e25717850c26c9cd0d89d"
    );
    assert_eq!(
        plan[0].path,
        "assets/objects/a9/a9993e364706816aba3e25717850c26c9cd0d89d"
    );
    assert_eq!(plan[0].hash.as_deref(), Some(DIGEST));
    assert_eq!(plan[0].hash_function.as_deref(), Some("sha1"));
    assert!(!plan[0].extract);
    assert_eq!(
        plan[1].path,
        "assets/objects/da/da39a3ee5e6b4b0d3255bfef95601890afd80709"
    );
}

#[test]
fn check_rejects_a_digest_too_short_to_shard() {
    let index = AssetIndex {
        objects: vec![AssetEntry {
            name: String::from("broken"),
            object: Object { hash: String::from("a") },
        }],
    };
    assert!(!index.check());
}
