use ice_launcher::error::Error;
use ice_launcher::extract::ArchiveFormat;
use ice_launcher::instances::InstancesView;
use ice_launcher::installers::is_installer_module;
use ice_launcher::rules::OsName;
use ice_launcher::runtime::{
    dec_string, get_java_path, release_dir_name, runtime_archive_format, AvailableReleases,
    Package,
};

#[test]
fn decimal_rendering() {
    assert_eq!(dec_string(0), "0");
    assert_eq!(dec_string(8), "8");
    assert_eq!(dec_string(17), "17");
    assert_eq!(dec_string(4294967295), "4294967295");
}

#[test]
fn release_dir_gets_jre_suffix() {
    assert_eq!(release_dir_name("jdk-17.0.2+8"), "jdk-17.0.2+8-jre");
}

#[test]
fn archive_format_follows_host_os() {
    assert_eq!(runtime_archive_format(&OsName::Windows), ArchiveFormat::Zip);
    assert_eq!(runtime_archive_format(&OsName::Linux), ArchiveFormat::TarGz);
    assert_eq!(runtime_archive_format(&OsName::Macos), ArchiveFormat::TarGz);
}

#[test]
fn java_path_found_per_os() {
    let runtimes = vec![String::from("jdk-17.0.2+8-jre")];
    assert_eq!(
        get_java_path(&runtimes, 17, &OsName::Linux).unwrap(),
        vec!["jdk-17.0.2+8-jre", "bin", "java"]
    );
    assert_eq!(
        get_java_path(&runtimes, 17, &OsName::Windows).unwrap(),
        vec!["jdk-17.0.2+8-jre", "bin", "java.exe"]
    );
    assert_eq!(
        get_java_path(&runtimes, 17, &OsName::Macos).unwrap(),
        vec!["jdk-17.0.2+8-jre", "Contents", "Home", "bin", "java"]
    );
}

#[test]
fn java_path_picks_first_matching_directory() {
    let runtimes = vec![
        String::from("jdk-11.0.1-jre"),
        String::from("jdk-17.0.2+8-jre"),
        String::from("jdk-17.0.5+1-jre"),
    ];
    assert_eq!(
        get_java_path(&runtimes, 17, &OsName::Linux).unwrap()[0],
        "jdk-17.0.2+8-jre"
    );
}

#[test]
fn missing_version_is_runtime_not_found() {
    let runtimes = vec![String::from("jdk-11.0.1-jre")];
    assert_eq!(
        get_java_path(&runtimes, 17, &OsName::Linux).unwrap_err(),
        Error::RuntimeNotFound
    );
    let empty: Vec<String> = Vec::new();
    assert_eq!(
        get_java_path(&empty, 17, &OsName::Linux).unwrap_err(),
        Error::RuntimeNotFound
    );
}

#[test]
fn release_feed_and_package_are_plain_data() {
    let releases = AvailableReleases {
        available_lts_releases: vec![8, 11, 17],
        available_releases: vec![8, 11, 16, 17, 18],
        most_recent_feature_release: 18,
        most_recent_feature_version: 19,
        most_recent_lts: 17,
        tip_version: 19,
    };
    assert_eq!(releases.available_lts_releases.len(), 3);
    assert_eq!(releases.most_recent_lts, 17);
    let package = Package {
        link: String::from("https://api.adoptium.example/jdk-17.tar.gz"),
        name: String::from("jdk-17.tar.gz"),
        size: 190000000,
    };
    assert_eq!(package.name, "jdk-17.tar.gz");
}

#[test]
fn instance_inventory_is_replaced_on_refresh() {
    let mut view = InstancesView::new();
    assert_eq!(view.count(), 0);
    view.refresh(vec![String::from("survival"), String::from("creative")]);
    assert_eq!(view.count(), 2);
    assert_eq!(view.instances, vec!["survival", "creative"]);
    view.refresh(Vec::new());
    assert_eq!(view.count(), 0);
}

#[test]
fn installer_modules_are_lua_files() {
    assert!(is_installer_module("installers/vanilla.lua"));
    assert!(!is_installer_module("installers/readme.md"));
    assert!(!is_installer_module("installers/vanilla.lua.bak"));
}
