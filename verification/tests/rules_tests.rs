use ice_launcher::libraries::{Artifact, LibrariesExt, Library, LibraryDownloads};
use ice_launcher::rules::{
    is_rule_list_valid, natives_token, rule_applies, ArchName, OsName, Platform, Rule, RuleAction,
};

fn linux_arm() -> Platform {
    Platform { os: OsName::Linux, arch: ArchName::Arm }
}

fn linux_x86() -> Platform {
    Platform { os: OsName::Linux, arch: ArchName::X86_64 }
}

#[test]
fn last_match_wins() {
    let rules = vec![
        Rule { action: RuleAction::Allow, os: Some(OsName::Linux), arch: None },
        Rule {
            action: RuleAction::Disallow,
            os: Some(OsName::Linux),
            arch: Some(ArchName::Arm),
        },
    ];
    assert!(!is_rule_list_valid(&rules, &linux_arm()));
    assert!(is_rule_list_valid(&rules, &linux_x86()));
}

#[test]
fn empty_rule_list_allows() {
    let rules: Vec<Rule> = Vec::new();
    assert!(is_rule_list_valid(&rules, &linux_arm()));
}

#[test]
fn unconditional_disallow_wins_over_earlier_allow() {
    let rules = vec![
        Rule { action: RuleAction::Allow, os: None, arch: None },
        Rule { action: RuleAction::Disallow, os: None, arch: None },
    ];
    assert!(!is_rule_list_valid(&rules, &linux_x86()));
}

#[test]
fn non_matching_rules_leave_default_allow() {
    let rules = vec![Rule {
        action: RuleAction::Disallow,
        os: Some(OsName::Windows),
        arch: None,
    }];
    assert!(is_rule_list_valid(&rules, &linux_x86()));
}

#[test]
fn rule_condition_matching() {
    let rule = Rule {
        action: RuleAction::Allow,
        os: Some(OsName::Macos),
        arch: Some(ArchName::Aarch64),
    };
    let mac_arm = Platform { os: OsName::Macos, arch: ArchName::Aarch64 };
    let mac_x86 = Platform { os: OsName::Macos, arch: ArchName::X86_64 };
    assert!(rule_applies(&rule, &mac_arm));
    assert!(!rule_applies(&rule, &mac_x86));
}

#[test]
fn natives_tokens_per_platform() {
    assert_eq!(natives_token(&linux_x86()), "natives-linux");
    assert_eq!(
        natives_token(&Platform { os: OsName::Windows, arch: ArchName::X86_64 }),
        "natives-windows"
    );
    assert_eq!(
        natives_token(&Platform { os: OsName::Macos, arch: ArchName::X86_64 }),
        "natives-macos"
    );
    assert_eq!(
        natives_token(&Platform { os: OsName::Macos, arch: ArchName::Aarch64 }),
        "natives-macos-arm64"
    );
}

fn plain_artifact(path: &str) -> Artifact {
    Artifact {
        path: String::from(path),
        sha1: String::from("0000000000000000000000000000000000000000"),
        size: 10,
        url: String::from("https://libraries.example/a.jar"),
    }
}

#[test]
fn artifact_natives_marker_must_match_platform() {
    let foreign = plain_artifact("org/lwjgl/lwjgl-natives-windows.jar");
    let native = plain_artifact("org/lwjgl/lwjgl-natives-linux.jar");
    let plain = plain_artifact("org/lwjgl/lwjgl.jar");
    assert!(!foreign.is_valid(&linux_x86()));
    assert!(native.is_valid(&linux_x86()));
    assert!(plain.is_valid(&linux_x86()));
}

#[test]
fn artifact_arch_token_must_match_platform() {
    let x86_classified = plain_artifact("io/netty/netty-transport-epoll-x86_64.jar");
    assert!(x86_classified.is_valid(&linux_x86()));
    assert!(!x86_classified.is_valid(&linux_arm()));
    let arm_classified = plain_artifact("io/netty/netty-transport-epoll-aarch_64.jar");
    assert!(!arm_classified.is_valid(&linux_x86()));
    let mac_arm = Platform { os: OsName::Macos, arch: ArchName::Aarch64 };
    let arm_native = plain_artifact("io/netty/netty-natives-macos-arm64-aarch_64.jar");
    assert!(arm_native.is_valid(&mac_arm));
}

#[test]
fn artifact_get_path_prefixes_libraries_dir() {
    let a = plain_artifact("org/ow2/asm/asm/9.3/asm-9.3.jar");
    assert_eq!(a.get_path(), "libraries/org/ow2/asm/asm/9.3/asm-9.3.jar");
}

fn library(path: &str, rules: Option<Vec<Rule>>) -> Library {
    Library { downloads: LibraryDownloads { artifact: plain_artifact(path), rules } }
}

#[test]
fn library_validity_combines_artifact_and_rules() {
    let disallow_arm = vec![
        Rule { action: RuleAction::Allow, os: Some(OsName::Linux), arch: None },
        Rule {
            action: RuleAction::Disallow,
            os: Some(OsName::Linux),
            arch: Some(ArchName::Arm),
        },
    ];
    let lib = library("org/lwjgl/lwjgl.jar", Some(disallow_arm));
    assert!(lib.is_valid(&linux_x86()));
    assert!(!lib.is_valid(&linux_arm()));
    let unruled = library("org/lwjgl/lwjgl.jar", None);
    assert!(unruled.is_valid(&linux_arm()));
}

#[test]
fn get_valid_libraries_keeps_exactly_the_applicable_ones() {
    let libs = vec![
        library("a/a.jar", None),
        library("b/b-natives-windows.jar", None),
        library(
            "c/c.jar",
            Some(vec![Rule { action: RuleAction::Disallow, os: Some(OsName::Linux), arch: None }]),
        ),
        library("d/d-natives-linux.jar", None),
    ];
    let kept = libs.get_valid_libraries(&linux_x86());
    assert_eq!(kept.len(), 2);
    assert_eq!(kept[0].downloads.artifact.path, "a/a.jar");
    assert_eq!(kept[1].downloads.artifact.path, "d/d-natives-linux.jar");
}

#[test]
fn library_download_item_carries_descriptor() {
    let lib = library("a/a.jar", None);
    let item = lib.download_item();
    assert_eq!(item.url, "https://libraries.example/a.jar");
    assert_eq!(item.path, "libraries/a/a.jar");
    assert_eq!(item.hash.as_deref(), Some("0000000000000000000000000000000000000000"));
    assert_eq!(item.hash_function.as_deref(), Some("sha1"));
    assert!(!item.extract);
}
