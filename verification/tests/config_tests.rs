use confetti::deploy::{TARGET_TRIPLE, build_plan_of_manifest};
use confetti::setup::{WpihalLookup, wpihal_version_of_metadata};
use confetti::toml_value::TomlValue;
use confetti::json_value::parse_json;
use confetti::toolchain::{
    CargoConfigError, ReleaseError, ToolchainAsset, toolchain_asset_of_releases,
    toolchain_pattern, update_config, updated_cargo_config,
};

fn parsed(text: &str) -> toml::Value {
    toml::from_str::<toml::Value>(text).expect("written configuration is TOML")
}

#[test]
fn build_plan_from_package_name() {
    let plan = build_plan_of_manifest(false, "[package]\nname = \"robot\"\nversion = \"0.1.0\"\n")
        .expect("manifest is TOML")
        .expect("manifest names a binary");
    assert_eq!(plan.binary_name, "robot");
    assert_eq!(plan.cargo_args, vec!["build", "--quiet", "--target", TARGET_TRIPLE, "--release"]);
    let plan = build_plan_of_manifest(true, "[package]\nname = \"robot\"\n").unwrap().unwrap();
    assert_eq!(plan.cargo_args, vec!["build", "--quiet", "--target", TARGET_TRIPLE]);
}

#[test]
fn build_plan_prefers_first_bin_of_manifest() {
    let text = "[package]\nname = \"pkg\"\n\n[[bin]]\nname = \"first\"\n\n[[bin]]\nname = \"second\"\n";
    let plan = build_plan_of_manifest(false, text).unwrap().unwrap();
    assert_eq!(plan.binary_name, "first");
}

#[test]
fn build_plan_none_when_manifest_names_no_binary() {
    assert!(build_plan_of_manifest(false, "[dependencies]\nlog = \"0.4\"\n").unwrap().is_none());
    assert!(build_plan_of_manifest(false, "bin = []\n[package]\nname = \"x\"\n").unwrap().is_none());
    assert!(build_plan_of_manifest(false, "[package]\nname = 3\n").unwrap().is_none());
    assert!(build_plan_of_manifest(false, "[[bin]]\npath = \"main.rs\"\n[package]\nname = \"x\"\n")
        .unwrap()
        .is_none());
}

#[test]
fn build_plan_rejects_text_that_is_not_toml() {
    assert!(build_plan_of_manifest(false, "[package\nname = ").is_err());
}

#[test]
fn fresh_cargo_config() {
    let text = updated_cargo_config(None, "/opt/gcc", false).unwrap();
    assert_eq!(
        text,
        "[target.arm-unknown-linux-gnueabi]\nlinker = \"/opt/gcc\"\n\n[build]\ntarget = \"arm-unknown-linux-gnueabi\"\n"
    );
}

#[test]
fn project_config_gets_build_target_and_linker() {
    let text = updated_cargo_config(Some(""), "/opt/gcc", false).unwrap();
    let value = parsed(&text);
    assert_eq!(value["build"]["target"].as_str(), Some("arm-unknown-linux-gnueabi"));
    assert_eq!(value["target"]["arm-unknown-linux-gnueabi"]["linker"].as_str(), Some("/opt/gcc"));
}

#[test]
fn global_config_gets_only_linker() {
    let text = updated_cargo_config(Some(""), "/opt/gcc", true).unwrap();
    let value = parsed(&text);
    assert!(value.get("build").is_none());
    assert_eq!(value["target"]["arm-unknown-linux-gnueabi"]["linker"].as_str(), Some("/opt/gcc"));
}

#[test]
fn existing_keys_are_kept() {
    let existing = "[alias]\nb = \"build\"\n\n[build]\njobs = 4\n\n[net]\nretry = 3\n";
    let text = updated_cargo_config(Some(existing), "/opt/gcc", false).unwrap();
    let value = parsed(&text);
    assert_eq!(value["alias"]["b"].as_str(), Some("build"));
    assert_eq!(value["net"]["retry"].as_integer(), Some(3));
    assert_eq!(value["build"]["target"].as_str(), Some("arm-unknown-linux-gnueabi"));
    assert!(value["build"].get("jobs").is_none());
    let global = parsed(&updated_cargo_config(Some(existing), "/opt/gcc", true).unwrap());
    assert_eq!(global["build"]["jobs"].as_integer(), Some(4));
}

#[test]
fn linker_set_under_target_key() {
    let existing = "[\"target.arm-unknown-linux-gnueabi\"]\nlinker = \"old\"\nrustflags = [\"-C\"]\n";
    let text = updated_cargo_config(Some(existing), "/opt/gcc", true).unwrap();
    let value = parsed(&text);
    let target = &value["target.arm-unknown-linux-gnueabi"];
    assert_eq!(target["linker"].as_str(), Some("/opt/gcc"));
    assert_eq!(target["rustflags"][0].as_str(), Some("-C"));
}

#[test]
fn target_entry_without_linker_is_refused() {
    let existing = "[\"target.arm-unknown-linux-gnueabi\"]\nrunner = \"x\"\n";
    assert!(matches!(
        updated_cargo_config(Some(existing), "/opt/gcc", true),
        Err(CargoConfigError::IndexNotFound)
    ));
}

#[test]
fn config_errors() {
    assert!(matches!(
        updated_cargo_config(Some("[build"), "/opt/gcc", false),
        Err(CargoConfigError::Parse(_))
    ));
    assert!(matches!(
        updated_cargo_config(Some(""), "/opt/\"gcc", false),
        Err(CargoConfigError::Parse(_))
    ));
    assert!(matches!(
        update_config(TomlValue::Text("x".to_string()), "/opt/gcc", false),
        Err(CargoConfigError::NotATable)
    ));
}

#[test]
fn wpihal_version_from_metadata() {
    let metadata = r#"{"packages":[{"name":"wpihal","version":"1.0.0"},{"name":"wpihal-sys","version":"2025.1.1"},{"name":"wpihal-sys","version":"9.9.9"}],"version":1}"#;
    assert_eq!(
        wpihal_version_of_metadata(metadata).unwrap(),
        WpihalLookup::Found("2025.1.1".to_string())
    );
    let later_unnamed = r#"{"packages":[{"name":"wpihal-sys","version":"3"},{"version":"1"}]}"#;
    assert_eq!(
        wpihal_version_of_metadata(later_unnamed).unwrap(),
        WpihalLookup::Found("3".to_string())
    );
}

#[test]
fn wpihal_not_found_in_metadata() {
    let metadata = r#"{"packages":[{"name":"wpihal","version":"1.0.0"}]}"#;
    assert_eq!(wpihal_version_of_metadata(metadata).unwrap(), WpihalLookup::NotFound);
    assert_eq!(wpihal_version_of_metadata(r#"{"packages":[]}"#).unwrap(), WpihalLookup::NotFound);
}

#[test]
fn malformed_metadata() {
    for metadata in [
        r#"{"packages":{}}"#,
        r#"{"workspace_members":[]}"#,
        r#"{"packages":[{"version":"1"},{"name":"wpihal-sys","version":"2"}]}"#,
        r#"{"packages":[{"name":"wpihal-sys","version":2}]}"#,
        r#"[1, 2]"#,
    ] {
        assert_eq!(wpihal_version_of_metadata(metadata).unwrap(), WpihalLookup::Malformed);
    }
    assert!(wpihal_version_of_metadata("{\"packages\": [").is_err());
}

fn releases(text: &str) -> confetti::json_value::JsonValue {
    parse_json(text).expect("release list is JSON")
}

#[test]
fn toolchain_asset_chosen_from_latest_release() {
    let pattern = toolchain_pattern("x86_64-linux-gnu", "tgz");
    let list = releases(
        r#"[{"tag_name":"v2025-1","assets":[
            {"name":"cortexa9_vfpv3-roborio-academic-2025-x86_64-w64-mingw32-Toolchain-12.1.0.zip","browser_download_url":"https://a/win"},
            {"name":"cortexa9_vfpv3-roborio-academic-2025-x86_64-linux-gnu-Toolchain-12.1.0.tgz","browser_download_url":"https://a/linux"},
            {"name":"cortexa9_vfpv3-roborio-academic-2025-x86_64-linux-gnu-Toolchain-12.1.0.tgz","browser_download_url":"https://a/second"}
        ]},{"tag_name":"v2024-1","assets":[]}]"#,
    );
    assert_eq!(
        toolchain_asset_of_releases(&list, &pattern).unwrap(),
        Some(ToolchainAsset {
            version: "v2025-1".to_string(),
            name: "cortexa9_vfpv3-roborio-academic-2025-x86_64-linux-gnu-Toolchain-12.1.0.tgz"
                .to_string(),
            url: "https://a/linux".to_string(),
        })
    );
    let unnamed_after_match = releases(
        r#"[{"tag_name":"v1","assets":[
            {"name":"cortexa9_vfpv3-roborio-academic-2025-x86_64-linux-gnu-Toolchain-1.tgz","browser_download_url":"u"},
            {"size":3}
        ]}]"#,
    );
    assert!(toolchain_asset_of_releases(&unnamed_after_match, &pattern).unwrap().is_some());
}

#[test]
fn no_toolchain_asset_matches() {
    let pattern = toolchain_pattern("x86_64-linux-gnu", "tgz");
    let list = releases(r#"[{"tag_name":"v1","assets":[{"name":"notes.txt","browser_download_url":"u"}]}]"#);
    assert_eq!(toolchain_asset_of_releases(&list, &pattern).unwrap(), None);
}

#[test]
fn malformed_release_lists() {
    let pattern = toolchain_pattern("x86_64-linux-gnu", "tgz");
    for text in [
        r#"[]"#,
        r#"{"tag_name":"v1","assets":[]}"#,
        r#"[{"assets":[]}]"#,
        r#"[{"tag_name":"v1"}]"#,
        r#"[{"tag_name":"v1","assets":[{"size":1},{"name":"cortexa9_vfpv3-roborio-academic-2025-x86_64-linux-gnu-Toolchain-1.tgz","browser_download_url":"u"}]}]"#,
        r#"[{"tag_name":"v1","assets":[{"name":"cortexa9_vfpv3-roborio-academic-2025-x86_64-linux-gnu-Toolchain-1.tgz"}]}]"#,
    ] {
        assert!(matches!(
            toolchain_asset_of_releases(&releases(text), &pattern),
            Err(ReleaseError::Malformed)
        ));
    }
}

#[test]
fn release_pattern_that_does_not_compile() {
    let list = releases(r#"[{"tag_name":"v1","assets":[{"name":"a","browser_download_url":"u"}]}]"#);
    assert!(matches!(
        toolchain_asset_of_releases(&list, "foo(bar"),
        Err(ReleaseError::Regex(_))
    ));
}
