use confetti::deploy::{CargoManifest, TARGET_TRIPLE, build, roborio_addresses};
use confetti::setup::{PackageEntry, find_wpihal_version, wpilib_installer};
use confetti::toolchain::{find_gcc, find_toolchain_asset, toolchain_host, toolchain_pattern};

#[test]
fn roborio_addresses_for_three_digit_team() {
    assert_eq!(
        roborio_addresses(254),
        vec!["172.22.11.2".to_string(), "roboRIO-254-frc.local".to_string(), "10.25.4.2".to_string()]
    );
}

#[test]
fn roborio_addresses_for_four_digit_team() {
    assert_eq!(roborio_addresses(1234)[1], "roboRIO-1234-frc.local");
    assert_eq!(roborio_addresses(1234)[2], "10.12.34.2");
    assert_eq!(roborio_addresses(10000)[2], "10.10.000.2");
}

#[test]
fn roborio_addresses_for_short_teams() {
    assert_eq!(roborio_addresses(5)[2], "10.5..2");
    assert_eq!(roborio_addresses(42)[2], "10.42..2");
    assert_eq!(roborio_addresses(0)[1], "roboRIO-0-frc.local");
    assert_eq!(roborio_addresses(u32::MAX)[1], "roboRIO-4294967295-frc.local");
}

#[test]
fn build_plan_release_and_debug() {
    let manifest = CargoManifest { bin_names: None, package_name: Some("robot".to_string()) };
    let plan = build(&false, &manifest);
    assert_eq!(plan.binary_name, "robot");
    assert_eq!(plan.cargo_args, vec!["build", "--quiet", "--target", TARGET_TRIPLE, "--release"]);
    let plan = build(&true, &manifest);
    assert_eq!(plan.cargo_args, vec!["build", "--quiet", "--target", "arm-unknown-linux-gnueabi"]);
}

#[test]
fn build_plan_prefers_first_bin_target() {
    let manifest = CargoManifest {
        bin_names: Some(vec![Some("first".to_string()), Some("second".to_string())]),
        package_name: Some("package".to_string()),
    };
    assert_eq!(build(&true, &manifest).binary_name, "first");
}

#[test]
fn wpilib_installer_for_linux() {
    let location = wpilib_installer("linux", "x86_64", "2025.3.2").expect("linux installer");
    assert_eq!(location.file_name, "WPILib_Linux-2025.3.2.tar.gz");
    assert_eq!(
        location.url,
        "https://packages.wpilib.workers.dev/installer/v2025.3.2/Linux/WPILib_Linux-2025.3.2.tar.gz"
    );
}

#[test]
fn wpilib_installer_for_other_hosts() {
    let mac = wpilib_installer("macos", "aarch64", "1.0").expect("mac installer");
    assert_eq!(mac.url, "https://packages.wpilib.workers.dev/installer/v1.0/macOSArm/WPILib_macOS-Arm64-1.0.dmg");
    let win = wpilib_installer("windows", "x86_64", "1.0").expect("windows installer");
    assert_eq!(win.file_name, "WPILib_Windows-1.0.iso");
    assert!(wpilib_installer("windows", "aarch64", "1.0").is_none());
    assert!(wpilib_installer("freebsd", "x86_64", "1.0").is_none());
}

#[test]
fn finds_wpihal_sys_version() {
    let packages = vec![
        PackageEntry { name: Some("wpihal".to_string()), version: None },
        PackageEntry { name: Some("wpihal-sys".to_string()), version: Some("2025.1.1".to_string()) },
        PackageEntry { name: Some("wpihal-sys".to_string()), version: Some("9.9.9".to_string()) },
    ];
    assert_eq!(find_wpihal_version(&packages), Some("2025.1.1".to_string()));
    let only_wpihal = vec![PackageEntry { name: Some("wpihal".to_string()), version: None }];
    assert_eq!(find_wpihal_version(&only_wpihal), None);
}

#[test]
fn toolchain_hosts() {
    assert_eq!(
        toolchain_host("linux", "x86_64"),
        Some(("x86_64-linux-gnu".to_string(), "tgz".to_string()))
    );
    assert_eq!(
        toolchain_host("windows", "x86_64"),
        Some(("x86_64-w64-mingw32".to_string(), "zip".to_string()))
    );
    assert_eq!(
        toolchain_host("macos", "aarch64"),
        Some(("arm64-apple-darwin".to_string(), "tgz".to_string()))
    );
    assert_eq!(toolchain_host("linux", "riscv64"), None);
}

#[test]
fn toolchain_pattern_text() {
    assert_eq!(
        toolchain_pattern("x86_64-linux-gnu", "tgz"),
        "cortexa9_vfpv3-roborio-academic-20\\d\\d-x86_64-linux-gnu-Toolchain-.+\\.tgz$"
    );
}

#[test]
fn finds_matching_toolchain_asset() {
    let pattern = toolchain_pattern("x86_64-linux-gnu", "tgz");
    let names = vec![
        "cortexa9_vfpv3-roborio-academic-2025-arm64-apple-darwin-Toolchain-12.1.0.tgz".to_string(),
        "cortexa9_vfpv3-roborio-academic-2025-x86_64-linux-gnu-Toolchain-12.1.0.tgz.sha256".to_string(),
        "cortexa9_vfpv3-roborio-academic-2025-x86_64-linux-gnu-Toolchain-12.1.0.tgz".to_string(),
    ];
    assert_eq!(find_toolchain_asset(&names, &pattern).unwrap(), Some(2));
    assert_eq!(find_toolchain_asset(&names[..2].to_vec(), &pattern).unwrap(), None);
    assert_eq!(find_toolchain_asset(&vec![], &pattern).unwrap(), None);
}

#[test]
fn invalid_pattern_is_an_error() {
    let names = vec!["anything".to_string()];
    assert!(find_toolchain_asset(&names, "foo(bar").is_err());
    assert!(find_toolchain_asset(&vec![], "foo(bar").is_err());
}

#[test]
fn finds_gcc_in_toolchain_bin() {
    let names = vec![
        "arm-frc2025-linux-gnueabi-g++".to_string(),
        "arm-frc2025-linux-gnueabi-gcc".to_string(),
        "gcc".to_string(),
    ];
    assert_eq!(find_gcc(&names), Some(1));
    assert_eq!(find_gcc(&vec!["ld".to_string(), "gcc-ar".to_string()]), None);
}

#[test]
fn addresses_spell_the_team_number() {
    for team in [0u32, 7, 42, 254, 1678, 10000, 4294967295] {
        let addresses = roborio_addresses(team);
        let mdns = addresses[1].strip_prefix("roboRIO-").unwrap().strip_suffix("-frc.local").unwrap();
        assert_eq!(mdns.parse::<u32>().unwrap(), team);
        let octets: Vec<&str> = addresses[2].split('.').collect();
        assert_eq!(octets.len(), 4);
        assert_eq!(format!("{}{}", octets[1], octets[2]), team.to_string());
    }
}
