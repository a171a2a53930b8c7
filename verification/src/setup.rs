//! Finding the HAL version in use and the WPILib installer that matches it.

use vstd::prelude::*;
use vstd::string::*;

use crate::json_value::{JsonValue, field_text, get, json_document, json_field_str, json_get, parse_json};
use crate::text::str_equal;

verus! {

/// The WPILib installer published for a host, named by its download directory, its host
/// string and its file extension.
pub open spec fn installer_kind(os: Seq<char>, arch: Seq<char>) -> Option<
    (Seq<char>, Seq<char>, Seq<char>),
> {
    if os == "linux"@ && arch == "aarch64"@ {
        Some(("LinuxArm64"@, "LinuxArm64"@, "tar.gz"@))
    } else if os == "linux"@ && arch == "x86_64"@ {
        Some(("Linux"@, "Linux"@, "tar.gz"@))
    } else if os == "windows"@ && arch == "x86_64"@ {
        Some(("Win64"@, "Windows"@, "iso"@))
    } else if os == "macos"@ && arch == "x86_64"@ {
        Some(("macOS"@, "macOS-Intel"@, "dmg"@))
    } else if os == "macos"@ && arch == "aarch64"@ {
        Some(("macOSArm"@, "macOS-Arm64"@, "dmg"@))
    } else {
        None
    }
}

/// The installers of the supported hosts are all different: two hosts get the same download
/// directory, or the same host string, only when they are the same host, so no host is given
/// another's installer.
pub proof fn lemma_installer_hosts_distinct(
    os1: Seq<char>,
    arch1: Seq<char>,
    os2: Seq<char>,
    arch2: Seq<char>,
)
    requires
        installer_kind(os1, arch1) matches Some(first) && installer_kind(os2, arch2) matches Some(
            second,
        ) && (first.0 == second.0 || first.1 == second.1),
    ensures
        os1 == os2,
        arch1 == arch2,
{
    reveal_strlit("Linux");
    reveal_strlit("LinuxArm64");
    reveal_strlit("Win64");
    reveal_strlit("Windows");
    reveal_strlit("aarch64");
    reveal_strlit("dmg");
    reveal_strlit("iso");
    reveal_strlit("linux");
    reveal_strlit("macOS");
    reveal_strlit("macOS-Arm64");
    reveal_strlit("macOS-Intel");
    reveal_strlit("macOSArm");
    reveal_strlit("macos");
    reveal_strlit("tar.gz");
    reveal_strlit("windows");
    reveal_strlit("x86_64");
    assert("linux"@.len() != "windows"@.len());
    assert("linux"@[0] != "macos"@[0]);
    assert("windows"@.len() != "macos"@.len());
    assert("aarch64"@.len() != "x86_64"@.len());
    assert("LinuxArm64"@.len() != "Linux"@.len());
    assert("LinuxArm64"@.len() != "Win64"@.len());
    assert("LinuxArm64"@.len() != "macOS"@.len());
    assert("LinuxArm64"@.len() != "macOSArm"@.len());
    assert("Linux"@[0] != "Win64"@[0]);
    assert("Linux"@[0] != "macOS"@[0]);
    assert("Linux"@.len() != "macOSArm"@.len());
    assert("Win64"@[0] != "macOS"@[0]);
    assert("Win64"@.len() != "macOSArm"@.len());
    assert("macOS"@.len() != "macOSArm"@.len());
    assert("LinuxArm64"@.len() != "Linux"@.len());
    assert("LinuxArm64"@.len() != "Windows"@.len());
    assert("LinuxArm64"@.len() != "macOS-Intel"@.len());
    assert("LinuxArm64"@.len() != "macOS-Arm64"@.len());
    assert("Linux"@.len() != "Windows"@.len());
    assert("Linux"@.len() != "macOS-Intel"@.len());
    assert("Linux"@.len() != "macOS-Arm64"@.len());
    assert("Windows"@.len() != "macOS-Intel"@.len());
    assert("Windows"@.len() != "macOS-Arm64"@.len());
    assert("macOS-Intel"@[6] != "macOS-Arm64"@[6]);
}

/// Where the WPILib installer for a host and a release lives.
pub struct InstallerLocation {
    pub file_name: String,
    pub url: String,
}

/// The WPILib installer of release `version` for the host `os`/`arch`: its file name
/// `WPILib_{host}-{version}.{extension}` and its URL under
/// `https://packages.wpilib.workers.dev/installer/v{version}/{directory}/`. `None` when no
/// installer is provided for the host.
pub fn wpilib_installer(os: &str, arch: &str, version: &str) -> (res: Option<InstallerLocation>)
    ensures
        installer_kind(os@, arch@) is None ==> res is None,
        installer_kind(os@, arch@) matches Some((directory, host, extension)) ==> (res matches Some(
            location,
        ) && location.file_name@ == "WPILib_"@ + host + "-"@ + version@ + "."@ + extension
            && location.url@ == "https://packages.wpilib.workers.dev/installer/v"@ + version@
            + "/"@ + directory + "/"@ + location.file_name@),
        os@ == "linux"@ && arch@ == "aarch64"@ ==> (res matches Some(location) && location.file_name@
            == "WPILib_"@ + "LinuxArm64"@ + "-"@ + version@ + "."@ + "tar.gz"@ && location.url@
            == "https://packages.wpilib.workers.dev/installer/v"@ + version@ + "/"@ + "LinuxArm64"@ + "/"@
            + location.file_name@),
        os@ == "linux"@ && arch@ == "x86_64"@ ==> (res matches Some(location) && location.file_name@
            == "WPILib_"@ + "Linux"@ + "-"@ + version@ + "."@ + "tar.gz"@ && location.url@
            == "https://packages.wpilib.workers.dev/installer/v"@ + version@ + "/"@ + "Linux"@ + "/"@
            + location.file_name@),
        os@ == "windows"@ && arch@ == "x86_64"@ ==> (res matches Some(location) && location.file_name@
            == "WPILib_"@ + "Windows"@ + "-"@ + version@ + "."@ + "iso"@ && location.url@
            == "https://packages.wpilib.workers.dev/installer/v"@ + version@ + "/"@ + "Win64"@ + "/"@
            + location.file_name@),
        os@ == "macos"@ && arch@ == "x86_64"@ ==> (res matches Some(location) && location.file_name@
            == "WPILib_"@ + "macOS-Intel"@ + "-"@ + version@ + "."@ + "dmg"@ && location.url@
            == "https://packages.wpilib.workers.dev/installer/v"@ + version@ + "/"@ + "macOS"@ + "/"@
            + location.file_name@),
        os@ == "macos"@ && arch@ == "aarch64"@ ==> (res matches Some(location) && location.file_name@
            == "WPILib_"@ + "macOS-Arm64"@ + "-"@ + version@ + "."@ + "dmg"@ && location.url@
            == "https://packages.wpilib.workers.dev/installer/v"@ + version@ + "/"@ + "macOSArm"@ + "/"@
            + location.file_name@),
{
    proof {
        reveal_strlit("linux");
        reveal_strlit("windows");
        reveal_strlit("macos");
        reveal_strlit("aarch64");
        reveal_strlit("x86_64");
        assert("linux"@.len() != "windows"@.len());
        assert("linux"@[0] != "macos"@[0]);
        assert("windows"@.len() != "macos"@.len());
        assert("aarch64"@.len() != "x86_64"@.len());
    }
    let is_linux = str_equal(os, "linux");
    let is_windows = str_equal(os, "windows");
    let is_macos = str_equal(os, "macos");
    let is_aarch64 = str_equal(arch, "aarch64");
    let is_x86_64 = str_equal(arch, "x86_64");
    let (directory, host_string, extension): (&str, &str, &str) = if is_linux && is_aarch64 {
        ("LinuxArm64", "LinuxArm64", "tar.gz")
    } else if is_linux && is_x86_64 {
        ("Linux", "Linux", "tar.gz")
    } else if is_windows && is_x86_64 {
        ("Win64", "Windows", "iso")
    } else if is_macos && is_x86_64 {
        ("macOS", "macOS-Intel", "dmg")
    } else if is_macos && is_aarch64 {
        ("macOSArm", "macOS-Arm64", "dmg")
    } else {
        return None;
    };
    let mut file_name = String::from_str("WPILib_");
    file_name.append(host_string);
    file_name.append("-");
    file_name.append(version);
    file_name.append(".");
    file_name.append(extension);
    let mut url = String::from_str("https://packages.wpilib.workers.dev/installer/v");
    url.append(version);
    url.append("/");
    url.append(directory);
    url.append("/");
    url.append(file_name.as_str());
    Some(InstallerLocation { file_name, url })
}

/// A package listed by `cargo metadata`: its name and version, each `None` when it is not a
/// string.
pub struct PackageEntry {
    pub name: Option<String>,
    pub version: Option<String>,
}

/// The package is the `wpihal-sys` crate.
pub open spec fn is_wpihal_sys(package: PackageEntry) -> bool {
    package.name matches Some(name) && name@ == "wpihal-sys"@
}

/// No package before index `k` is `wpihal-sys`.
pub open spec fn none_before(packages: Seq<PackageEntry>, k: int) -> bool {
    forall|j: int| 0 <= j < k ==> !is_wpihal_sys(#[trigger] packages[j])
}

/// The version of the first `wpihal-sys` package among `packages`, or `None` when there is
/// none. Every package up to the first `wpihal-sys` must have a string name, and that one a
/// string version.
pub fn find_wpihal_version(packages: &Vec<PackageEntry>) -> (res: Option<String>)
    requires
        forall|i: int|
            0 <= i < packages@.len() && none_before(packages@, i) ==> (
            #[trigger] packages@[i]).name is Some,
        forall|i: int|
            0 <= i < packages@.len() && none_before(packages@, i) && is_wpihal_sys(
                #[trigger] packages@[i],
            ) ==> packages@[i].version is Some,
    ensures
        res is None <==> none_before(packages@, packages@.len() as int),
        res matches Some(version) ==> exists|k: int|
            0 <= k < packages@.len() && none_before(packages@, k) && is_wpihal_sys(
                #[trigger] packages@[k],
            ) && version@ == packages@[k].version->0@,
{
    let mut i: usize = 0;
    while i < packages.len()
        invariant
            i <= packages@.len(),
            none_before(packages@, i as int),
            forall|i: int|
                0 <= i < packages@.len() && none_before(packages@, i) ==> (
            #[trigger] packages@[i]).name is Some,
            forall|i: int|
                0 <= i < packages@.len() && none_before(packages@, i) && is_wpihal_sys(
                    #[trigger] packages@[i],
                ) ==> packages@[i].version is Some,
        decreases packages.len() - i,
    {
        let package = &packages[i];
        assert(package.name is Some);
        let found = match &package.name {
            Some(name) => str_equal(name.as_str(), "wpihal-sys"),
            None => false,
        };
        if found {
            let version = match &package.version {
                Some(v) => v.clone(),
                None => String::new(),
            };
            return Some(version);
        }
        i = i + 1;
    }
    None
}

/// The packages that `cargo metadata` lists, when its `packages` member is an array.
pub open spec fn packages_of(metadata: JsonValue) -> Option<Seq<JsonValue>> {
    match json_get(metadata, "packages"@) {
        Some(JsonValue::Array(items)) => Some(items@),
        _ => None,
    }
}

/// The listed package is the `wpihal-sys` crate.
pub open spec fn lists_wpihal_sys(package: JsonValue) -> bool {
    json_field_str(package, "name"@) == Some("wpihal-sys"@)
}

/// No listed package before index `k` is `wpihal-sys`.
pub open spec fn no_wpihal_before(packages: Seq<JsonValue>, k: int) -> bool {
    forall|j: int| 0 <= j < k ==> !lists_wpihal_sys(#[trigger] packages[j])
}

/// Every listed package up to the first `wpihal-sys` has a string name, and that one a
/// string version: the listings that the lookup can read.
pub open spec fn readable_packages(packages: Seq<JsonValue>) -> bool {
    forall|i: int|
        0 <= i < packages.len() && no_wpihal_before(packages, i) ==> {
            &&& json_field_str(#[trigger] packages[i], "name"@) is Some
            &&& lists_wpihal_sys(packages[i]) ==> json_field_str(packages[i], "version"@) is Some
        }
}

/// The outcome of looking for the `wpihal-sys` crate in `cargo metadata`.
#[derive(Debug, PartialEq, Eq)]
pub enum WpihalLookup {
    /// The version of the first `wpihal-sys` package.
    Found(String),
    /// No package is `wpihal-sys`.
    NotFound,
    /// The metadata has no `packages` array, a package before the first `wpihal-sys` has
    /// no string name, or that one has no string version.
    Malformed,
}

/// `res` is the outcome of looking for `wpihal-sys` in the parsed metadata `metadata`.
pub open spec fn looks_up_wpihal(metadata: JsonValue, res: WpihalLookup) -> bool {
    match packages_of(metadata) {
        None => res is Malformed,
        Some(packages) => if !readable_packages(packages) {
            res is Malformed
        } else {
            &&& res !is Malformed
            &&& res is NotFound <==> no_wpihal_before(packages, packages.len() as int)
            &&& res matches WpihalLookup::Found(version) ==> exists|k: int|
                0 <= k < packages.len() && no_wpihal_before(packages, k) && lists_wpihal_sys(
                    #[trigger] packages[k],
                ) && json_field_str(packages[k], "version"@) == Some(version@)
        },
    }
}

/// The package entries of `packages`, field for field.
pub open spec fn entries_match(entries: Seq<PackageEntry>, packages: Seq<JsonValue>) -> bool {
    &&& entries.len() == packages.len()
    &&& forall|i: int|
        0 <= i < entries.len() ==> {
            &&& ((#[trigger] entries[i]).name is None <==> json_field_str(packages[i], "name"@) is None)
            &&& (entries[i].name matches Some(name) ==> json_field_str(packages[i], "name"@) == Some(name@))
            &&& (entries[i].version is None <==> json_field_str(packages[i], "version"@) is None)
            &&& (entries[i].version matches Some(version) ==> json_field_str(packages[i], "version"@) == Some(version@))
        }
}

/// Whether every package up to the first `wpihal-sys` has a name, and that one a version.
fn readable_entries(packages: &Vec<PackageEntry>) -> (res: bool)
    ensures
        res <==> forall|i: int|
            0 <= i < packages@.len() && none_before(packages@, i) ==> {
                &&& (#[trigger] packages@[i]).name is Some
                &&& is_wpihal_sys(packages@[i]) ==> packages@[i].version is Some
            },
{
    let mut i: usize = 0;
    while i < packages.len()
        invariant
            i <= packages@.len(),
            none_before(packages@, i as int),
            forall|j: int| 0 <= j < i ==> (#[trigger] packages@[j]).name is Some,
        decreases packages.len() - i,
    {
        match &packages[i].name {
            None => return false,
            Some(name) => {
                if str_equal(name.as_str(), "wpihal-sys") {
                    let readable = packages[i].version.is_some();
                    proof {
                        assert forall|j: int|
                            0 <= j < packages@.len() && none_before(packages@, j) implies j <= i by {
                            if j > i {
                                assert(is_wpihal_sys(packages@[i as int]));
                            }
                        }
                    }
                    return readable;
                }
            },
        }
        i = i + 1;
    }
    true
}

/// The outcome of looking for the `wpihal-sys` crate in the parsed output of
/// `cargo metadata`: the version of the first package named `wpihal-sys`.
pub fn wpihal_lookup(metadata: &JsonValue) -> (res: WpihalLookup)
    ensures
        looks_up_wpihal(*metadata, res),
{
    proof {
        reveal_strlit("packages");
        reveal_strlit("name");
        reveal_strlit("version");
        reveal_strlit("wpihal-sys");
    }
    let packages = match get(metadata, "packages") {
        Some(JsonValue::Array(packages)) => packages,
        _ => return WpihalLookup::Malformed,
    };
    let mut entries: Vec<PackageEntry> = Vec::new();
    let mut i: usize = 0;
    while i < packages.len()
        invariant
            i <= packages@.len(),
            entries@.len() == i,
            entries_match(entries@, packages@.take(i as int)),
        decreases packages.len() - i,
    {
        let name = field_text(&packages[i], "name");
        let version = field_text(&packages[i], "version");
        entries.push(PackageEntry { name, version });
        i = i + 1;
    }
    assert(packages@.take(packages.len() as int) =~= packages@);
    assert(entries_match(entries@, packages@));
    assert forall|k: int| 0 <= k < entries@.len() implies (is_wpihal_sys(#[trigger] entries@[k])
        <==> lists_wpihal_sys(packages@[k])) by {
    }
    assert forall|k: int| 0 <= k <= entries@.len() implies (none_before(entries@, k)
        <==> #[trigger] no_wpihal_before(packages@, k)) by {
        if none_before(entries@, k) {
            assert forall|j: int| 0 <= j < k implies !lists_wpihal_sys(#[trigger] packages@[j]) by {
                assert(!is_wpihal_sys(entries@[j]));
            }
        }
        if no_wpihal_before(packages@, k) {
            assert forall|j: int| 0 <= j < k implies !is_wpihal_sys(#[trigger] entries@[j]) by {
                assert(!lists_wpihal_sys(packages@[j]));
            }
        }
    }
    if !readable_entries(&entries) {
        proof {
            let i = choose|i: int|
                !(0 <= i < entries@.len() && none_before(entries@, i) ==> {
                    &&& (#[trigger] entries@[i]).name is Some
                    &&& is_wpihal_sys(entries@[i]) ==> entries@[i].version is Some
                });
            assert(no_wpihal_before(packages@, i));
        }
        return WpihalLookup::Malformed;
    }
    assert(readable_packages(packages@)) by {
        assert forall|i: int|
            0 <= i < packages@.len() && no_wpihal_before(packages@, i) implies {
            &&& json_field_str(#[trigger] packages@[i], "name"@) is Some
            &&& lists_wpihal_sys(packages@[i]) ==> json_field_str(packages@[i], "version"@) is Some
        } by {
            assert(none_before(entries@, i));
            let entry = entries@[i];
            assert(entry.name is Some);
            assert(is_wpihal_sys(entry) <==> lists_wpihal_sys(packages@[i]));
            assert(is_wpihal_sys(entry) ==> entry.version is Some);
        }
    }
    match find_wpihal_version(&entries) {
        Some(version) => {
            proof {
                let k = choose|k: int|
                    0 <= k < entries@.len() && none_before(entries@, k) && is_wpihal_sys(
                        #[trigger] entries@[k],
                    ) && version@ == entries@[k].version->0@;
                assert(no_wpihal_before(packages@, k));
                assert(lists_wpihal_sys(packages@[k]));
                assert(!no_wpihal_before(packages@, packages@.len() as int));
            }
            WpihalLookup::Found(version)
        },
        None => {
            assert(no_wpihal_before(packages@, packages@.len() as int));
            WpihalLookup::NotFound
        },
    }
}

/// The version of the `wpihal-sys` crate that `cargo metadata` lists in `metadata_json`: an
/// error when the text is not JSON, otherwise the outcome of the lookup.
pub fn wpihal_version_of_metadata(metadata_json: &str) -> (res: Result<
    WpihalLookup,
    serde_json::Error,
>)
    ensures
        res is Err <==> json_document(metadata_json@) is None,
        res matches Ok(lookup) ==> (json_document(metadata_json@) matches Some(metadata)
            && looks_up_wpihal(metadata, lookup)),
{
    match parse_json(metadata_json) {
        Ok(metadata) => Ok(wpihal_lookup(&metadata)),
        Err(error) => Err(error),
    }
}

/// The lookup finds the first `wpihal-sys` package: when the package at index `k` is named
/// `wpihal-sys` and no package before it is, a lookup that found a version found that
/// package's version, and a lookup cannot report that there is none.
pub proof fn lemma_wpihal_lookup_first(
    metadata: JsonValue,
    res: WpihalLookup,
    packages: Seq<JsonValue>,
    k: int,
)
    requires
        looks_up_wpihal(metadata, res),
        packages_of(metadata) == Some(packages),
        0 <= k < packages.len(),
        json_field_str(packages[k], "name"@) == Some("wpihal-sys"@),
        forall|j: int|
            0 <= j < k ==> json_field_str(#[trigger] packages[j], "name"@) != Some(
                "wpihal-sys"@,
            ),
    ensures
        res !is NotFound,
        res matches WpihalLookup::Found(version) ==> json_field_str(packages[k], "version"@)
            == Some(version@),
{
    assert(lists_wpihal_sys(packages[k]));
    if let WpihalLookup::Found(version) = res {
        let c = choose|c: int|
            0 <= c < packages.len() && no_wpihal_before(packages, c) && lists_wpihal_sys(
                #[trigger] packages[c],
            ) && json_field_str(packages[c], "version"@) == Some(version@);
        if c < k {
            assert(json_field_str(packages[c], "name"@) != Some("wpihal-sys"@));
        } else if k < c {
            assert(!lists_wpihal_sys(packages[k]));
        }
    }
}

} // verus!
