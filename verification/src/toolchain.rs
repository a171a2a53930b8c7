//! Choosing the roboRIO toolchain for a host and finding its archive and compiler.

use vstd::prelude::*;
use vstd::string::*;

use crate::deploy::TARGET_TRIPLE;
use crate::json_value::{JsonValue, field_text, get, json_field_str, json_get};
use crate::text::{ends_with, has_suffix, str_equal};
use crate::toml_value::{
    TomlTree, TomlValue, find_key, first_with_key, lacks_key, lemma_other_keys_unchanged,
    lemma_put_appended, lemma_put_replaced, lemma_table_get_first, lemma_table_tree, parse_toml,
    replace_value, replaced_at, table_get, toml_document, toml_get, toml_pretty_text, toml_str,
    toml_text, toml_to_string, toml_to_string_pretty, toml_tree, tree_entries, tree_lookup,
    tree_put,
};

verus! {

#[verifier::external_type_specification]
#[verifier::external_body]
pub struct ExRegexError(regex::Error);

/// Whether the regex compiled from `pattern` matches somewhere in `text`.
pub uninterp spec fn regex_is_match(pattern: Seq<char>, text: Seq<char>) -> bool;

/// Compiles `pattern` with `regex::Regex::new` and tests it against `text` with
/// `Regex::is_match`. The contract names the answer: it is `is_match` for the compiled
/// pattern, which regex documents as "a match for the regex anywhere in the haystack"; what
/// the name holds on given values is left to the regex crate. Whether compilation succeeds is
/// left unsaid: besides invalid syntax, `Regex::new` fails when the compiled program exceeds a
/// size limit counted in heap bytes, which depends on the target machine.
#[verifier::external_body]
fn regex_match(pattern: &str, text: &str) -> (res: Result<bool, regex::Error>)
    ensures
        res matches Ok(found) ==> found == regex_is_match(pattern@, text@),
{
    match regex::Regex::new(pattern) {
        Ok(re) => Ok(re.is_match(text)),
        Err(e) => Err(e),
    }
}

/// The roboRIO toolchain build published for a host: its host string and archive extension.
pub open spec fn toolchain_kind(os: Seq<char>, arch: Seq<char>) -> Option<(Seq<char>, Seq<char>)> {
    if os == "linux"@ && arch == "aarch64"@ {
        Some(("aarch64-bookworm-linux-gnu"@, "tgz"@))
    } else if os == "linux"@ && arch == "armv6"@ {
        Some(("armv6-bookworm-linux-gnueabihf"@, "tgz"@))
    } else if os == "linux"@ && arch == "x86_64"@ {
        Some(("x86_64-linux-gnu"@, "tgz"@))
    } else if os == "windows"@ && arch == "x86_64"@ {
        Some(("x86_64-w64-mingw32"@, "zip"@))
    } else if os == "macos"@ && arch == "x86_64"@ {
        Some(("x86_64-apple-darwin"@, "tgz"@))
    } else if os == "macos"@ && arch == "aarch64"@ {
        Some(("arm64-apple-darwin"@, "tgz"@))
    } else {
        None
    }
}

/// The toolchain build for the host `os`/`arch`: its host string and archive extension, or
/// `None` when none is provided.
pub fn toolchain_host(os: &str, arch: &str) -> (res: Option<(String, String)>)
    ensures
        toolchain_kind(os@, arch@) is None ==> res is None,
        toolchain_kind(os@, arch@) matches Some((host, extension)) ==> (res matches Some(pair)
            && pair.0@ == host && pair.1@ == extension),
        os@ == "linux"@ && arch@ == "aarch64"@ ==> (res matches Some(pair) && pair.0@ == "aarch64-bookworm-linux-gnu"@
            && pair.1@ == "tgz"@),
        os@ == "linux"@ && arch@ == "armv6"@ ==> (res matches Some(pair) && pair.0@ == "armv6-bookworm-linux-gnueabihf"@
            && pair.1@ == "tgz"@),
        os@ == "linux"@ && arch@ == "x86_64"@ ==> (res matches Some(pair) && pair.0@ == "x86_64-linux-gnu"@
            && pair.1@ == "tgz"@),
        os@ == "windows"@ && arch@ == "x86_64"@ ==> (res matches Some(pair) && pair.0@ == "x86_64-w64-mingw32"@
            && pair.1@ == "zip"@),
        os@ == "macos"@ && arch@ == "x86_64"@ ==> (res matches Some(pair) && pair.0@ == "x86_64-apple-darwin"@
            && pair.1@ == "tgz"@),
        os@ == "macos"@ && arch@ == "aarch64"@ ==> (res matches Some(pair) && pair.0@ == "arm64-apple-darwin"@
            && pair.1@ == "tgz"@),
{
    proof {
        reveal_strlit("linux");
        reveal_strlit("windows");
        reveal_strlit("macos");
        reveal_strlit("aarch64");
        reveal_strlit("armv6");
        reveal_strlit("x86_64");
        assert("linux"@.len() != "windows"@.len());
        assert("linux"@[0] != "macos"@[0]);
        assert("windows"@.len() != "macos"@.len());
        assert("aarch64"@.len() != "armv6"@.len());
        assert("aarch64"@.len() != "x86_64"@.len());
        assert("armv6"@.len() != "x86_64"@.len());
    }
    let is_linux = str_equal(os, "linux");
    let is_windows = str_equal(os, "windows");
    let is_macos = str_equal(os, "macos");
    let is_aarch64 = str_equal(arch, "aarch64");
    let is_armv6 = str_equal(arch, "armv6");
    let is_x86_64 = str_equal(arch, "x86_64");
    let (host_string, extension): (&str, &str) = if is_linux && is_aarch64 {
        ("aarch64-bookworm-linux-gnu", "tgz")
    } else if is_linux && is_armv6 {
        ("armv6-bookworm-linux-gnueabihf", "tgz")
    } else if is_linux && is_x86_64 {
        ("x86_64-linux-gnu", "tgz")
    } else if is_windows && is_x86_64 {
        ("x86_64-w64-mingw32", "zip")
    } else if is_macos && is_x86_64 {
        ("x86_64-apple-darwin", "tgz")
    } else if is_macos && is_aarch64 {
        ("arm64-apple-darwin", "tgz")
    } else {
        return None;
    };
    Some((String::from_str(host_string), String::from_str(extension)))
}

/// The toolchain builds of the supported hosts are all different: two hosts with a build get
/// the same one only when they are the same host, so no host is given another's compiler.
pub proof fn lemma_toolchain_hosts_distinct(
    os1: Seq<char>,
    arch1: Seq<char>,
    os2: Seq<char>,
    arch2: Seq<char>,
)
    requires
        toolchain_kind(os1, arch1) matches Some(first) && toolchain_kind(os2, arch2) matches Some(
            second,
        ) && first.0 == second.0,
    ensures
        os1 == os2,
        arch1 == arch2,
{
    reveal_strlit("aarch64");
    reveal_strlit("aarch64-bookworm-linux-gnu");
    reveal_strlit("arm64-apple-darwin");
    reveal_strlit("armv6");
    reveal_strlit("armv6-bookworm-linux-gnueabihf");
    reveal_strlit("linux");
    reveal_strlit("macos");
    reveal_strlit("tgz");
    reveal_strlit("windows");
    reveal_strlit("x86_64");
    reveal_strlit("x86_64-apple-darwin");
    reveal_strlit("x86_64-linux-gnu");
    reveal_strlit("x86_64-w64-mingw32");
    reveal_strlit("zip");
    assert("linux"@.len() != "windows"@.len());
    assert("linux"@[0] != "macos"@[0]);
    assert("windows"@.len() != "macos"@.len());
    assert("aarch64"@.len() != "armv6"@.len());
    assert("aarch64"@.len() != "x86_64"@.len());
    assert("armv6"@.len() != "x86_64"@.len());
    assert("aarch64-bookworm-linux-gnu"@.len() != "armv6-bookworm-linux-gnueabihf"@.len());
    assert("aarch64-bookworm-linux-gnu"@.len() != "x86_64-linux-gnu"@.len());
    assert("aarch64-bookworm-linux-gnu"@.len() != "x86_64-w64-mingw32"@.len());
    assert("aarch64-bookworm-linux-gnu"@.len() != "x86_64-apple-darwin"@.len());
    assert("aarch64-bookworm-linux-gnu"@.len() != "arm64-apple-darwin"@.len());
    assert("armv6-bookworm-linux-gnueabihf"@.len() != "x86_64-linux-gnu"@.len());
    assert("armv6-bookworm-linux-gnueabihf"@.len() != "x86_64-w64-mingw32"@.len());
    assert("armv6-bookworm-linux-gnueabihf"@.len() != "x86_64-apple-darwin"@.len());
    assert("armv6-bookworm-linux-gnueabihf"@.len() != "arm64-apple-darwin"@.len());
    assert("x86_64-linux-gnu"@.len() != "x86_64-w64-mingw32"@.len());
    assert("x86_64-linux-gnu"@.len() != "x86_64-apple-darwin"@.len());
    assert("x86_64-linux-gnu"@.len() != "arm64-apple-darwin"@.len());
    assert("x86_64-w64-mingw32"@.len() != "x86_64-apple-darwin"@.len());
    assert("x86_64-w64-mingw32"@[0] != "arm64-apple-darwin"@[0]);
    assert("x86_64-apple-darwin"@.len() != "arm64-apple-darwin"@.len());
}

/// The pattern that a toolchain archive's name matches, for a host string and an extension.
pub open spec fn toolchain_pattern_text(host: Seq<char>, extension: Seq<char>) -> Seq<char> {
    "cortexa9_vfpv3-roborio-academic-20\\d\\d-"@ + host + "-Toolchain-.+\\."@ + extension + "$"@
}

/// The regular expression that a toolchain archive's name for `host` and `extension` matches:
/// a 20xx academic roboRIO toolchain for the host, ending in the extension.
pub fn toolchain_pattern(host: &str, extension: &str) -> (res: String)
    ensures
        res@ == toolchain_pattern_text(host@, extension@),
        res@ == "cortexa9_vfpv3-roborio-academic-20\\d\\d-"@ + host@ + "-Toolchain-.+\\."@
            + extension@ + "$"@,
{
    let mut pattern = String::from_str("cortexa9_vfpv3-roborio-academic-20\\d\\d-");
    pattern.append(host);
    pattern.append("-Toolchain-.+\\.");
    pattern.append(extension);
    pattern.append("$");
    pattern
}

/// The first of a release's asset names that `pattern` matches. An error when the pattern
/// does not compile (the pattern is compiled even for an empty list).
pub fn find_toolchain_asset(asset_names: &Vec<String>, pattern: &str) -> (res: Result<
    Option<usize>,
    regex::Error,
>)
    ensures
        res matches Ok(None) ==> forall|i: int|
            0 <= i < asset_names@.len() ==> !regex_is_match(pattern@, #[trigger] asset_names@[i]@),
        res matches Ok(Some(k)) ==> k < asset_names@.len() && regex_is_match(
            pattern@,
            asset_names@[k as int]@,
        ) && forall|i: int|
            0 <= i < k ==> !regex_is_match(pattern@, #[trigger] asset_names@[i]@),
{
    let mut i: usize = 0;
    if asset_names.len() == 0 {
        match regex_match(pattern, "") {
            Ok(_) => return Ok(None),
            Err(e) => return Err(e),
        }
    }
    while i < asset_names.len()
        invariant
            0 < asset_names@.len(),
            i <= asset_names@.len(),
            forall|j: int| 0 <= j < i ==> !regex_is_match(pattern@, #[trigger] asset_names@[j]@),
        decreases asset_names.len() - i,
    {
        match regex_match(pattern, asset_names[i].as_str()) {
            Ok(true) => return Ok(Some(i)),
            Ok(false) => {},
            Err(e) => return Err(e),
        }
        i = i + 1;
    }
    Ok(None)
}

/// A release's name and the tree of its `assets`, when the first of `releases` is a release
/// with a string `tag_name` and an `assets` array.
pub open spec fn latest_release(releases: JsonValue) -> Option<(Seq<char>, Seq<JsonValue>)> {
    match releases {
        JsonValue::Array(items) => if items@.len() > 0 {
            match (json_field_str(items@[0], "tag_name"@), json_get(items@[0], "assets"@)) {
                (Some(tag), Some(JsonValue::Array(assets))) => Some((tag, assets@)),
                _ => None,
            }
        } else {
            None
        },
        _ => None,
    }
}

/// Every asset before index `k` has a string name that `pattern` does not match.
pub open spec fn passed_over(assets: Seq<JsonValue>, pattern: Seq<char>, k: int) -> bool {
    forall|j: int|
        0 <= j < k ==> (json_field_str(#[trigger] assets[j], "name"@) matches Some(name)
            && !regex_is_match(pattern, name))
}

/// The toolchain archive chosen from a release: the release's tag, the archive's file name
/// and its download URL.
#[derive(Debug, PartialEq, Eq)]
pub struct ToolchainAsset {
    pub version: String,
    pub name: String,
    pub url: String,
}

/// Why no toolchain archive could be chosen from the release list.
#[derive(Debug)]
pub enum ReleaseError {
    /// The pattern does not compile.
    Regex(regex::Error),
    /// The list has no first release with a string tag and an `assets` array, an asset
    /// before the first match has no string name, or the matching one has no string URL.
    Malformed,
}

/// The archive of the latest release in `releases` (the GitHub release list) whose name
/// `pattern` matches: the first such asset, with the release's tag and its download URL;
/// `None` when no asset name matches.
pub fn toolchain_asset_of_releases(releases: &JsonValue, pattern: &str) -> (res: Result<
    Option<ToolchainAsset>,
    ReleaseError,
>)
    ensures
        latest_release(*releases) is None ==> (res matches Err(ReleaseError::Malformed)),
        latest_release(*releases) matches Some((version, assets)) ==> {
            &&& res matches Ok(None) ==> passed_over(assets, pattern@, assets.len() as int)
            &&& res matches Ok(Some(asset)) ==> exists|k: int|
                0 <= k < assets.len() && passed_over(assets, pattern@, k) && json_field_str(
                    #[trigger] assets[k],
                    "name"@,
                ) == Some(asset.name@) && regex_is_match(pattern@, asset.name@) && json_field_str(
                    assets[k],
                    "browser_download_url"@,
                ) == Some(asset.url@) && asset.version@ == version
            &&& res matches Err(ReleaseError::Malformed) ==> exists|k: int|
                0 <= k < assets.len() && passed_over(assets, pattern@, k) && (json_field_str(
                    #[trigger] assets[k],
                    "name"@,
                ) matches Some(name) ==> regex_is_match(pattern@, name) && json_field_str(
                    assets[k],
                    "browser_download_url"@,
                ) is None)
        },
{
    proof {
        reveal_strlit("tag_name");
        reveal_strlit("assets");
        reveal_strlit("name");
        reveal_strlit("browser_download_url");
    }
    let release = match releases {
        JsonValue::Array(items) => if items.len() > 0 {
            &items[0]
        } else {
            return Err(ReleaseError::Malformed);
        },
        _ => return Err(ReleaseError::Malformed),
    };
    let version = match field_text(release, "tag_name") {
        Some(version) => version,
        None => return Err(ReleaseError::Malformed),
    };
    let assets = match get(release, "assets") {
        Some(JsonValue::Array(assets)) => assets,
        _ => return Err(ReleaseError::Malformed),
    };
    let mut names: Vec<String> = Vec::new();
    let mut all_named = true;
    while all_named && names.len() < assets.len()
        invariant
            names@.len() <= assets@.len(),
            forall|j: int|
                0 <= j < names@.len() ==> json_field_str(#[trigger] assets@[j], "name"@) == Some(
                    names@[j]@,
                ),
            !all_named ==> names@.len() < assets@.len() && json_field_str(
                assets@[names@.len() as int],
                "name"@,
            ) is None,
        decreases assets.len() - names.len() + (if all_named { 1int } else { 0int }),
    {
        match field_text(&assets[names.len()], "name") {
            Some(name) => names.push(name),
            None => all_named = false,
        }
    }
    match find_toolchain_asset(&names, pattern) {
        Err(error) => Err(ReleaseError::Regex(error)),
        Ok(Some(k)) => {
            let name = names[k].clone();
            match field_text(&assets[k], "browser_download_url") {
                Some(url) => Ok(Some(ToolchainAsset { version, name, url })),
                None => {
                    assert(passed_over(assets@, pattern@, k as int));
                    Err(ReleaseError::Malformed)
                },
            }
        },
        Ok(None) => {
            if all_named {
                Ok(None)
            } else {
                assert(passed_over(assets@, pattern@, names@.len() as int));
                Err(ReleaseError::Malformed)
            }
        },
    }
}

/// The first of a toolchain's `bin` entries whose file name ends with `gcc`.
pub fn find_gcc(file_names: &Vec<String>) -> (res: Option<usize>)
    ensures
        res matches Some(k) ==> k < file_names@.len() && has_suffix(
            file_names@[k as int]@,
            "gcc"@,
        ),
        forall|i: int|
            0 <= i < file_names@.len() && (res matches Some(k) ==> i < k) ==> !has_suffix(
                #[trigger] file_names@[i]@,
                "gcc"@,
            ),
{
    let mut i: usize = 0;
    while i < file_names.len()
        invariant
            i <= file_names@.len(),
            forall|j: int| 0 <= j < i ==> !has_suffix(#[trigger] file_names@[j]@, "gcc"@),
        decreases file_names.len() - i,
    {
        if ends_with(file_names[i].as_str(), "gcc") {
            return Some(i);
        }
        i = i + 1;
    }
    None
}

/// The key under which the cargo configuration is looked for the robot target's settings.
pub open spec fn target_key() -> Seq<char> {
    "target.arm-unknown-linux-gnueabi"@
}

/// The cargo configuration written when there is none: the robot target's linker and the
/// robot target as the build target.
pub open spec fn fresh_config_text(gcc_path: Seq<char>) -> Seq<char> {
    "[target.arm-unknown-linux-gnueabi]\nlinker = \""@ + gcc_path
        + "\"\n\n[build]\ntarget = \"arm-unknown-linux-gnueabi\"\n"@
}

/// The TOML text of a table that sets the robot target's linker.
pub open spec fn target_table_text(gcc_path: Seq<char>) -> Seq<char> {
    "\n                [target.arm-unknown-linux-gnueabi]\n                linker = \""@ + gcc_path
        + "\"\n                "@
}

/// `value` is the `build` table that selects the robot target.
pub open spec fn is_build_table(value: TomlValue) -> bool {
    &&& value matches TomlValue::Table(entries)
    &&& entries@.len() == 1
    &&& entries@[0].0@ == "target"@
    &&& toml_str(Some(entries@[0].1)) == Some("arm-unknown-linux-gnueabi"@)
}

/// `config` is the table `doc` with its `build` entry set to the build table: the entry's
/// value replaced where there is one, a new last entry otherwise.
pub open spec fn sets_build(doc: TomlValue, config: TomlValue) -> bool {
    &&& doc matches TomlValue::Table(old)
    &&& config matches TomlValue::Table(new)
    &&& {
        ||| exists|k: int|
            first_with_key(old@, "build"@, k) && replaced_at(old@, new@, k) && is_build_table(
                #[trigger] new@[k].1,
            )
        ||| lacks_key(old@, "build"@) && new@.len() == old@.len() + 1 && new@.drop_last() == old@
            && new@.last().0@ == "build"@ && is_build_table(new@.last().1)
    }
}

/// `config` is what the configuration `doc` becomes before its target is looked at: the
/// same for a global configuration, with the build table set for a project's.
pub open spec fn with_build(doc: TomlValue, global: bool, config: TomlValue) -> bool {
    if global {
        config == doc
    } else {
        sets_build(doc, config)
    }
}

/// `updated` is the table `config` with the `linker` entry of its target table set to
/// `gcc_path`, and every other entry kept.
pub open spec fn sets_linker(config: TomlValue, updated: TomlValue, gcc_path: Seq<char>) -> bool {
    &&& config matches TomlValue::Table(old)
    &&& updated matches TomlValue::Table(new)
    &&& exists|k: int|
        #![trigger first_with_key(old@, target_key(), k)]
        {
            &&& first_with_key(old@, target_key(), k)
            &&& replaced_at(old@, new@, k)
            &&& old@[k].1 matches TomlValue::Table(target)
            &&& new@[k].1 matches TomlValue::Table(target_new)
            &&& exists|m: int|
                #![trigger first_with_key(target@, "linker"@, m)]
                {
                    &&& first_with_key(target@, "linker"@, m)
                    &&& replaced_at(target@, target_new@, m)
                    &&& toml_str(Some(target_new@[m].1)) == Some(gcc_path)
                }
        }
}

/// Setting the build table keeps every other entry of the configuration: a lookup of any
/// key but `build` finds what it found before, and `build` is the table that selects the
/// robot target.
pub proof fn lemma_build_set_keeps_keys(doc: TomlValue, config: TomlValue, key: Seq<char>)
    requires
        sets_build(doc, config),
        key != "build"@,
    ensures
        toml_get(config, key) == toml_get(doc, key),
        toml_get(config, "build"@) matches Some(build) && is_build_table(build),
{
    let old = match doc {
        TomlValue::Table(entries) => entries@,
        _ => Seq::empty(),
    };
    let new = match config {
        TomlValue::Table(entries) => entries@,
        _ => Seq::empty(),
    };
    if exists|k: int|
        first_with_key(old, "build"@, k) && replaced_at(old, new, k) && is_build_table(
            #[trigger] new[k].1,
        ) {
        let k = choose|k: int|
            first_with_key(old, "build"@, k) && replaced_at(old, new, k) && is_build_table(
                #[trigger] new[k].1,
            );
        lemma_other_keys_unchanged(old, new, "build"@, key);
        assert forall|j: int| 0 <= j < k implies (#[trigger] new[j]).0@ != "build"@ by {
            assert(new[j] == old[j]);
        }
        assert(first_with_key(new, "build"@, k));
        lemma_table_get_first(new, "build"@, k);
    } else {
        assert forall|j: int| 0 <= j < old.len() implies #[trigger] new[j] == old[j] by {
            assert(new.drop_last()[j] == new[j]);
        }
        lemma_other_keys_unchanged(old, new, "build"@, key);
        assert(first_with_key(new, "build"@, old.len() as int));
        lemma_table_get_first(new, "build"@, old.len() as int);
    }
}

/// Setting the linker keeps every other entry: a lookup of any key but the target key finds
/// what it found before, the target table keeps every key but `linker`, and its `linker` is
/// `gcc_path`.
pub proof fn lemma_linker_set_keeps_keys(
    config: TomlValue,
    updated: TomlValue,
    gcc_path: Seq<char>,
    key: Seq<char>,
    target_entry_key: Seq<char>,
)
    requires
        sets_linker(config, updated, gcc_path),
        key != target_key(),
        target_entry_key != "linker"@,
    ensures
        toml_get(updated, key) == toml_get(config, key),
        toml_get(config, target_key()) matches Some(target) && toml_get(updated, target_key())
            matches Some(target_new) && toml_str(toml_get(target_new, "linker"@)) == Some(gcc_path)
            && toml_get(target_new, target_entry_key) == toml_get(target, target_entry_key),
{
    let old = match config {
        TomlValue::Table(entries) => entries@,
        _ => Seq::empty(),
    };
    let new = match updated {
        TomlValue::Table(entries) => entries@,
        _ => Seq::empty(),
    };
    let k = choose|k: int|
        {
            &&& first_with_key(old, target_key(), k)
            &&& replaced_at(old, new, k)
            &&& old[k].1 matches TomlValue::Table(target)
            &&& new[k].1 matches TomlValue::Table(target_new)
            &&& exists|m: int|
                #![trigger first_with_key(target@, "linker"@, m)]
                {
                    &&& first_with_key(target@, "linker"@, m)
                    &&& replaced_at(target@, target_new@, m)
                    &&& toml_str(Some(target_new@[m].1)) == Some(gcc_path)
                }
        };
    lemma_other_keys_unchanged(old, new, target_key(), key);
    assert forall|j: int| 0 <= j < k implies (#[trigger] new[j]).0@ != target_key() by {
        assert(new[j] == old[j]);
    }
    assert(first_with_key(new, target_key(), k));
    lemma_table_get_first(old, target_key(), k);
    lemma_table_get_first(new, target_key(), k);
    let inner_old = match old[k].1 {
        TomlValue::Table(entries) => entries@,
        _ => Seq::empty(),
    };
    let inner_new = match new[k].1 {
        TomlValue::Table(entries) => entries@,
        _ => Seq::empty(),
    };
    let m = choose|m: int|
        {
            &&& first_with_key(inner_old, "linker"@, m)
            &&& replaced_at(inner_old, inner_new, m)
            &&& toml_str(Some(inner_new[m].1)) == Some(gcc_path)
        };
    lemma_other_keys_unchanged(inner_old, inner_new, "linker"@, target_entry_key);
    assert forall|j: int| 0 <= j < m implies (#[trigger] inner_new[j]).0@ != "linker"@ by {
        assert(inner_new[j] == inner_old[j]);
    }
    assert(first_with_key(inner_new, "linker"@, m));
    lemma_table_get_first(inner_new, "linker"@, m);
}

/// Why the cargo configuration could not be updated.
#[derive(Debug)]
pub enum CargoConfigError {
    /// The existing configuration, or the target table written for it, is not TOML.
    Parse(toml::de::Error),
    /// The `toml` crate could not write the configuration.
    Serialize(toml::ser::Error),
    /// A project's existing configuration is not a table, so it cannot take a build table.
    NotATable,
    /// The configuration's target entry has no `linker` to set.
    IndexNotFound,
}

/// The tree of the build table that selects the robot target.
pub open spec fn build_tree() -> TomlTree {
    TomlTree::Table(seq![("target"@, TomlTree::Text("arm-unknown-linux-gnueabi"@))])
}

/// The tree of the configuration `doc` before its target is looked at: the same for a global
/// configuration, with the build table put under `build` for a project's.
pub open spec fn config_tree(doc: TomlValue, global: bool) -> TomlTree {
    if global {
        toml_tree(doc)
    } else {
        match toml_tree(doc) {
            TomlTree::Table(entries) => TomlTree::Table(tree_put(entries, "build"@, build_tree())),
            other => other,
        }
    }
}

/// The tree `config` with the `linker` of its target table set to `gcc_path`.
pub open spec fn linker_tree(config: TomlTree, gcc_path: Seq<char>) -> TomlTree {
    match config {
        TomlTree::Table(entries) => match tree_lookup(entries, target_key()) {
            Some(TomlTree::Table(target)) => TomlTree::Table(
                tree_put(
                    entries,
                    target_key(),
                    TomlTree::Table(tree_put(target, "linker"@, TomlTree::Text(gcc_path))),
                ),
            ),
            _ => config,
        },
        _ => config,
    }
}

/// The pretty texts of a configuration and of a target table, joined by a newline, or
/// `None` when the writer rejects either.
pub open spec fn joined_pretty(config: TomlTree, table: TomlTree) -> Option<Seq<char>> {
    match (toml_pretty_text(config), toml_pretty_text(table)) {
        (Some(first), Some(second)) => Some(first + "\n"@ + second),
        _ => None,
    }
}

/// `res` is what updating the parsed configuration `doc` gives: the build table set for a
/// project's configuration; then, when the configuration has an entry under the target key,
/// its `linker` set to `gcc_path` and the whole configuration written with `toml::to_string`;
/// otherwise the configuration and a parsed target table that sets the linker, each written
/// with `toml::to_string_pretty`, joined by a newline. A writing error comes exactly when the
/// writer rejects what is written.
pub open spec fn updates_config(
    doc: TomlValue,
    gcc_path: Seq<char>,
    global: bool,
    res: Result<String, CargoConfigError>,
) -> bool {
    let buildable = global || doc is Table;
    let target = toml_get(doc, target_key());
    let has_linker = target matches Some(t) && toml_get(t, "linker"@) is Some;
    let table = toml_document(target_table_text(gcc_path));
    let written = config_tree(doc, global);
    &&& (res matches Err(CargoConfigError::NotATable)) <==> !buildable
    &&& (res matches Err(CargoConfigError::IndexNotFound)) <==> (buildable && target is Some
        && !has_linker)
    &&& (res matches Err(CargoConfigError::Parse(_))) <==> (buildable && target is None
        && table is None)
    &&& (res matches Err(CargoConfigError::Serialize(_))) <==> (buildable && ((has_linker
        && toml_text(linker_tree(written, gcc_path)) is None) || (target is None && (table matches Some(
        t,
    ) && joined_pretty(written, toml_tree(t)) is None))))
    &&& res matches Ok(text) ==> {
        &&& has_linker ==> toml_text(linker_tree(written, gcc_path)) == Some(text@)
        &&& target is None ==> (table matches Some(t) && joined_pretty(written, toml_tree(t))
            == Some(text@))
        &&& exists|config: TomlValue|
            #[trigger] with_build(doc, global, config) && toml_tree(config) == written && {
                ||| has_linker && exists|updated: TomlValue|
                    #[trigger] sets_linker(config, updated, gcc_path) && toml_tree(updated)
                        == linker_tree(written, gcc_path)
                ||| target is None
            }
    }
}

/// The build table that selects the robot target.
fn build_table() -> (res: TomlValue)
    ensures
        is_build_table(res),
        toml_tree(res) == build_tree(),
{
    let mut entries: Vec<(String, TomlValue)> = Vec::new();
    entries.push((String::from_str("target"), TomlValue::Text(String::from_str(TARGET_TRIPLE))));
    proof {
        reveal_strlit("arm-unknown-linux-gnueabi");
        lemma_table_tree(entries);
        assert(tree_entries(entries@) =~= seq![
            ("target"@, TomlTree::Text("arm-unknown-linux-gnueabi"@)),
        ]);
    }
    TomlValue::Table(entries)
}

/// The configuration `config`, whose target entry is missing, written with a new target
/// table that sets the linker to `gcc_path`.
fn append_target_table(config: &TomlValue, gcc_path: &str) -> (res: Result<
    String,
    CargoConfigError,
>)
    ensures
        (res matches Err(CargoConfigError::Parse(_))) <==> toml_document(
            target_table_text(gcc_path@),
        ) is None,
        (res matches Err(CargoConfigError::Serialize(_))) <==> (toml_document(
            target_table_text(gcc_path@),
        ) matches Some(table) && joined_pretty(toml_tree(*config), toml_tree(table)) is None),
        !(res matches Err(CargoConfigError::NotATable)),
        !(res matches Err(CargoConfigError::IndexNotFound)),
        res matches Ok(text) ==> (toml_document(target_table_text(gcc_path@)) matches Some(table)
            && joined_pretty(toml_tree(*config), toml_tree(table)) == Some(text@)),
{
    let mut table_text = String::from_str(
        "\n                [target.arm-unknown-linux-gnueabi]\n                linker = \"",
    );
    table_text.append(gcc_path);
    table_text.append("\"\n                ");
    let table = match parse_toml(table_text.as_str()) {
        Ok(table) => table,
        Err(error) => return Err(CargoConfigError::Parse(error)),
    };
    let mut text = match toml_to_string_pretty(config) {
        Ok(text) => text,
        Err(error) => return Err(CargoConfigError::Serialize(error)),
    };
    let table_written = match toml_to_string_pretty(&table) {
        Ok(text) => text,
        Err(error) => return Err(CargoConfigError::Serialize(error)),
    };
    text.append("\n");
    text.append(table_written.as_str());
    Ok(text)
}

/// The cargo configuration `doc` with the robot target set up: for a project's configuration
/// (not `global`) the build target set, and the target's linker set to `gcc_path`.
pub fn update_config(doc: TomlValue, gcc_path: &str, global: bool) -> (res: Result<
    String,
    CargoConfigError,
>)
    ensures
        updates_config(doc, gcc_path@, global, res),
{
    let ghost original = doc;
    let config = if global {
        doc
    } else {
        match doc {
            TomlValue::Table(mut entries) => {
                let ghost old_vec = entries;
                let ghost old_entries = entries@;
                let build = build_table();
                match find_key(&entries, "build") {
                    Some(k) => {
                        replace_value(&mut entries, k, build);
                        proof {
                            lemma_put_replaced(old_entries, entries@, "build"@, k as int, build_tree());
                        }
                    },
                    None => {
                        entries.push((String::from_str("build"), build));
                        assert(entries@.drop_last() =~= old_entries);
                        proof {
                            lemma_put_appended(old_entries, entries@, "build"@, build_tree());
                        }
                    },
                }
                proof {
                    reveal_strlit("build");
                    reveal_strlit("target.arm-unknown-linux-gnueabi");
                    assert("build"@.len() != target_key().len());
                    lemma_other_keys_unchanged(old_entries, entries@, "build"@, target_key());
                    lemma_table_tree(old_vec);
                    lemma_table_tree(entries);
                }
                TomlValue::Table(entries)
            },
            _ => return Err(CargoConfigError::NotATable),
        }
    };
    assert(with_build(original, global, config));
    assert(toml_tree(config) == config_tree(original, global));
    assert(toml_get(config, target_key()) == toml_get(original, target_key()));
    let ghost built = config;
    match config {
        TomlValue::Table(mut entries) => match find_key(&entries, "target.arm-unknown-linux-gnueabi") {
            Some(k) => {
                let ghost old_vec = entries;
                let ghost old_entries = entries@;
                let (key, target) = entries.remove(k);
                match target {
                    TomlValue::Table(mut inner) => match find_key(&inner, "linker") {
                        Some(m) => {
                            let ghost old_inner_vec = inner;
                            let ghost old_inner = inner@;
                            let linker = TomlValue::Text(String::from_str(gcc_path));
                            assert(toml_tree(linker) == TomlTree::Text(gcc_path@));
                            replace_value(&mut inner, m, linker);
                            proof {
                                lemma_put_replaced(
                                    old_inner,
                                    inner@,
                                    "linker"@,
                                    m as int,
                                    TomlTree::Text(gcc_path@),
                                );
                                lemma_table_tree(old_inner_vec);
                                lemma_table_tree(inner);
                            }
                            let ghost new_target_tree = toml_tree(TomlValue::Table(inner));
                            entries.insert(k, (key, TomlValue::Table(inner)));
                            assert forall|j: int|
                                0 <= j < old_entries.len() && j != k implies #[trigger] entries@[j]
                                == old_entries[j] by {
                                if j < k {
                                } else {
                                }
                            }
                            assert(replaced_at(old_entries, entries@, k as int));
                            assert(first_with_key(old_inner, "linker"@, m as int));
                            proof {
                                lemma_put_replaced(
                                    old_entries,
                                    entries@,
                                    target_key(),
                                    k as int,
                                    new_target_tree,
                                );
                                lemma_table_tree(old_vec);
                                lemma_table_tree(entries);
                            }
                            let updated = TomlValue::Table(entries);
                            assert(sets_linker(built, updated, gcc_path@));
                            assert(toml_tree(updated) == linker_tree(toml_tree(built), gcc_path@));
                            match toml_to_string(&updated) {
                                Ok(text) => Ok(text),
                                Err(error) => Err(CargoConfigError::Serialize(error)),
                            }
                        },
                        None => Err(CargoConfigError::IndexNotFound),
                    },
                    _ => Err(CargoConfigError::IndexNotFound),
                }
            },
            None => append_target_table(&TomlValue::Table(entries), gcc_path),
        },
        other => append_target_table(&other, gcc_path),
    }
}

/// The cargo configuration that sets up the robot target, from the `existing` configuration
/// text, if there is one: written fresh when there is none, otherwise the existing one
/// updated as `update_config` does.
pub fn updated_cargo_config(existing: Option<&str>, gcc_path: &str, global: bool) -> (res: Result<
    String,
    CargoConfigError,
>)
    ensures
        existing is None ==> (res matches Ok(text) && text@ == fresh_config_text(gcc_path@)),
        existing is None ==> (res matches Ok(text) && text@
            == "[target.arm-unknown-linux-gnueabi]\nlinker = \""@ + gcc_path@
            + "\"\n\n[build]\ntarget = \"arm-unknown-linux-gnueabi\"\n"@),
        existing matches Some(text) ==> (toml_document(text@) is None ==> (res matches Err(
            CargoConfigError::Parse(_),
        ))),
        existing matches Some(text) ==> (toml_document(text@) matches Some(doc) ==> updates_config(
            doc,
            gcc_path@,
            global,
            res,
        )),
{
    match existing {
        Some(text) => match parse_toml(text) {
            Ok(doc) => update_config(doc, gcc_path, global),
            Err(error) => Err(CargoConfigError::Parse(error)),
        },
        None => {
            let mut fresh = String::from_str("[target.arm-unknown-linux-gnueabi]\nlinker = \"");
            fresh.append(gcc_path);
            fresh.append("\"\n\n[build]\ntarget = \"arm-unknown-linux-gnueabi\"\n");
            Ok(fresh)
        },
    }
}

} // verus!
