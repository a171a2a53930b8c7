//! What the command-line tool computes to build robot code and find the roboRIO.

use vstd::prelude::*;
use vstd::string::*;

use crate::text::{decimal, decimal_value, lemma_decimal_round_trip, push_decimal};
use crate::toml_value::{TomlValue, get, parse_toml, text_of, toml_document, toml_get, toml_str};

verus! {

/// The target that robot code is built for.
pub const TARGET_TRIPLE: &'static str = "arm-unknown-linux-gnueabi";

/// The number of leading digits of a team number that form the second octet of the team's
/// `10.TE.AM.2` address.
pub open spec fn split_point(digits: Seq<char>) -> int {
    if digits.len() < 2 {
        digits.len() as int
    } else {
        2
    }
}

/// The addresses at which a team's roboRIO is looked for, in order: the USB address, the
/// mDNS name, and the `10.TE.AM.2` address, whose second octet is the team number's first two
/// digits and whose third octet is the rest (empty for one- and two-digit numbers).
pub open spec fn roborio_address_list(team_number: u32) -> Seq<Seq<char>> {
    let digits = decimal(team_number as nat);
    let k = split_point(digits);
    seq![
        "172.22.11.2"@,
        "roboRIO-"@ + digits + "-frc.local"@,
        "10."@ + digits.take(k) + "."@ + digits.skip(k) + ".2"@,
    ]
}

/// The addresses to try, in order, when looking for the roboRIO of team `team_number`.
pub fn roborio_addresses(team_number: u32) -> (res: Vec<String>)
    ensures
        res@.len() == 3,
        forall|i: int| 0 <= i < 3 ==> #[trigger] res@[i]@ == roborio_address_list(team_number)[i],
{
    let mut digits = String::new();
    push_decimal(&mut digits, team_number);
    let n = digits.as_str().unicode_len();
    let k: usize = if n < 2 { n } else { 2 };
    let first_half = digits.as_str().substring_char(0, k);
    let second_half = digits.as_str().substring_char(k, n);

    let usb = String::from_str("172.22.11.2");

    let mut mdns = String::from_str("roboRIO-");
    mdns.append(digits.as_str());
    mdns.append("-frc.local");

    let mut static_ip = String::from_str("10.");
    static_ip.append(first_half);
    static_ip.append(".");
    static_ip.append(second_half);
    static_ip.append(".2");

    let mut addresses: Vec<String> = Vec::new();
    addresses.push(usb);
    addresses.push(mdns);
    addresses.push(static_ip);
    proof {
        let d = decimal(team_number as nat);
        assert(d.take(k as int) =~= d.subrange(0, k as int));
        assert(d.skip(k as int) =~= d.subrange(k as int, n as int));
    }
    addresses
}

/// What a crate's manifest says about the name of its binary: the names of its `[[bin]]`
/// targets, when it has a `bin` array (`None` for a target whose name is not a string), and the
/// package name, when it is a string.
pub struct CargoManifest {
    pub bin_names: Option<Vec<Option<String>>>,
    pub package_name: Option<String>,
}

/// The name of the binary that building the crate produces: the first `[[bin]]` target's name
/// when the manifest has a `bin` array, otherwise the package name.
pub open spec fn binary_name_of(manifest: &CargoManifest) -> Seq<char> {
    match manifest.bin_names {
        Some(bins) => bins@[0]->0@,
        None => manifest.package_name->0@,
    }
}

/// The arguments to `cargo` that build robot code: a quiet build for the robot's target, in
/// release mode unless `debug`.
pub open spec fn cargo_build_args(debug: bool) -> Seq<Seq<char>> {
    let args = seq!["build"@, "--quiet"@, "--target"@, "arm-unknown-linux-gnueabi"@];
    if debug {
        args
    } else {
        args.push("--release"@)
    }
}

/// How to build robot code: the arguments to give `cargo`, and the name of the binary that
/// the build leaves under `target/release`.
pub struct BuildPlan {
    pub cargo_args: Vec<String>,
    pub binary_name: String,
}

/// `args` are the arguments to `cargo` that build robot code.
pub open spec fn builds_robot_code(args: Seq<String>, debug: bool) -> bool {
    &&& args.len() == cargo_build_args(debug).len()
    &&& forall|i: int| 0 <= i < args.len() ==> #[trigger] args[i]@ == cargo_build_args(debug)[i]
}

/// The arguments to `cargo` that build robot code: a quiet build for the robot's target, in
/// release mode unless `debug`.
pub fn build_args(debug: bool) -> (res: Vec<String>)
    ensures
        builds_robot_code(res@, debug),
{
    let mut cargo_args: Vec<String> = Vec::new();
    cargo_args.push(String::from_str("build"));
    cargo_args.push(String::from_str("--quiet"));
    cargo_args.push(String::from_str("--target"));
    cargo_args.push(String::from_str(TARGET_TRIPLE));
    proof {
        reveal_strlit("arm-unknown-linux-gnueabi");
    }
    if !debug {
        cargo_args.push(String::from_str("--release"));
    }
    cargo_args
}

/// The plan for building the crate whose manifest is `manifest`. A `bin` array must have a
/// first target with a string name, and without one the package name must be a string.
pub fn build(debug: &bool, manifest: &CargoManifest) -> (res: BuildPlan)
    requires
        match manifest.bin_names {
            Some(bins) => bins@.len() > 0 && bins@[0] is Some,
            None => manifest.package_name is Some,
        },
    ensures
        res.binary_name@ == binary_name_of(manifest),
        builds_robot_code(res.cargo_args@, *debug),
{
    let binary_name = match &manifest.bin_names {
        Some(bins) => match &bins[0] {
            Some(name) => name.clone(),
            None => String::new(),
        },
        None => match &manifest.package_name {
            Some(name) => name.clone(),
            None => String::new(),
        },
    };
    BuildPlan { cargo_args: build_args(*debug), binary_name }
}

/// The name of the binary that a parsed `Cargo.toml` names: the `name` of the first
/// `[[bin]]` target when the document has a `bin` key, otherwise the package's `name`.
/// `None` when that name is missing or not a string, when `bin` is not a non-empty array,
/// or when there is no `package` table: the manifests that name no binary.
pub open spec fn manifest_binary_name(doc: TomlValue) -> Option<Seq<char>> {
    match toml_get(doc, "bin"@) {
        Some(bins) => match bins {
            TomlValue::Array(items) => if items@.len() > 0 {
                toml_str(toml_get(items@[0], "name"@))
            } else {
                None
            },
            _ => None,
        },
        None => match toml_get(doc, "package"@) {
            Some(package) => toml_str(toml_get(package, "name"@)),
            None => None,
        },
    }
}

/// `plan` is what building the crate with manifest `doc` takes: none when the manifest
/// names no binary, otherwise the build arguments and the binary's name.
pub open spec fn plans_build(debug: bool, doc: TomlValue, plan: Option<BuildPlan>) -> bool {
    match manifest_binary_name(doc) {
        None => plan is None,
        Some(name) => plan matches Some(p) && p.binary_name@ == name && builds_robot_code(
            p.cargo_args@,
            debug,
        ),
    }
}

/// The plan for building the crate whose parsed manifest is `doc`, or `None` when the
/// manifest names no binary.
pub fn build_plan_of(debug: bool, doc: &TomlValue) -> (res: Option<BuildPlan>)
    ensures
        plans_build(debug, *doc, res),
{
    proof {
        reveal_strlit("bin");
        reveal_strlit("name");
        reveal_strlit("package");
    }
    let name: Option<String> = match get(doc, "bin") {
        Some(bins) => match bins {
            TomlValue::Array(items) => if items.len() > 0 {
                match get(&items[0], "name") {
                    Some(found) => text_of(found),
                    None => None,
                }
            } else {
                None
            },
            _ => None,
        },
        None => match get(doc, "package") {
            Some(package) => match get(package, "name") {
                Some(found) => text_of(found),
                None => None,
            },
            None => None,
        },
    };
    match name {
        Some(binary_name) => Some(BuildPlan { cargo_args: build_args(debug), binary_name }),
        None => None,
    }
}

/// The plan for building the crate whose `Cargo.toml` holds `manifest_text`: an error when
/// the text is not TOML, `None` when the manifest names no binary.
pub fn build_plan_of_manifest(debug: bool, manifest_text: &str) -> (res: Result<
    Option<BuildPlan>,
    toml::de::Error,
>)
    ensures
        res is Err <==> toml_document(manifest_text@) is None,
        res matches Ok(plan) ==> (toml_document(manifest_text@) matches Some(doc) && plans_build(
            debug,
            doc,
            plan,
        )),
{
    match parse_toml(manifest_text) {
        Ok(doc) => Ok(build_plan_of(debug, &doc)),
        Err(error) => Err(error),
    }
}

/// The two octets of the `10.TE.AM.2` address spell the team number: put together they are its
/// decimal digits, which read back as the number.
pub proof fn lemma_static_address_spells_team(team_number: u32)
    ensures
        ({
            let digits = decimal(team_number as nat);
            let k = split_point(digits);
            &&& digits.take(k) + digits.skip(k) == digits
            &&& decimal_value(digits.take(k) + digits.skip(k)) == team_number
        }),
{
    let digits = decimal(team_number as nat);
    let k = split_point(digits);
    lemma_decimal_round_trip(team_number as nat);
    assert(digits.take(k) + digits.skip(k) =~= digits);
}

/// The addresses tried for a team are, in order, the USB address `172.22.11.2`, the mDNS name
/// `roboRIO-{team}-frc.local`, and `10.{a}.{b}.2` where `a` is the first two digits of the
/// team number (all of them when it has fewer) and `b` the remaining ones; the digits are the
/// team number's decimal digits, which read back as the number.
pub proof fn lemma_roborio_address_layout(team_number: u32)
    ensures
        roborio_address_list(team_number)[0] == "172.22.11.2"@,
        exists|digits: Seq<char>|
            #![trigger decimal_value(digits)]
            decimal_value(digits) == team_number && digits.len() >= 1 && roborio_address_list(
                team_number,
            )[1] == "roboRIO-"@ + digits + "-frc.local"@ && exists|a: Seq<char>, b: Seq<char>|
                #![trigger a + b]
                a + b == digits && a.len() == (if digits.len() < 2 {
                    digits.len() as int
                } else {
                    2
                }) && roborio_address_list(team_number)[2] == "10."@ + a + "."@ + b + ".2"@,
{
    let digits = decimal(team_number as nat);
    let k = split_point(digits);
    lemma_decimal_round_trip(team_number as nat);
    let a = digits.take(k);
    let b = digits.skip(k);
    assert(a + b =~= digits);
    assert(decimal_value(digits) == team_number);
}

} // verus!
