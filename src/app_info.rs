//! The build and host metadata that the interface shows.
use vstd::prelude::*;
use vstd::string::{StrSliceExecFns, StringExecFns};
use crate::text::same_text;

verus! {

/// Version, product and platform of the running build.
#[derive(Clone, Debug)]
pub struct AppInfo {
    pub version: String,
    pub product_name: String,
    pub tauri_version: String,
    pub architecture: String,
    pub os_platform: String,
    pub build_type: String,
}

/// What `char::to_uppercase` gives for a character.
pub uninterp spec fn upper_of(c: char) -> Seq<char>;

/// Relies on `char::to_uppercase`: the upper-case form of a character, which
/// depends on the character alone.
#[verifier::external_body]
fn uppercase(c: char) -> (r: String)
    ensures
        r@ == upper_of(c),
{
    c.to_uppercase().collect::<String>()
}

/// The short name of a processor architecture.
pub open spec fn architecture_name(arch: Seq<char>) -> Seq<char> {
    if arch == "x86_64"@ {
        "x64"@
    } else if arch == "aarch64"@ {
        "arm64"@
    } else if arch == "x86"@ {
        "x86"@
    } else {
        "unknown"@
    }
}

/// A family name with its first character in upper case.
pub open spec fn capitalized(family: Seq<char>) -> Seq<char> {
    if family.len() == 0 {
        family
    } else {
        upper_of(family[0]) + family.drop_first()
    }
}

/// The platform line: the system's display name and the architecture.
pub open spec fn platform_name(os: Seq<char>, family: Seq<char>, arch: Seq<char>) -> Seq<char> {
    if os == "windows"@ {
        capitalized(family) + " "@ + arch
    } else if os == "linux"@ {
        "Linux "@ + arch
    } else if os == "macos"@ {
        "macOS "@ + arch
    } else {
        os + " "@ + arch
    }
}

pub open spec fn build_name(debug: bool) -> Seq<char> {
    if debug {
        "Debug"@
    } else {
        "Release"@
    }
}

/// The short name of the target architecture (`x86_64` is `x64`, `aarch64`
/// is `arm64`, `x86` stays, any other is `unknown`).
pub fn architecture_label(arch: &str) -> (r: &'static str)
    ensures
        r@ == architecture_name(arch@),
{
    if same_text(arch, "x86_64") {
        "x64"
    } else if same_text(arch, "aarch64") {
        "arm64"
    } else if same_text(arch, "x86") {
        "x86"
    } else {
        "unknown"
    }
}

/// The platform line for a system (`std::env::consts::OS`), its family and
/// its architecture, such as `Linux x86_64`.
pub fn os_platform_label(os: &str, family: &str, arch: &str) -> (r: String)
    ensures
        r@ == platform_name(os@, family@, arch@),
{
    let mut r = if same_text(os, "windows") {
        let n = family.unicode_len();
        if n == 0 {
            String::new()
        } else {
            let first = uppercase(family.get_char(0));
            let rest = family.substring_char(1, n);
            proof {
                assert(rest@ =~= family@.drop_first());
            }
            first.concat(rest)
        }
    } else if same_text(os, "linux") {
        String::from_str("Linux")
    } else if same_text(os, "macos") {
        String::from_str("macOS")
    } else {
        String::from_str(os)
    };
    r.append(" ");
    r.append(arch);
    proof {
        assert(("Linux"@ + " "@) =~= "Linux "@) by { reveal_strlit("Linux"); reveal_strlit("Linux "); reveal_strlit(" "); }
        assert(("macOS"@ + " "@) =~= "macOS "@) by { reveal_strlit("macOS"); reveal_strlit("macOS "); reveal_strlit(" "); }
        if family@.len() == 0 {
            assert(family@ =~= Seq::<char>::empty());
        }
    }
    r
}

/// `Debug` for a build with debug assertions, `Release` otherwise.
pub fn build_type_label(debug: bool) -> (r: &'static str)
    ensures
        r@ == build_name(debug),
{
    if debug {
        "Debug"
    } else {
        "Release"
    }
}

/// The metadata of this build, from the package version and the host's
/// system, family, architecture and build kind.
pub fn get_app_info(version: &str, os: &str, family: &str, arch: &str, debug: bool) -> (r: AppInfo)
    ensures
        r.version@ == version@,
        r.product_name@ == "No Ponto"@,
        r.tauri_version@ == "2.0"@,
        r.architecture@ == architecture_name(arch@),
        r.os_platform@ == platform_name(os@, family@, arch@),
        r.build_type@ == build_name(debug),
{
    AppInfo {
        version: String::from_str(version),
        product_name: String::from_str("No Ponto"),
        tauri_version: String::from_str("2.0"),
        architecture: String::from_str(architecture_label(arch)),
        os_platform: os_platform_label(os, family, arch),
        build_type: String::from_str(build_type_label(debug)),
    }
}

} // verus!
