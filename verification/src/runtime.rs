//! The Java runtime catalog.
//!
//! Runtime packages are resolved from a version-keyed release feed,
//! downloaded with byte-level progress, and unpacked under the runtimes
//! directory; the installed inventory is the directory listing itself.
//! The decisions — which directory name a release maps to, which archive
//! format the host expects, and which installed directory and executable
//! sub-path a requested version resolves to — are verified here; a driver
//! performs the listing, the fetch and the writes.

use vstd::prelude::*;
use vstd::string::StringExecFns;
use crate::error::Error;
use crate::extract::ArchiveFormat;
use crate::rules::OsName;
use crate::strutil::{contains_seq, str_contains};

verus! {

/// The release feed's summary of available Java versions.
#[derive(Debug)]
pub struct AvailableReleases {
    pub available_lts_releases: Vec<i32>,
    pub available_releases: Vec<i32>,
    pub most_recent_feature_release: i32,
    pub most_recent_feature_version: i32,
    pub most_recent_lts: i32,
    pub tip_version: i32,
}

/// One downloadable runtime package: its remote locator, its file name
/// and its byte size.
#[derive(Debug)]
pub struct Package {
    pub link: String,
    pub name: String,
    pub size: usize,
}

/// The decimal digit character for a value below ten.
pub open spec fn spec_digit_char(d: int) -> char {
    ((d + 48) as u8) as char
}

/// The decimal rendering of a nonnegative number, most significant digit
/// first.
pub open spec fn spec_dec_digits(n: int) -> Seq<char>
    decreases n,
{
    if n < 10 {
        seq![spec_digit_char(if n >= 0 { n } else { 0 })]
    } else {
        spec_dec_digits(n / 10) + seq![spec_digit_char(n % 10)]
    }
}

/// Relies on std `String::push`: appends exactly the one character.
#[verifier::external_body]
fn push_char(s: &mut String, c: char)
    ensures
        final(s)@ == old(s)@ + seq![c],
{
    s.push(c);
}

fn digit_char(d: u8) -> (c: char)
    requires
        d < 10,
    ensures
        c == spec_digit_char(d as int),
{
    (d + 48) as char
}

/// The decimal rendering of a version number.
pub fn dec_string(n: u32) -> (r: String)
    ensures
        r@ == spec_dec_digits(n as int),
    decreases n,
{
    if n < 10 {
        let mut s = String::new();
        push_char(&mut s, digit_char(n as u8));
        proof {
            assert(s@ =~= spec_dec_digits(n as int));
        }
        s
    } else {
        let mut s = dec_string(n / 10);
        push_char(&mut s, digit_char((n % 10) as u8));
        proof {
            assert(s@ =~= spec_dec_digits(n as int));
        }
        s
    }
}

/// The directory a release unpacks to: the release name with a
/// runtime-image suffix.
pub fn release_dir_name(release_name: &str) -> (r: String)
    ensures
        r@ == release_name@ + "-jre"@,
{
    let s = String::from_str(release_name);
    s.concat("-jre")
}

/// The archive format a runtime package arrives in on each host: ZIP on
/// the platform without native tar support, gzip-compressed tar elsewhere.
pub open spec fn spec_runtime_archive_format(os: OsName) -> ArchiveFormat {
    match os {
        OsName::Windows => ArchiveFormat::Zip,
        _ => ArchiveFormat::TarGz,
    }
}

/// The archive format a runtime package arrives in on `os`.
pub fn runtime_archive_format(os: &OsName) -> (r: ArchiveFormat)
    ensures
        r == spec_runtime_archive_format(*os),
{
    match os {
        OsName::Windows => ArchiveFormat::Zip,
        _ => ArchiveFormat::TarGz,
    }
}

/// The character content of a list of directory names.
pub open spec fn name_views(names: Seq<String>) -> Seq<Seq<char>> {
    names.map_values(|s: String| s@)
}

/// The first name containing the token, scanning in order.
pub open spec fn spec_find_runtime(names: Seq<Seq<char>>, token: Seq<char>) -> Option<Seq<char>>
    decreases names.len(),
{
    if names.len() == 0 {
        Option::None
    } else if contains_seq(names.first(), token) {
        Option::Some(names.first())
    } else {
        spec_find_runtime(names.drop_first(), token)
    }
}

/// The executable's path components inside an installed runtime
/// directory, by operating system.
pub open spec fn spec_java_path(dir: Seq<char>, os: OsName) -> Seq<Seq<char>> {
    match os {
        OsName::Windows => seq![dir, "bin"@, "java.exe"@],
        OsName::Macos => seq![dir, "Contents"@, "Home"@, "bin"@, "java"@],
        OsName::Linux => seq![dir, "bin"@, "java"@],
    }
}

/// Resolve the executable of an installed runtime: scan the installed
/// directory names in order for the first one containing the requested
/// version's decimal token, and append the OS-specific executable
/// sub-path. Fails with `RuntimeNotFound` exactly when no installed name
/// contains the token.
pub fn get_java_path(runtimes: &Vec<String>, java_version: u32, os: &OsName) -> (r: Result<
    Vec<String>,
    Error,
>)
    ensures
        r is Ok <==> spec_find_runtime(
            name_views(runtimes@),
            spec_dec_digits(java_version as int),
        ) is Some,
        r matches Ok(path) ==> spec_find_runtime(
            name_views(runtimes@),
            spec_dec_digits(java_version as int),
        ) matches Some(dir) && name_views(path@) == spec_java_path(dir, *os),
        r matches Err(e) ==> e == Error::RuntimeNotFound,
{
    let token = dec_string(java_version);
    let ghost views = name_views(runtimes@);
    let ghost tok = token@;
    proof {
        assert(views.skip(0) =~= views);
    }
    let mut i: usize = 0;
    while i < runtimes.len()
        invariant
            i <= runtimes@.len(),
            views == name_views(runtimes@),
            tok == token@,
            tok == spec_dec_digits(java_version as int),
            spec_find_runtime(views, tok) == spec_find_runtime(views.skip(i as int), tok),
            forall|k: int| 0 <= k < i ==> !contains_seq(views[k], tok),
        decreases runtimes@.len() - i,
    {
        proof {
            assert(views.skip(i as int).first() == views[i as int]);
            assert(views.skip(i as int).drop_first() =~= views.skip(i + 1));
        }
        if str_contains(runtimes[i].as_str(), token.as_str()) {
            let dir = runtimes[i].clone();
            let mut path: Vec<String> = Vec::new();
            path.push(dir);
            match os {
                OsName::Windows => {
                    path.push(String::from_str("bin"));
                    path.push(String::from_str("java.exe"));
                },
                OsName::Macos => {
                    path.push(String::from_str("Contents"));
                    path.push(String::from_str("Home"));
                    path.push(String::from_str("bin"));
                    path.push(String::from_str("java"));
                },
                OsName::Linux => {
                    path.push(String::from_str("bin"));
                    path.push(String::from_str("java"));
                },
            }
            proof {
                assert(spec_find_runtime(views, tok) == Option::Some(views[i as int]));
                assert(name_views(path@) =~= spec_java_path(views[i as int], *os));
            }
            return Ok(path);
        }
        i += 1;
    }
    proof {
        assert(views.skip(runtimes@.len() as int) =~= Seq::<Seq<char>>::empty());
    }
    Err(Error::RuntimeNotFound)
}

} // verus!
