//! Archive extraction: format dispatch and unpacking to in-memory entries.
//!
//! The format is chosen by the archive name alone — `.zip` means ZIP,
//! `.tar.gz` means gzip-compressed tar, anything else is refused with
//! `UnsupportedArchiveFormat` before any work is done (nothing here
//! touches the filesystem). Unpacking itself is done by the `zip`,
//! `flate2` and `tar` crates on in-memory bytes; their results are named,
//! and everything around the calls — dispatch, decode chaining, error
//! mapping, conversion to entries — is verified. A driver writes the
//! returned entries under the destination directory.

use vstd::prelude::*;
use crate::error::Error;
use crate::strutil::{ends_with_seq, str_ends_with};

verus! {

/// The archive formats the engine can unpack.
#[derive(Clone, Copy, Debug, PartialEq, Eq, Structural)]
pub enum ArchiveFormat {
    Zip,
    TarGz,
}

/// The format an archive name selects: `.zip`, `.tar.gz`, or refusal.
pub open spec fn spec_classify_archive(name: Seq<char>) -> Result<ArchiveFormat, Error> {
    if ends_with_seq(name, ".zip"@) {
        Ok(ArchiveFormat::Zip)
    } else if ends_with_seq(name, ".tar.gz"@) {
        Ok(ArchiveFormat::TarGz)
    } else {
        Err(Error::UnsupportedArchiveFormat)
    }
}

/// Choose the extraction format from the archive name alone.
pub fn classify_archive(name: &str) -> (r: Result<ArchiveFormat, Error>)
    ensures
        r == spec_classify_archive(name@),
{
    if str_ends_with(name, ".zip") {
        Ok(ArchiveFormat::Zip)
    } else if str_ends_with(name, ".tar.gz") {
        Ok(ArchiveFormat::TarGz)
    } else {
        Err(Error::UnsupportedArchiveFormat)
    }
}

/// One file of an unpacked archive: its path inside the archive and its
/// bytes.
#[derive(Debug)]
pub struct ArchiveEntry {
    pub path: String,
    pub data: Vec<u8>,
}

impl View for ArchiveEntry {
    type V = (Seq<char>, Seq<u8>);

    open spec fn view(&self) -> (Seq<char>, Seq<u8>) {
        (self.path@, self.data@)
    }
}

/// What gzip decoding yields on the given bytes, as `flate2` computes it:
/// the decompressed stream, or nothing when the input is malformed.
pub uninterp spec fn gzip_decoded(data: Seq<u8>) -> Option<Seq<u8>>;

/// The entry list of a ZIP archive held in the given bytes, as the `zip`
/// crate reads it: each entry's path and contents in archive order, or
/// nothing when the bytes are not a readable ZIP archive.
pub uninterp spec fn zip_entry_data(data: Seq<u8>) -> Option<Seq<(Seq<char>, Seq<u8>)>>;

/// The entry list of a tar archive held in the given bytes, as the `tar`
/// crate reads it: each entry's path and contents in archive order, or
/// nothing when the bytes are not a readable tar archive.
pub uninterp spec fn tar_entry_data(data: Seq<u8>) -> Option<Seq<(Seq<char>, Seq<u8>)>>;

/// The character/byte content of a list of name-and-bytes entries.
pub open spec fn entry_views(entries: Seq<(String, Vec<u8>)>) -> Seq<(Seq<char>, Seq<u8>)> {
    entries.map_values(|e: (String, Vec<u8>)| (e.0@, e.1@))
}

/// Relies on `flate2::bufread::GzDecoder` reading to the end of an
/// in-memory buffer: the outcome is a function of the input bytes alone —
/// the decompressed stream, or an error on malformed input.
#[verifier::external_body]
fn gunzip(data: &Vec<u8>) -> (r: Result<Vec<u8>, ()>)
    ensures
        r is Ok <==> gzip_decoded(data@) is Some,
        r matches Ok(out) ==> gzip_decoded(data@) matches Some(bytes) && out@ == bytes,
{
    let mut dec = flate2::bufread::GzDecoder::new(std::io::Cursor::new(data.as_slice()));
    let mut out = Vec::new();
    match std::io::Read::read_to_end(&mut dec, &mut out) {
        Ok(_) => Ok(out),
        Err(_) => Err(()),
    }
}

/// Relies on `zip::ZipArchive` (`new`, `len`, `by_index`) over an
/// in-memory buffer: the entry list is a function of the archive bytes
/// alone; reading fails on a malformed archive or entry.
#[verifier::external_body]
fn zip_entry_list(data: &Vec<u8>) -> (r: Result<Vec<(String, Vec<u8>)>, ()>)
    ensures
        r is Ok <==> zip_entry_data(data@) is Some,
        r matches Ok(out) ==> zip_entry_data(data@) matches Some(es) && entry_views(out@) == es,
{
    let cursor = std::io::Cursor::new(data.as_slice());
    let mut archive = match zip::ZipArchive::new(cursor) { Ok(a) => a, Err(_) => return Err(()) };
    let mut out = Vec::new();
    for i in 0..archive.len() {
        let mut file = match archive.by_index(i) { Ok(f) => f, Err(_) => return Err(()) };
        let name = file.name().to_string();
        let mut buf = Vec::new();
        if std::io::Read::read_to_end(&mut file, &mut buf).is_err() { return Err(()); }
        out.push((name, buf));
    }
    Ok(out)
}

/// Relies on `tar::Archive::entries` over an in-memory buffer: the entry
/// list is a function of the tar bytes alone; reading fails on a
/// malformed archive or entry.
#[verifier::external_body]
fn tar_entry_list(data: &Vec<u8>) -> (r: Result<Vec<(String, Vec<u8>)>, ()>)
    ensures
        r is Ok <==> tar_entry_data(data@) is Some,
        r matches Ok(out) ==> tar_entry_data(data@) matches Some(es) && entry_views(out@) == es,
{
    let mut archive = tar::Archive::new(std::io::Cursor::new(data.as_slice()));
    let entries = match archive.entries() { Ok(es) => es, Err(_) => return Err(()) };
    let mut out = Vec::new();
    for entry in entries {
        let mut entry = match entry { Ok(e) => e, Err(_) => return Err(()) };
        let name = match entry.path() { Ok(p) => p.to_string_lossy().into_owned(), Err(_) => return Err(()) };
        let mut buf = Vec::new();
        if std::io::Read::read_to_end(&mut entry, &mut buf).is_err() { return Err(()); }
        out.push((name, buf));
    }
    Ok(out)
}

/// The entries an archive of a given format holds: a malformed archive is
/// a parse failure. A gzip-compressed tar is first decompressed, then
/// read as tar.
pub open spec fn spec_extract_entries(data: Seq<u8>, format: ArchiveFormat) -> Result<
    Seq<(Seq<char>, Seq<u8>)>,
    Error,
> {
    match format {
        ArchiveFormat::Zip => match zip_entry_data(data) {
            Option::Some(es) => Ok(es),
            Option::None => Err(Error::ParseError),
        },
        ArchiveFormat::TarGz => match gzip_decoded(data) {
            Option::Some(tar_bytes) => match tar_entry_data(tar_bytes) {
                Option::Some(es) => Ok(es),
                Option::None => Err(Error::ParseError),
            },
            Option::None => Err(Error::ParseError),
        },
    }
}

/// The character/byte content of a list of archive entries.
pub open spec fn archive_entry_views(entries: Seq<ArchiveEntry>) -> Seq<(Seq<char>, Seq<u8>)> {
    entries.map_values(|e: ArchiveEntry| e@)
}

/// Turn a list of name-and-bytes pairs into archive entries, preserving
/// order and content.
fn entries_of_pairs(pairs: Vec<(String, Vec<u8>)>) -> (r: Vec<ArchiveEntry>)
    ensures
        archive_entry_views(r@) == entry_views(pairs@),
{
    let ghost orig = pairs@;
    let mut pairs = pairs;
    let mut out: Vec<ArchiveEntry> = Vec::new();
    while pairs.len() > 0
        invariant
            archive_entry_views(out@) + entry_views(pairs@) =~= entry_views(orig),
        decreases pairs@.len(),
    {
        let ghost before = pairs@;
        let (path, data) = pairs.remove(0);
        let entry = ArchiveEntry { path, data };
        out.push(entry);
        proof {
            assert(before.remove(0) =~= before.drop_first());
            assert(archive_entry_views(out@) =~= archive_entry_views(out@.drop_last()).push(
                entry@,
            ));
            assert(entry_views(before) =~= seq![entry@] + entry_views(before.drop_first()));
            assert(archive_entry_views(out@) + entry_views(pairs@) =~= entry_views(orig));
        }
    }
    proof {
        assert(entry_views(pairs@) =~= Seq::<(Seq<char>, Seq<u8>)>::empty());
        assert(archive_entry_views(out@) =~= entry_views(orig));
    }
    out
}

/// Unpack an archive of a known format held in memory into its entries.
pub fn extract_entries(data: &Vec<u8>, format: ArchiveFormat) -> (r: Result<Vec<ArchiveEntry>, Error>)
    ensures
        r is Ok <==> spec_extract_entries(data@, format) is Ok,
        r matches Ok(entries) ==> spec_extract_entries(data@, format) matches Ok(es)
            && archive_entry_views(entries@) == es,
        r matches Err(e) ==> e == Error::ParseError,
{
    match format {
        ArchiveFormat::Zip => match zip_entry_list(data) {
            Ok(pairs) => Ok(entries_of_pairs(pairs)),
            Err(_) => Err(Error::ParseError),
        },
        ArchiveFormat::TarGz => {
            let tar_bytes = match gunzip(data) {
                Ok(b) => b,
                Err(_) => {
                    return Err(Error::ParseError);
                },
            };
            match tar_entry_list(&tar_bytes) {
                Ok(pairs) => Ok(entries_of_pairs(pairs)),
                Err(_) => Err(Error::ParseError),
            }
        },
    }
}

/// Dispatch on the archive name, then unpack: an unknown extension is
/// refused with `UnsupportedArchiveFormat` before anything is read.
pub fn extract_archive(name: &str, data: &Vec<u8>) -> (r: Result<Vec<ArchiveEntry>, Error>)
    ensures
        spec_classify_archive(name@) matches Err(e) ==> r matches Err(e2) && e2 == e && e
            == Error::UnsupportedArchiveFormat,
        spec_classify_archive(name@) matches Ok(format) ==> {
            &&& r is Ok <==> spec_extract_entries(data@, format) is Ok
            &&& (r matches Ok(entries) ==> spec_extract_entries(data@, format) matches Ok(es)
                && archive_entry_views(entries@) == es)
            &&& (r matches Err(e) ==> e == Error::ParseError)
        },
{
    let format = match classify_archive(name) {
        Ok(f) => f,
        Err(e) => {
            return Err(e);
        },
    };
    extract_entries(data, format)
}

} // verus!
