use std::io::Write;

use ice_launcher::error::Error;
use ice_launcher::extract::{classify_archive, extract_archive, extract_entries, ArchiveFormat};

fn zip_bytes(entries: &[(&str, &[u8])]) -> Vec<u8> {
    let mut cursor = std::io::Cursor::new(Vec::new());
    {
        let mut writer = zip::ZipWriter::new(&mut cursor);
        let options = zip::write::FileOptions::default();
        for (name, data) in entries {
            writer.start_file(*name, options).unwrap();
            writer.write_all(data).unwrap();
        }
        writer.finish().unwrap();
    }
    cursor.into_inner()
}

fn tar_gz_bytes(entries: &[(&str, &[u8])]) -> Vec<u8> {
    let mut tar_buf = Vec::new();
    {
        let mut builder = tar::Builder::new(&mut tar_buf);
        for (name, data) in entries {
            let mut header = tar::Header::new_gnu();
            header.set_size(data.len() as u64);
            header.set_mode(0o644);
            header.set_cksum();
            builder.append_data(&mut header, *name, *data).unwrap();
        }
        builder.finish().unwrap();
    }
    let mut encoder = flate2::write::GzEncoder::new(Vec::new(), flate2::Compression::default());
    encoder.write_all(&tar_buf).unwrap();
    encoder.finish().unwrap()
}

#[test]
fn classify_by_extension() {
    assert_eq!(classify_archive("runtime.zip"), Ok(ArchiveFormat::Zip));
    assert_eq!(classify_archive("runtime.tar.gz"), Ok(ArchiveFormat::TarGz));
    assert_eq!(classify_archive("runtime.rar"), Err(Error::UnsupportedArchiveFormat));
    assert_eq!(classify_archive("runtime.tar"), Err(Error::UnsupportedArchiveFormat));
    assert_eq!(classify_archive(""), Err(Error::UnsupportedArchiveFormat));
}

#[test]
fn zip_archive_round_trip() {
    let data = zip_bytes(&[("hello.txt", b"hello world"), ("bin/java", b"\x7fELF")]);
    let entries = extract_archive("pack.zip", &data).unwrap();
    assert_eq!(entries.len(), 2);
    assert_eq!(entries[0].path, "hello.txt");
    assert_eq!(entries[0].data, b"hello world");
    assert_eq!(entries[1].path, "bin/java");
    assert_eq!(entries[1].data, b"\x7fELF");
}

#[test]
fn tar_gz_archive_round_trip() {
    let data = tar_gz_bytes(&[("jdk/bin/java", b"launcher"), ("jdk/release", b"17")]);
    let entries = extract_archive("runtime.tar.gz", &data).unwrap();
    assert_eq!(entries.len(), 2);
    assert_eq!(entries[0].path, "jdk/bin/java");
    assert_eq!(entries[0].data, b"launcher");
    assert_eq!(entries[1].path, "jdk/release");
    assert_eq!(entries[1].data, b"17");
}

#[test]
fn unknown_extension_is_refused_before_reading() {
    let data = zip_bytes(&[("hello.txt", b"hello")]);
    assert_eq!(
        extract_archive("pack.7z", &data).unwrap_err(),
        Error::UnsupportedArchiveFormat
    );
}

#[test]
fn malformed_archives_are_parse_errors() {
    let garbage = vec![0u8, 1, 2, 3, 4, 5];
    assert_eq!(extract_archive("x.zip", &garbage).unwrap_err(), Error::ParseError);
    assert_eq!(extract_archive("x.tar.gz", &garbage).unwrap_err(), Error::ParseError);
    assert_eq!(
        extract_entries(&garbage, ArchiveFormat::Zip).unwrap_err(),
        Error::ParseError
    );
}

#[test]
fn gzip_without_valid_tar_inside_is_a_parse_error() {
    let mut encoder = flate2::write::GzEncoder::new(Vec::new(), flate2::Compression::default());
    encoder.write_all(b"not a tar archive").unwrap();
    let data = encoder.finish().unwrap();
    assert_eq!(extract_archive("x.tar.gz", &data).unwrap_err(), Error::ParseError);
}
