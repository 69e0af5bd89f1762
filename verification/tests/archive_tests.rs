use std::io::{Cursor, Write};

use mihomo_tui::error::AppError;
use mihomo_tui::runtime::extract_core;
use mihomo_tui::runtime::kernel::{KernelManager, Platform};

fn gz(data: &[u8]) -> Vec<u8> {
    let mut e = flate2::write::GzEncoder::new(Vec::new(), flate2::Compression::default());
    e.write_all(data).unwrap();
    e.finish().unwrap()
}

fn zip_of(entries: &[(&str, &[u8])]) -> Vec<u8> {
    let mut w = zip::ZipWriter::new(Cursor::new(Vec::new()));
    let opts = zip::write::SimpleFileOptions::default().compression_method(zip::CompressionMethod::Stored);
    for (name, data) in entries {
        w.start_file(*name, opts).unwrap();
        w.write_all(data).unwrap();
    }
    w.finish().unwrap().into_inner()
}

#[test]
fn core_assets_unpack() {
    assert_eq!(extract_core("mihomo-linux-amd64.gz", &gz(b"core")).unwrap(), b"core");
    assert_eq!(
        extract_core("mihomo-linux-amd64.gz", b"not gzip").unwrap_err(),
        AppError::Other("decompress mihomo gzip asset".to_owned())
    );
    let z = zip_of(&[("README.md", b"doc"), ("bin/Mihomo.exe", b"exe"), ("mihomo", b"other")]);
    assert_eq!(extract_core("mihomo-windows-amd64.zip", &z).unwrap(), b"exe");
    let z = zip_of(&[("README.md", b"doc")]);
    assert_eq!(
        extract_core("m.zip", &z).unwrap_err(),
        AppError::Other("mihomo executable was not found in m.zip".to_owned())
    );
    assert_eq!(extract_core("m.zip", b"junk").unwrap_err(), AppError::Other("open mihomo zip asset".to_owned()));
    assert_eq!(extract_core("mihomo-linux-amd64", b"raw").unwrap(), b"raw");
}

#[test]
fn kernel_assets_unpack() {
    let km = KernelManager::new("/k", Platform::current("windows", "x86_64"));
    assert_eq!(km.extract_kernel("a.gz", &gz(b"k")).unwrap(), b"k");
    let z = zip_of(&[("LICENSE", b"l"), ("mihomo-windows-amd64.exe", b"bin")]);
    assert_eq!(km.extract_kernel("a.zip", &z).unwrap(), b"bin");
    let z = zip_of(&[("first", b"f"), ("second", b"s")]);
    assert_eq!(km.extract_kernel("a.zip", &z).unwrap(), b"f");
    assert_eq!(km.extract_kernel("a.zip", b"junk").unwrap_err(), AppError::Other("zip decompression failed".to_owned()));
    assert_eq!(km.extract_kernel("a.gz", b"junk").unwrap_err(), AppError::Other("gz decompression failed".to_owned()));
    assert_eq!(
        km.extract_kernel("a.tar", b"x").unwrap_err(),
        AppError::Other("unknown archive format: a.tar".to_owned())
    );
}
