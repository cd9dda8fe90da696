use catools::archive::{archive_extraction, ExtractStep};
use catools::config::push_path;
use catools::error::CatoolsError;
use catools::modules::network::host_address;
use catools::modules::package::{restore_after_answer, restore_start, RestoreStart};
use catools::modules::update::UPGRADE_CONFIRMATIONS;
use std::io::Write;
use zip::write::SimpleFileOptions;
use zip::ZipWriter;

fn make_zip() -> Vec<u8> {
    let mut w = ZipWriter::new(std::io::Cursor::new(Vec::new()));
    let o = SimpleFileOptions::default().compression_method(zip::CompressionMethod::Stored);
    w.add_directory("certs/", o).unwrap();
    w.start_file("certs/site.pem", o).unwrap();
    w.write_all(b"CERT").unwrap();
    w.start_file("site.key", o).unwrap();
    w.write_all(b"KEY").unwrap();
    w.finish().unwrap().into_inner()
}

#[test]
fn archive_extraction_plan() {
    let steps = archive_extraction(&make_zip(), "/tmp/ssl_cert").unwrap();
    assert_eq!(steps.len(), 3);
    assert!(matches!(&steps[0], ExtractStep::MakeDir(p) if p == "/tmp/ssl_cert/certs/"));
    assert!(matches!(&steps[1], ExtractStep::WriteFile { path, data } if path == "/tmp/ssl_cert/certs/site.pem" && data == b"CERT"));
    assert!(matches!(&steps[2], ExtractStep::WriteFile { path, data } if path == "/tmp/ssl_cert/site.key" && data == b"KEY"));
    let steps = archive_extraction(&make_zip(), "/tmp/ssl_cert/").unwrap();
    assert!(matches!(&steps[2], ExtractStep::WriteFile { path, .. } if path == "/tmp/ssl_cert/site.key"));
}

#[test]
fn unreadable_archive_is_an_io_error() {
    match archive_extraction(&b"not a zip".to_vec(), "/tmp/ssl_cert") {
        Err(CatoolsError::IoError(e)) => assert_eq!(e.kind(), std::io::ErrorKind::InvalidData),
        _ => panic!("expected an I/O error"),
    }
    assert!(archive_extraction(&Vec::new(), "/tmp/x").is_err());
}

#[test]
fn paths_join_as_path_join_does() {
    assert_eq!(push_path("/tmp/ssl_cert", "a/b.pem"), "/tmp/ssl_cert/a/b.pem");
    assert_eq!(push_path("/tmp/ssl_cert/", "b.pem"), "/tmp/ssl_cert/b.pem");
    assert_eq!(push_path("/tmp/ssl_cert", "/etc/passwd"), "/etc/passwd");
    assert_eq!(push_path("/tmp/ssl_cert", "../x"), "/tmp/ssl_cert/../x");
    assert_eq!(push_path("/tmp/ssl_cert", ""), "/tmp/ssl_cert/");
    for (base, name) in [("/tmp/ssl_cert", "a/b"), ("/tmp/", "c"), ("", "d"), ("/t", "/e"), ("/t", "")] {
        let want = std::path::Path::new(base).join(name).to_string_lossy().to_string();
        assert_eq!(push_path(base, name), want);
    }
}

#[test]
fn restore_gates() {
    assert_eq!(restore_start(&Vec::new()), RestoreStart::NothingMissing);
    let missing = vec!["vim".to_string()];
    assert_eq!(restore_start(&missing), RestoreStart::AskToInstall);
    assert!(restore_after_answer(&missing, false).is_none());
    let plan = restore_after_answer(&missing, true).unwrap();
    assert_eq!(plan.len(), 1);
    assert_eq!(plan[0].command.args, vec!["install".to_string(), "vim".to_string()]);
    assert!(!plan[0].checked);
    assert_eq!(UPGRADE_CONFIRMATIONS, 1);
}

#[test]
fn host_addresses_of_any_byte() {
    assert_eq!(host_address("10.0.0", 200), "10.0.0.200");
    assert_eq!(host_address("10.0.0", 255), "10.0.0.255");
    assert_eq!(host_address("10.0.0", 7), "10.0.0.7");
}
