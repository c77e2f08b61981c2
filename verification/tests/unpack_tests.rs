use polyfjord3d::unpack::{plan_entry, Extraction, RawEntry, UnpackError, Unpacker};
use std::io::Write;
use zip::write::SimpleFileOptions;
use zip::{CompressionMethod, ZipWriter};

fn entry(name: &str, enclosed: Option<&str>, data: &[u8]) -> RawEntry {
    RawEntry {
        name: name.to_string(),
        enclosed: enclosed.map(|path| path.to_string()),
        data: data.to_vec(),
    }
}

fn sample_archive(method: CompressionMethod) -> Vec<u8> {
    let options = SimpleFileOptions::default().compression_method(method);
    let mut writer = ZipWriter::new(std::io::Cursor::new(Vec::new()));
    writer.add_directory("bin/", options).unwrap();
    writer.start_file("bin/colmap.exe", options).unwrap();
    writer.write_all(b"MZ executable").unwrap();
    writer.start_file("../outside.txt", options).unwrap();
    writer.write_all(b"evil").unwrap();
    writer.start_file("/absolute.txt", options).unwrap();
    writer.write_all(b"evil").unwrap();
    writer.start_file("readme.txt", options).unwrap();
    writer.write_all(b"hello hello hello hello hello").unwrap();
    writer.finish().unwrap().into_inner()
}

fn unpack_all(bytes: Vec<u8>, dest: &str) -> Vec<Extraction> {
    let mut unpacker = Unpacker::open(bytes, dest).unwrap();
    let mut out = Vec::new();
    while let Some(extraction) = unpacker.next_extraction().unwrap() {
        out.push(extraction);
        assert!(out.len() <= 100);
    }
    assert_eq!(unpacker.next_extraction(), Ok(None));
    out
}

#[test]
fn a_directory_entry_is_made_as_a_directory() {
    assert_eq!(
        plan_entry("C:/tools/colmap", entry("bin/", Some("bin/"), b"")),
        Some(Extraction::MakeDir { path: "C:/tools/colmap/bin/".to_string() })
    );
}

#[test]
fn a_file_entry_is_written_into_its_directory() {
    assert_eq!(
        plan_entry("C:/tools/colmap", entry("bin/colmap.exe", Some("bin/colmap.exe"), b"MZ")),
        Some(Extraction::WriteFile {
            path: "C:/tools/colmap/bin/colmap.exe".to_string(),
            parent: Some("C:/tools/colmap/bin".to_string()),
            data: b"MZ".to_vec(),
        })
    );
    assert_eq!(
        plan_entry("dest", entry("readme.txt", Some("readme.txt"), b"")),
        Some(Extraction::WriteFile {
            path: "dest/readme.txt".to_string(),
            parent: Some("dest".to_string()),
            data: Vec::new(),
        })
    );
}

#[test]
fn an_entry_that_leads_outside_is_left_out() {
    assert_eq!(plan_entry("dest", entry("../evil.txt", None, b"x")), None);
    assert_eq!(plan_entry("dest", entry("/etc/passwd", None, b"x")), None);
    assert_eq!(plan_entry("dest", entry("dir/", None, b"")), None);
}

#[test]
fn an_archive_is_unpacked_entry_by_entry() {
    assert_eq!(
        unpack_all(sample_archive(CompressionMethod::Stored), "C:/tools/colmap"),
        vec![
            Extraction::MakeDir { path: "C:/tools/colmap/bin/".to_string() },
            Extraction::WriteFile {
                path: "C:/tools/colmap/bin/colmap.exe".to_string(),
                parent: Some("C:/tools/colmap/bin".to_string()),
                data: b"MZ executable".to_vec(),
            },
            Extraction::WriteFile {
                path: "C:/tools/colmap/readme.txt".to_string(),
                parent: Some("C:/tools/colmap".to_string()),
                data: b"hello hello hello hello hello".to_vec(),
            },
        ]
    );
}

#[test]
fn a_compressed_archive_gives_the_same_entries() {
    assert_eq!(
        unpack_all(sample_archive(CompressionMethod::Deflated), "dest"),
        unpack_all(sample_archive(CompressionMethod::Stored), "dest")
    );
}

#[test]
fn an_empty_archive_has_nothing_to_write() {
    let writer = ZipWriter::new(std::io::Cursor::new(Vec::new()));
    let bytes = writer.finish().unwrap().into_inner();
    assert_eq!(unpack_all(bytes, "dest"), vec![]);
}

#[test]
fn bytes_that_are_no_archive_are_refused() {
    assert_eq!(
        Unpacker::open(b"this is no archive".to_vec(), "dest").err(),
        Some(UnpackError::NotAnArchive)
    );
    assert_eq!(Unpacker::open(Vec::new(), "dest").err(), Some(UnpackError::NotAnArchive));
}

#[test]
fn an_entry_that_cannot_be_read_stops_the_unpacking() {
    let mut bytes = sample_archive(CompressionMethod::Stored);
    let at = bytes.windows(13).position(|window| window == b"MZ executable").unwrap();
    bytes[at] = b'X';
    let mut unpacker = Unpacker::open(bytes, "dest").unwrap();
    assert_eq!(
        unpacker.next_extraction(),
        Ok(Some(Extraction::MakeDir { path: "dest/bin/".to_string() }))
    );
    assert_eq!(unpacker.next_extraction(), Err(UnpackError::BadEntry { index: 1 }));
    assert_eq!(unpacker.next_extraction(), Err(UnpackError::BadEntry { index: 1 }));
}

#[test]
fn a_damaged_entry_that_is_left_out_does_not_stop_the_unpacking() {
    let mut bytes = sample_archive(CompressionMethod::Stored);
    let at = bytes.windows(4).position(|window| window == b"evil").unwrap();
    bytes[at] = b'E';
    assert_eq!(
        unpack_all(bytes, "dest"),
        unpack_all(sample_archive(CompressionMethod::Stored), "dest")
    );
}

#[test]
fn a_damaged_entry_that_is_written_is_named_by_its_place() {
    let mut bytes = sample_archive(CompressionMethod::Stored);
    let at = bytes.windows(11).position(|window| window == b"hello hello").unwrap();
    bytes[at] = b'j';
    let mut unpacker = Unpacker::open(bytes, "dest").unwrap();
    assert!(matches!(unpacker.next_extraction(), Ok(Some(Extraction::MakeDir { .. }))));
    assert!(matches!(unpacker.next_extraction(), Ok(Some(Extraction::WriteFile { .. }))));
    assert_eq!(unpacker.next_extraction(), Err(UnpackError::BadEntry { index: 4 }));
}

#[test]
fn an_archive_that_was_cut_off_is_refused() {
    let bytes = sample_archive(CompressionMethod::Stored);
    let cut = bytes[..bytes.len() / 2].to_vec();
    assert_eq!(Unpacker::open(cut, "dest").err(), Some(UnpackError::NotAnArchive));
}
