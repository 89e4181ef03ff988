use moolang::file_reader::FileType;
use moolang::file_reader_errors::{encoding_error, u64_to_string, FileReaderError};

#[test]
fn extension_dispatch() {
    match FileType::check_extension("pasture/herd.moo") {
        Ok(FileType::Moo(path)) => assert_eq!(path, "pasture/herd.moo"),
        _ => panic!("expected the English source kind"),
    }
    match FileType::check_extension("rebano.muu") {
        Ok(FileType::Muu(path)) => assert_eq!(path, "rebano.muu"),
        _ => panic!("expected the Spanish source kind"),
    }
}

#[test]
fn extension_rejections() {
    match FileType::check_extension("notes.txt") {
        Err(FileReaderError::WrongFileType(msg)) => {
            assert_eq!(msg, "File must have .moo (English) or .muu (Español) extension")
        },
        _ => panic!("expected the wrong-file-type error"),
    }
    match FileType::check_extension("plain") {
        Err(FileReaderError::Other(msg)) => assert_eq!(msg, "File has no extension"),
        _ => panic!("expected the no-extension error"),
    }
    assert!(matches!(
        FileType::check_extension(".hidden"),
        Err(FileReaderError::Other(_))
    ));
    assert!(matches!(
        FileType::check_extension("dir.moo/file"),
        Err(FileReaderError::Other(_))
    ));
    assert!(matches!(
        FileType::check_extension("archive.tar.moo"),
        Ok(FileType::Moo(_))
    ));
}

#[test]
fn extension_ignores_trailing_separator() {
    match FileType::check_extension("pasture/herd.moo/") {
        Ok(FileType::Moo(path)) => assert_eq!(path, "pasture/herd.moo/"),
        _ => panic!("expected the English source kind"),
    }
    assert!(matches!(
        FileType::check_extension("pasture/"),
        Err(FileReaderError::Other(_))
    ));
}

#[test]
fn empty_sources_are_refused() {
    assert!(matches!(
        FileType::process_moo_file(""),
        Err(FileReaderError::EmptyFile(_))
    ));
    assert!(matches!(
        FileType::process_muu_file(""),
        Err(FileReaderError::EmptyFile(_))
    ));
    assert_eq!(FileType::process_moo_file("moo \"hi\"").unwrap(), "moo \"hi\"");
    assert_eq!(FileType::process_muu_file("muuu \"hola\"").unwrap(), "muuu \"hola\"");
}

#[test]
fn file_reader_error_messages() {
    assert_eq!(
        FileReaderError::FileNotFound("a.moo".to_string()).message(),
        "File not found: a.moo"
    );
    assert_eq!(
        FileReaderError::PermissionDenied("b.moo".to_string()).message(),
        "Permission denied: b.moo"
    );
    assert_eq!(
        FileReaderError::InvalidPath("c??".to_string()).message(),
        "Invalid path: c??"
    );
    assert_eq!(
        FileReaderError::IoError("interrupted".to_string()).message(),
        "IO error: interrupted"
    );
    assert_eq!(
        FileReaderError::EmptyFile("d.moo".to_string()).message(),
        "Empty file: d.moo"
    );
    assert_eq!(
        FileReaderError::FileTooLarge {
            path: "big.moo".to_string(),
            size: 1048576,
            max_size: 65536,
        }
        .message(),
        "File too large: big.moo (size: 1048576, max: 65536)"
    );
    assert_eq!(
        FileReaderError::WrongFileType("bad".to_string()).message(),
        "Wrong file type: bad"
    );
    assert_eq!(
        FileReaderError::Other("odd".to_string()).message(),
        "Other error: odd"
    );
}

#[test]
fn encoding_error_builder() {
    let err = encoding_error("e.moo".to_string(), "invalid utf-8".to_string());
    assert_eq!(err.message(), "Encoding error in e.moo: invalid utf-8");
    assert!(matches!(err, FileReaderError::EncodingError { .. }));
}

#[test]
fn decimal_rendering() {
    assert_eq!(u64_to_string(0), "0");
    assert_eq!(u64_to_string(7), "7");
    assert_eq!(u64_to_string(10), "10");
    assert_eq!(u64_to_string(90210), "90210");
    assert_eq!(u64_to_string(u64::MAX), "18446744073709551615");
}
