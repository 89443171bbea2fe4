use fftw::{
    export_wisdom_file, import_wisdom_file, validate_wisdom_path, DomainState, Error, Precision,
};

#[test]
fn plain_path_validates() {
    assert!(validate_wisdom_path("wisdom/double.dat").is_ok());
}

#[test]
fn empty_path_validates_but_import_fails_natively() {
    // "" parses fine; the native open then fails, which is reported as a
    // failed import, never a crash.
    assert!(validate_wisdom_path("").is_ok());
    let mut s = DomainState::fresh(Precision::Double);
    let r = import_wisdom_file(&mut s, "", None);
    assert!(matches!(r, Err(Error::ImportWisdomError { ref path }) if path.is_empty()));
    assert!(s.wisdom.is_empty());
}

#[test]
fn embedded_terminator_is_a_conversion_error() {
    let r = validate_wisdom_path("ab\0cd");
    match r {
        Err(Error::PathToCStringConversionError { path, nul_position }) => {
            assert_eq!(path, "ab\0cd");
            assert_eq!(nul_position, 2);
        }
        other => panic!("expected a conversion error, got {:?}", other),
    }
}

#[test]
fn import_rejects_terminator_before_any_native_call() {
    let mut s = DomainState::fresh(Precision::Single);
    let blob = vec![1u8, 2, 3];
    let r = import_wisdom_file(&mut s, "w\0isdom", Some(&blob));
    assert!(matches!(r, Err(Error::PathToCStringConversionError { nul_position: 1, .. })));
    assert!(s.wisdom.is_empty());
}

#[test]
fn missing_file_is_an_import_error() {
    let mut s = DomainState::fresh(Precision::Single);
    let r = import_wisdom_file(&mut s, "no/such/file.dat", None);
    assert!(matches!(r, Err(Error::ImportWisdomError { ref path }) if path == "no/such/file.dat"));
    assert!(s.wisdom.is_empty());
}

#[test]
fn import_installs_file_heuristics() {
    let mut s = DomainState::fresh(Precision::Double);
    let blob = vec![7u8, 8, 9, 10];
    import_wisdom_file(&mut s, "w.dat", Some(&blob)).unwrap();
    assert_eq!(s.wisdom, blob);
}

#[test]
fn export_writes_current_wisdom() {
    let mut s = DomainState::fresh(Precision::Double);
    let blob = vec![5u8, 6];
    import_wisdom_file(&mut s, "w.dat", Some(&blob)).unwrap();
    let written = export_wisdom_file(&s, "out.dat", true).unwrap();
    assert_eq!(written, blob);
}

#[test]
fn export_failure_is_reported() {
    let s = DomainState::fresh(Precision::Single);
    let r = export_wisdom_file(&s, "out.dat", false);
    assert!(matches!(r, Err(Error::ExportWisdomError { ref path }) if path == "out.dat"));
}

#[test]
fn export_rejects_terminator() {
    let s = DomainState::fresh(Precision::Single);
    let r = export_wisdom_file(&s, "o\0ut.dat", true);
    assert!(matches!(r, Err(Error::PathToCStringConversionError { nul_position: 1, .. })));
}

#[test]
fn wisdom_round_trips_through_a_file() {
    // A domain accumulates wisdom, exports it; importing the written file
    // into a fresh domain restores exactly the exported heuristics.
    let mut original = DomainState::fresh(Precision::Double);
    let learned = vec![42u8, 17, 3, 99, 0, 1];
    import_wisdom_file(&mut original, "seed.dat", Some(&learned)).unwrap();
    let written = export_wisdom_file(&original, "roundtrip.dat", true).unwrap();

    let mut fresh = DomainState::fresh(Precision::Double);
    import_wisdom_file(&mut fresh, "roundtrip.dat", Some(&written)).unwrap();
    assert_eq!(fresh.wisdom, original.wisdom);
}

#[test]
fn import_augments_accumulated_wisdom() {
    let mut s = DomainState::fresh(Precision::Single);
    import_wisdom_file(&mut s, "a.dat", Some(&vec![1u8, 2])).unwrap();
    import_wisdom_file(&mut s, "b.dat", Some(&vec![3u8])).unwrap();
    assert_eq!(s.wisdom, vec![1u8, 2, 3]);
}
