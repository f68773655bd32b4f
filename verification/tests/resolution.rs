use workflow_store::error::StoreError;
use workflow_store::find;
use workflow_store::hash;
use workflow_store::Store;
use workflow_store::Target;

#[test]
fn generic_only_resolves_verbatim_on_desktop_targets() {
    let mut s = Store::new();
    s.with_generic("app.settings");
    for t in [Target::Linux, Target::Macos, Target::Unix, Target::Windows] {
        assert_eq!(s.filename(t).unwrap(), "app.settings");
    }
}

#[test]
fn generic_only_resolves_to_hash_on_browser_target() {
    let mut s = Store::new();
    s.with_generic("app.settings");
    assert_eq!(s.filename(Target::Browser).unwrap(), hash("app.settings"));
    assert_eq!(s.filename(Target::Browser).unwrap(), "cc2c244a802457b3");
}

#[test]
fn specific_candidate_beats_generic() {
    let mut s = Store::new();
    s.with_generic("generic.dat")
        .with_linux("linux.dat")
        .with_macos("macos.dat")
        .with_unix("unix.dat")
        .with_windows("windows.dat")
        .with_browser("browser-key");
    assert_eq!(s.filename(Target::Linux).unwrap(), "linux.dat");
    assert_eq!(s.filename(Target::Macos).unwrap(), "macos.dat");
    assert_eq!(s.filename(Target::Unix).unwrap(), "unix.dat");
    assert_eq!(s.filename(Target::Windows).unwrap(), "windows.dat");
    assert_eq!(s.filename(Target::Browser).unwrap(), "browser-key");
}

#[test]
fn linux_and_macos_fall_back_to_unix_before_generic() {
    let mut s = Store::new();
    s.with_unix("unix.dat").with_generic("generic.dat");
    assert_eq!(s.filename(Target::Linux).unwrap(), "unix.dat");
    assert_eq!(s.filename(Target::Macos).unwrap(), "unix.dat");
    assert_eq!(s.filename(Target::Unix).unwrap(), "unix.dat");
    assert_eq!(s.filename(Target::Windows).unwrap(), "generic.dat");
}

#[test]
fn explicit_browser_key_beats_hash_fallback() {
    let mut s = Store::new();
    s.with_generic("generic.dat").with_browser("my-key");
    assert_eq!(s.filename(Target::Browser).unwrap(), "my-key");
}

#[test]
fn empty_record_fails_resolution_on_every_target() {
    let s = Store::new();
    for t in [
        Target::Linux,
        Target::Macos,
        Target::Unix,
        Target::Windows,
        Target::Browser,
    ] {
        let r = s.filename(t);
        assert!(matches!(r, Err(StoreError::NoCandidate)));
    }
}

#[test]
fn windows_build_ignores_unix_candidate() {
    let mut s = Store::new();
    s.with_unix("unix.dat");
    assert!(matches!(
        s.filename(Target::Windows),
        Err(StoreError::NoCandidate)
    ));
}

#[test]
fn builders_overwrite_prior_values() {
    let mut s = Store::new();
    s.with_generic("first.dat");
    s.with_generic("second.dat");
    assert_eq!(s.filename(Target::Unix).unwrap(), "second.dat");
}

#[test]
fn find_returns_first_populated_candidate() {
    let a = String::from("a.dat");
    let b = String::from("b.dat");
    assert_eq!(find(&[None, Some(&a), Some(&b)]), "a.dat");
    assert_eq!(find(&[Some(&b), Some(&a)]), "b.dat");
    assert_eq!(find(&[None, None, Some(&a)]), "a.dat");
}

#[test]
fn default_record_is_empty() {
    let s = Store::default();
    assert!(matches!(
        s.filename(Target::Linux),
        Err(StoreError::NoCandidate)
    ));
}

#[test]
fn no_candidate_error_keeps_the_historic_message() {
    let e = StoreError::NoCandidate;
    assert_eq!(
        e.message(),
        "no path found for the current operating environment"
    );
}
