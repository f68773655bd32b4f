use workflow_store::error::StoreError;
use workflow_store::homedir::expand_home;
use workflow_store::homedir::resolve_path;

#[test]
fn home_marker_is_replaced_by_the_home_directory() {
    assert_eq!(
        expand_home("~/config.dat", "/home/alice"),
        "/home/alice/config.dat"
    );
}

#[test]
fn paths_without_the_marker_stay_unchanged() {
    assert_eq!(expand_home("/etc/app/config.dat", "/home/alice"), "/etc/app/config.dat");
    assert_eq!(expand_home("relative/cfg.dat", "/home/alice"), "relative/cfg.dat");
    assert_eq!(expand_home("", "/home/alice"), "");
}

#[test]
fn marker_anywhere_but_the_front_is_kept() {
    assert_eq!(expand_home("/data/~backup", "/home/alice"), "/data/~backup");
}

#[test]
fn resolve_path_keeps_plain_paths() {
    assert_eq!(resolve_path("/tmp/cache.blob").unwrap(), "/tmp/cache.blob");
}

#[test]
fn resolve_path_expands_against_the_real_home_directory() {
    match home::home_dir().and_then(|p| p.into_os_string().into_string().ok()) {
        Some(home) => {
            let expected = format!("{}{}", home, "/config.dat");
            assert_eq!(resolve_path("~/config.dat").unwrap(), expected);
        }
        None => {
            assert!(matches!(
                resolve_path("~/config.dat"),
                Err(StoreError::NoHomeDir)
            ));
        }
    }
}
