//! Whole-file round trips against the real filesystem, driven through
//! the resolved location, as the desktop backend performs them.

use async_std::task::block_on;
use workflow_store::Store;
use workflow_store::Target;

fn resolved(store: &Store) -> String {
    store.filename(Target::Linux).unwrap()
}

#[test]
fn exists_is_false_before_write_and_true_after() {
    let mut store = Store::new();
    store.with_generic("/tmp/workflow_store_exists_probe.tmp");
    let path = resolved(&store);
    block_on(async {
        let _ = async_std::fs::remove_file(&path).await;
        assert!(!async_std::path::Path::new(&path).exists().await);
        async_std::fs::write(&path, b"payload").await.unwrap();
        assert!(async_std::path::Path::new(&path).exists().await);
        async_std::fs::remove_file(&path).await.unwrap();
    });
}

#[test]
fn write_then_read_returns_the_data_exactly() {
    let mut store = Store::new();
    store.with_generic("/tmp/workflow_store_roundtrip_probe.tmp");
    let path = resolved(&store);
    let data: Vec<u8> = (0u8..=255u8).collect();
    block_on(async {
        async_std::fs::write(&path, &data).await.unwrap();
        let back = async_std::fs::read(&path).await.unwrap();
        assert_eq!(back, data);
        async_std::fs::remove_file(&path).await.unwrap();
    });
}

#[test]
fn write_then_read_round_trips_empty_content() {
    let mut store = Store::new();
    store.with_generic("/tmp/workflow_store_empty_probe.tmp");
    let path = resolved(&store);
    block_on(async {
        async_std::fs::write(&path, b"").await.unwrap();
        let back = async_std::fs::read(&path).await.unwrap();
        assert!(back.is_empty());
        async_std::fs::remove_file(&path).await.unwrap();
    });
}
