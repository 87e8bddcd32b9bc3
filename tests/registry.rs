use std::sync::Arc;

use riff::refresh::{refresh_start, refresh_step, RefreshAction, RefreshEvent, RefreshStage};
use riff::registry::{
    check_version, registry_content, temp_cache_file_name, DependencyRegistryData,
    DependencyRegistryError, DependencyRegistryLanguageData, DEPENDENCY_REGISTRY_FALLBACK,
};
use riff::store::DependencyRegistry;
use riff::target::RustDependencyRegistryData;
use riff::version::newer_version_available;

fn snapshot(version: usize) -> DependencyRegistryData {
    DependencyRegistryData {
        latest_riff_version: None,
        version,
        language: DependencyRegistryLanguageData {
            rust: RustDependencyRegistryData::new(),
            javascript: RustDependencyRegistryData::new(),
        },
    }
}

#[test]
fn version_one_is_accepted() {
    let data = check_version(snapshot(1)).unwrap();
    assert_eq!(data.version, 1);
}

#[test]
fn version_two_is_a_wrong_version() {
    match check_version(snapshot(2)) {
        Err(e) => {
            assert_eq!(e, DependencyRegistryError::WrongVersion(2));
            assert_eq!(e.message(), "Wrong registry data version: 1 (expected) != 2 (got)");
        }
        Ok(_) => panic!("a snapshot of version 2 was accepted"),
    }
}

#[test]
fn empty_cache_uses_fallback_of_version_one() {
    let content = registry_content(String::new());
    assert_eq!(content, DEPENDENCY_REGISTRY_FALLBACK);
    let doc: serde_json::Value = serde_json::from_str(&content).unwrap();
    assert_eq!(doc["version"].as_u64(), Some(1));
    let rust_default = &doc["language"]["rust"]["default"]["build-inputs"];
    assert_eq!(rust_default.as_array().map(|a| a.len()), Some(3));
}

#[test]
fn non_empty_cache_is_kept() {
    let cached = "{\"version\": 1}".to_string();
    assert_eq!(registry_content(cached.clone()), cached);
}

#[test]
fn temp_file_name_carries_the_process_id() {
    assert_eq!(temp_cache_file_name(1234), "registry.json.new1234");
    assert_eq!(temp_cache_file_name(0), "registry.json.new0");
    assert_eq!(temp_cache_file_name(u32::MAX), "registry.json.new4294967295");
}

fn store_data() -> Arc<tokio::sync::RwLock<DependencyRegistryData>> {
    Arc::new(tokio::sync::RwLock::new(snapshot(1)))
}

#[test]
fn offline_store_never_refreshes() {
    let store = DependencyRegistry::new_loaded(store_data(), true, None);
    assert!(store.offline());
    assert!(!store.fresh());
    assert!(!store.share().fresh());
}

#[test]
fn offline_store_drops_a_refresh_it_is_given() {
    let rt = tokio::runtime::Runtime::new().unwrap();
    let handle = rt.spawn(async {});
    let store = DependencyRegistry::new_loaded(store_data(), true, Some(handle));
    rt.block_on(async { tokio::time::sleep(std::time::Duration::from_millis(50)).await });
    assert!(store.offline());
    assert!(!store.fresh());
}

#[test]
fn online_store_is_fresh_once_refresh_completes() {
    let rt = tokio::runtime::Runtime::new().unwrap();
    let handle = rt.spawn(async {});
    let mut store = DependencyRegistry::new_loaded(store_data(), false, Some(handle));
    let mut waited = 0;
    while !store.fresh() && waited < 100 {
        rt.block_on(async { tokio::time::sleep(std::time::Duration::from_millis(10)).await });
        waited += 1;
    }
    assert!(store.fresh());
    assert!(!store.offline());
    // A shared handle neither owns nor repeats the refresh.
    assert!(!store.share().fresh());
    let handle = store.take_refresh();
    assert!(handle.is_some());
    handle.unwrap().abort();
    assert!(!store.fresh());
    assert!(store.take_refresh().is_none());
}

#[test]
fn shared_handles_see_one_snapshot() {
    let rt = tokio::runtime::Runtime::new().unwrap();
    let store = DependencyRegistry::new_loaded(store_data(), true, None);
    let other = store.share();
    rt.block_on(async {
        *store.data().write().await = snapshot(7);
    });
    let seen = rt.block_on(async { other.data().read().await.version });
    assert_eq!(seen, 7);
}

/// Plays a refresh against an in-memory cache and temporary file, stopping
/// after `interrupt_after` events; returns the cache and what was done.
fn play(body: &str, interrupt_after: usize, rename_ok: bool) -> (String, Vec<&'static str>) {
    let mut cache = "old cache".to_string();
    let mut temp: Option<String> = None;
    let mut installed = false;
    let mut log = Vec::new();
    let (mut stage, mut action) = refresh_start();
    let mut events = 0;
    loop {
        if events == interrupt_after {
            break;
        }
        let event = match action {
            RefreshAction::Fetch => RefreshEvent::Responded(true),
            RefreshAction::ReadBody => RefreshEvent::BodyRead(Some(body.to_string())),
            RefreshAction::Parse(_) => RefreshEvent::Parsed(Some(snapshot(1))),
            RefreshAction::Install(_) => {
                installed = true;
                RefreshEvent::Installed
            }
            RefreshAction::PlaceTemp => RefreshEvent::Placed(true),
            RefreshAction::WriteTemp(text) => {
                log.push("write");
                temp = Some(text);
                RefreshEvent::Written(true)
            }
            RefreshAction::RenameOverCache => {
                log.push("rename");
                if rename_ok {
                    cache = temp.take().unwrap();
                }
                RefreshEvent::Renamed(rename_ok)
            }
            RefreshAction::Stop => break,
        };
        let (next, act) = refresh_step(stage, event);
        stage = next;
        action = act;
        events += 1;
    }
    assert!(installed || interrupt_after < 4);
    (cache, log)
}

#[test]
fn refresh_replaces_cache_with_trimmed_body() {
    let (cache, log) = play("  {\"version\": 1}\n", usize::MAX, true);
    assert_eq!(cache, "{\"version\": 1}");
    assert_eq!(log, vec!["write", "rename"]);
}

#[test]
fn interrupted_refresh_leaves_cache_unchanged() {
    // Stopped right after the temporary file was written, before the rename.
    let (cache, log) = play("{\"version\": 1}", 6, true);
    assert_eq!(log, vec!["write"]);
    assert_eq!(cache, "old cache");
}

#[test]
fn failed_rename_leaves_cache_unchanged() {
    let (cache, log) = play("{\"version\": 1}", usize::MAX, false);
    assert_eq!(log, vec!["write", "rename"]);
    assert_eq!(cache, "old cache");
}

#[test]
fn refresh_trims_unicode_white_space() {
    let (cache, _) = play("\u{3000}\t{\"version\": 1}\u{a0}\r\n", usize::MAX, true);
    assert_eq!(cache, "{\"version\": 1}");
}

#[test]
fn failed_fetch_ends_refresh() {
    let (stage, _) = refresh_start();
    let (stage, action) = refresh_step(stage, RefreshEvent::Responded(false));
    assert!(matches!(stage, RefreshStage::Finished));
    assert!(matches!(action, RefreshAction::Stop));
    let (stage, action) = refresh_step(stage, RefreshEvent::Responded(true));
    assert!(matches!(stage, RefreshStage::Finished));
    assert!(matches!(action, RefreshAction::Stop));
}

#[test]
fn refreshed_snapshot_of_wrong_version_is_not_installed() {
    let stage = RefreshStage::Parsing("{}".to_string());
    let (stage, action) = refresh_step(stage, RefreshEvent::Parsed(Some(snapshot(2))));
    assert!(matches!(stage, RefreshStage::Finished));
    assert!(matches!(action, RefreshAction::Stop));
}

#[test]
fn failed_write_never_renames() {
    let (stage, action) = refresh_step(RefreshStage::Writing, RefreshEvent::Written(false));
    assert!(matches!(stage, RefreshStage::Finished));
    assert!(matches!(action, RefreshAction::Stop));
}

#[test]
fn newer_release_is_detected() {
    assert!(newer_version_available(Some("2.0.0"), "1.0.3"));
    assert!(!newer_version_available(Some("1.0.0"), "1.0.3"));
    assert!(!newer_version_available(Some("1.0.3"), "1.0.3"));
    assert!(!newer_version_available(Some("not a version"), "1.0.3"));
    assert!(!newer_version_available(None, "1.0.3"));
}
