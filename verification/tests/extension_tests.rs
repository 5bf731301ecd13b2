use http_tokio_router::extensions::unregistered_extension_error;
use http_tokio_router::extensions::ExtensionStore;

const KEY_X: u64 = 1;
const KEY_Y: u64 = 2;

fn get_or_init<F>(store: &mut ExtensionStore<u64>, key: u64, init: F) -> u64
where
    F: FnOnce(&mut ExtensionStore<u64>) -> u64,
{
    if let Some(v) = store.get(key) {
        return *v;
    }
    // The initializer runs without the store held, so it may re-enter it.
    let v = init(store);
    store.insert(key, v);
    v
}

fn init_y(_store: &mut ExtensionStore<u64>) -> u64 {
    7
}

fn init_x(store: &mut ExtensionStore<u64>) -> u64 {
    let y = get_or_init(store, KEY_Y, init_y);
    y + 1
}

#[test]
fn nested_lazy_init_completes_and_caches_both() {
    let mut store: ExtensionStore<u64> = ExtensionStore::new();
    let x = get_or_init(&mut store, KEY_X, init_x);
    assert_eq!(x, 8);
    assert_eq!(store.get(KEY_X), Some(&8));
    assert_eq!(store.get(KEY_Y), Some(&7));
}

#[test]
fn second_access_reads_the_cache() {
    let mut store: ExtensionStore<u64> = ExtensionStore::new();
    let first = get_or_init(&mut store, KEY_X, init_x);
    let second = get_or_init(&mut store, KEY_X, |_| panic!("already cached"));
    assert_eq!(first, second);
}

#[test]
fn missing_key_is_absent() {
    let store: ExtensionStore<u64> = ExtensionStore::new();
    assert_eq!(store.get(99), None);
}

#[test]
fn unregistered_extension_error_names_the_type() {
    let err = unregistered_extension_error("Session");
    assert_eq!(err.status, 500);
    assert_eq!(
        err.message,
        "Trying to obtain unregistered extension Session"
    );
}

#[test]
fn racing_publications_keep_the_last() {
    let mut store: ExtensionStore<u64> = ExtensionStore::new();
    store.insert(KEY_X, 10);
    store.insert(KEY_X, 11);
    assert_eq!(store.get(KEY_X), Some(&11));
}
