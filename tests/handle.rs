use arcticwolf::handle::{path_hash, HandleManager, HANDLE_LEN};

#[test]
fn test_create_and_lookup() {
    let mut manager = HandleManager::new();
    let path = String::from("/test/file.txt");

    let handle = manager.create_handle(path.clone());
    assert_eq!(manager.lookup_path(&handle), Some(path));
}

#[test]
fn test_idempotent_create() {
    let mut manager = HandleManager::new();
    let path = String::from("/test/file.txt");

    let handle1 = manager.create_handle(path.clone());
    let handle2 = manager.create_handle(path.clone());

    assert_eq!(handle1, handle2);
}

#[test]
fn test_remove_handle() {
    let mut manager = HandleManager::new();
    let path = String::from("/test/file.txt");

    let handle = manager.create_handle(path.clone());
    assert!(manager.is_valid(&handle));

    let removed_path = manager.remove_handle(&handle);
    assert_eq!(removed_path, Some(path));
    assert!(!manager.is_valid(&handle));
}

#[test]
fn handle_layout_is_id_hash_and_zeros() {
    let mut manager = HandleManager::new();
    let h1 = manager.create_handle(String::from("/a"));
    let h2 = manager.create_handle(String::from("/b"));
    assert_eq!(h1.len(), HANDLE_LEN);
    assert_eq!(&h1[0..8], &1u64.to_be_bytes());
    assert_eq!(&h2[0..8], &2u64.to_be_bytes());
    assert_eq!(&h1[8..16], &path_hash(b"/a").to_be_bytes());
    assert!(h1[16..].iter().all(|b| *b == 0));
    assert_ne!(h1, h2);
    assert_eq!(manager.count(), 2);
}

#[test]
fn fnv1a_known_values() {
    assert_eq!(path_hash(b""), 0xcbf2_9ce4_8422_2325);
    assert_eq!(path_hash(b"a"), 0xaf63_dc4c_8601_ec8c);
    assert_eq!(path_hash(b"foobar"), 0x8594_4171_f739_67e8);
}

#[test]
fn removed_path_gets_a_fresh_handle() {
    let mut manager = HandleManager::new();
    let h1 = manager.create_handle(String::from("/x"));
    assert_eq!(manager.remove_path(&String::from("/x")), Some(h1.clone()));
    assert_eq!(manager.lookup_path(&h1), None);
    let h2 = manager.create_handle(String::from("/x"));
    assert_ne!(h1, h2);
    assert_eq!(manager.count(), 1);
    assert_eq!(manager.remove_handle(&h1), None);
}
