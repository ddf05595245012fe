use irn::storage::PersistentStorage;
use std::path::PathBuf;

#[test]
fn storage_opens() {
    assert!(PersistentStorage::new(PathBuf::from("data")).is_ok());
    assert!(PersistentStorage::new(PathBuf::new()).is_ok());
}
