use launch_core::creds::CredentialStore;
use launch_core::creds::MinecraftCredentials;
use launch_core::errors::CredentialError;

fn creds(uuid: u128, name: &str) -> MinecraftCredentials {
    MinecraftCredentials {
        uuid,
        username: name.to_string(),
        access_token: format!("access-{}", name),
        refresh_token: format!("refresh-{}", name),
        expires_at_ms: 123_456,
    }
}

#[test]
fn stored_user_is_returned_by_get_user() {
    let mut store = CredentialStore::new();
    store.add_user(creds(1, "alex"));
    let got = store.get_user(1).unwrap();
    assert_eq!(got.uuid, 1);
    assert_eq!(got.username, "alex");
    assert_eq!(got.access_token, "access-alex");
}

#[test]
fn get_user_absent_is_not_found() {
    let store = CredentialStore::new();
    assert_eq!(store.get_user(42).err().unwrap(), CredentialError::NotFound);
}

#[test]
fn get_users_lists_every_account() {
    let mut store = CredentialStore::new();
    store.add_user(creds(1, "alex"));
    store.add_user(creds(2, "steve"));
    let all = store.get_users();
    assert_eq!(all.len(), 2);
    assert!(all.iter().any(|c| c.uuid == 1 && c.username == "alex"));
    assert!(all.iter().any(|c| c.uuid == 2 && c.username == "steve"));
}

#[test]
fn add_user_replaces_the_record_of_the_same_account() {
    let mut store = CredentialStore::new();
    store.add_user(creds(1, "alex"));
    store.add_user(creds(1, "renamed"));
    let all = store.get_users();
    assert_eq!(all.len(), 1);
    assert_eq!(all[0].username, "renamed");
}

#[test]
fn remove_user_removes_only_that_account() {
    let mut store = CredentialStore::new();
    store.add_user(creds(1, "alex"));
    store.add_user(creds(2, "steve"));
    store.remove_user(1).unwrap();
    assert!(store.get_user(1).is_err());
    assert!(store.get_user(2).is_ok());
}

#[test]
fn remove_user_twice_is_not_found() {
    let mut store = CredentialStore::new();
    store.add_user(creds(1, "alex"));
    assert!(store.remove_user(1).is_ok());
    assert_eq!(store.remove_user(1).err().unwrap(), CredentialError::NotFound);
}
