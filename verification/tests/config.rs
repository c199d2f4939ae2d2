use std::path::PathBuf;
use std::time::Duration;

use deadpool_libsql::config::{
    Cipher, Database, EncryptionConfig, EncryptionContext, EncryptionKey, Local, OpenFlags,
    Remote, SyncProtocol, SyncedDatabase,
};

fn flags(read_only: bool, read_write: bool, create: bool) -> libsql::OpenFlags {
    OpenFlags { read_only, read_write, create }.to_libsql().flags
}

#[test]
fn no_mode_gives_the_empty_set() {
    assert_eq!(flags(false, false, false), libsql::OpenFlags::empty());
    assert_eq!(flags(false, false, false).bits(), 0);
}

#[test]
fn each_mode_gives_its_own_flag() {
    assert_eq!(flags(true, false, false), libsql::OpenFlags::SQLITE_OPEN_READ_ONLY);
    assert_eq!(flags(false, true, false), libsql::OpenFlags::SQLITE_OPEN_READ_WRITE);
    assert_eq!(flags(false, false, true), libsql::OpenFlags::SQLITE_OPEN_CREATE);
    assert_eq!(flags(true, false, false).bits(), 1);
    assert_eq!(flags(false, true, false).bits(), 2);
    assert_eq!(flags(false, false, true).bits(), 4);
}

#[test]
fn modes_combine() {
    assert_eq!(
        flags(false, true, true),
        libsql::OpenFlags::SQLITE_OPEN_READ_WRITE | libsql::OpenFlags::SQLITE_OPEN_CREATE
    );
    assert_eq!(flags(false, true, true), libsql::OpenFlags::default());
    assert_eq!(flags(true, true, false).bits(), 3);
    assert_eq!(flags(true, false, true).bits(), 5);
    assert_eq!(flags(true, true, true), libsql::OpenFlags::all());
    assert!(flags(true, true, true).contains(libsql::OpenFlags::SQLITE_OPEN_READ_ONLY));
    assert!(!flags(false, true, true).contains(libsql::OpenFlags::SQLITE_OPEN_READ_ONLY));
}

#[test]
fn default_cipher_is_aes_256_cbc() {
    assert_eq!(Cipher::default(), Cipher::Aes256Cbc);
}

#[test]
fn database_kinds_hold_their_settings() {
    let local = Database::Local(Local {
        path: PathBuf::from("/does-not-exist.db"),
        encryption_config: Some(EncryptionConfig {
            cipher: Cipher::Aes256Cbc,
            encryption_key: bytes::Bytes::from_static(b"secret"),
        }),
        flags: Some(OpenFlags { read_only: false, read_write: true, create: false }),
    });
    match local {
        Database::Local(local) => {
            assert_eq!(local.path, PathBuf::from("/does-not-exist.db"));
            assert_eq!(local.encryption_config.unwrap().encryption_key.as_ref(), b"secret");
            assert_eq!(
                local.flags,
                Some(OpenFlags { read_only: false, read_write: true, create: false })
            );
        }
        other => panic!("expected a local database, got {:?}", other),
    }

    let remote = Remote {
        url: "http://invalid-hostname.example.com:1337".to_string(),
        auth_token: "nothing here".to_string(),
        namespace: None,
        remote_encryption: Some(EncryptionContext {
            key: EncryptionKey::Base64Encoded("a2V5".to_string()),
        }),
    };
    let copy = remote.clone();
    assert_eq!(copy.url, "http://invalid-hostname.example.com:1337");
    assert_eq!(copy.auth_token, "nothing here");
    assert!(copy.namespace.is_none());
    assert!(matches!(
        copy.remote_encryption.unwrap().key,
        EncryptionKey::Base64Encoded(text) if text == "a2V5"
    ));

    let synced = SyncedDatabase {
        path: PathBuf::from("replica.db"),
        url: "libsql://example".to_string(),
        auth_token: "token".to_string(),
        read_your_writes: Some(true),
        remote_encryption: Some(EncryptionContext { key: EncryptionKey::Bytes(vec![1, 2, 3]) }),
        remote_writes: None,
        set_push_batch_size: Some(128),
        sync_interval: Some(Duration::from_secs(30)),
    };
    assert_eq!(synced.set_push_batch_size, Some(128));
    assert_eq!(synced.sync_interval, Some(Duration::from_secs(30)));
    assert_ne!(SyncProtocol::V1, SyncProtocol::V2);
}
