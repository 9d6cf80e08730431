use netcfg::credential::Credential;
use netcfg::credential::CredentialError;
use netcfg::storage::StorageError;
use netcfg::store::LoadError;
use netcfg::store::clear_marker;
use netcfg::store::credential_key;
use netcfg::store::decode_credential;
use netcfg::store::encode_credential;
use netcfg::store::load_from;

#[test]
fn round_trip_save_then_load() {
    let c = Credential::new(b"MyNet".to_vec(), b"Secret123".to_vec()).unwrap();
    let stored = encode_credential(&c);
    let loaded = decode_credential(&stored).unwrap();
    assert_eq!(loaded.ssid(), &b"MyNet".to_vec());
    assert_eq!(loaded.password(), &b"Secret123".to_vec());
    assert_eq!(loaded, c);
}

#[test]
fn round_trip_empty_password() {
    let c = Credential::new(b"open-net".to_vec(), Vec::new()).unwrap();
    let stored = encode_credential(&c);
    let loaded = decode_credential(&stored).unwrap();
    assert_eq!(loaded, c);
}

#[test]
fn encode_layout_is_exact() {
    let c = Credential::new(b"ab".to_vec(), b"xy".to_vec()).unwrap();
    assert_eq!(encode_credential(&c), b"02abxy".to_vec());
    let c = Credential::new(b"abcdefghijkl".to_vec(), b"pw".to_vec()).unwrap();
    assert_eq!(encode_credential(&c), b"12abcdefghijklpw".to_vec());
}

#[test]
fn boundary_max_lengths_round_trip() {
    let ssid = vec![b's'; 32];
    let password = vec![b'p'; 64];
    let c = Credential::new(ssid.clone(), password.clone()).unwrap();
    let stored = encode_credential(&c);
    assert_eq!(stored.len(), 2 + 32 + 64);
    let loaded = decode_credential(&stored).unwrap();
    assert_eq!(loaded.ssid(), &ssid);
    assert_eq!(loaded.password(), &password);
}

#[test]
fn over_limit_ssid_is_rejected() {
    let r = Credential::new(vec![b's'; 33], b"pw".to_vec());
    assert_eq!(r, Err(CredentialError::SsidTooLong));
}

#[test]
fn over_limit_password_is_rejected() {
    let r = Credential::new(b"net".to_vec(), vec![b'p'; 65]);
    assert_eq!(r, Err(CredentialError::PasswordTooLong));
}

#[test]
fn nul_bytes_are_rejected() {
    let r = Credential::new(b"ne\0t".to_vec(), b"pw".to_vec());
    assert_eq!(r, Err(CredentialError::SsidHasNul));
    let r = Credential::new(b"net".to_vec(), b"p\0w".to_vec());
    assert_eq!(r, Err(CredentialError::PasswordHasNul));
}

#[test]
fn clear_then_load_reports_not_found() {
    let marker = clear_marker();
    assert_eq!(marker.len(), 0);
    assert_eq!(decode_credential(&marker), Err(LoadError::NotFound));
    assert_eq!(load_from(Ok(marker)), Err(LoadError::NotFound));
}

#[test]
fn malformed_records_are_not_conflated_with_absent() {
    assert_eq!(decode_credential(&b"9".to_vec()), Err(LoadError::Malformed));
    assert_eq!(decode_credential(&b"zzabc".to_vec()), Err(LoadError::Malformed));
    assert_eq!(decode_credential(&b"99abc".to_vec()), Err(LoadError::Malformed));
    assert_eq!(decode_credential(&b"05ab".to_vec()), Err(LoadError::Malformed));
    assert_eq!(decode_credential(&b"00\0".to_vec()), Err(LoadError::Malformed));
}

#[test]
fn load_surfaces_storage_failures() {
    assert_eq!(
        load_from(Err(StorageError::Open(261))),
        Err(LoadError::Storage(StorageError::Open(261)))
    );
    assert_eq!(
        load_from(Err(StorageError::Decode)),
        Err(LoadError::Storage(StorageError::Decode))
    );
}

#[test]
fn credential_key_is_fixed() {
    assert_eq!(credential_key(), "netcfg");
}

#[test]
fn error_values_carry_their_payloads() {
    // Each error variant is distinct and keeps its foreign status code.
    assert_ne!(StorageError::Open(1), StorageError::Open(2));
    assert_ne!(StorageError::Open(1), StorageError::Read(1));
    assert_ne!(LoadError::NotFound, LoadError::Malformed);
}
