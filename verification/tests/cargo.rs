use dead_reckoning::cargo::{frame_entries, packed_salt, unframe_entries, Cargo};
use dead_reckoning::error::Error;

fn salt() -> Vec<u8> {
    (0u8..32).collect()
}

#[test]
fn seal_then_unseal() {
    let cargo = Cargo::open("hunter2", &salt()).unwrap();
    let sealed = cargo.seal(b"doubloons").unwrap();
    assert_eq!(sealed.len(), 12 + 9 + 16);
    assert_ne!(&sealed[12..21], b"doubloons");
    assert_eq!(cargo.unseal(&sealed).unwrap(), b"doubloons");
}

#[test]
fn same_password_and_salt_same_key() {
    let a = Cargo::open("hunter2", &salt()).unwrap();
    let b = Cargo::open("hunter2", &salt()).unwrap();
    let sealed = a.seal(b"x").unwrap();
    assert_eq!(b.unseal(&sealed).unwrap(), b"x");
}

#[test]
fn wrong_key_fails() {
    let a = Cargo::open("hunter2", &salt()).unwrap();
    let b = Cargo::open("hunter3", &salt()).unwrap();
    let sealed = a.seal(b"x").unwrap();
    assert!(matches!(b.unseal(&sealed), Err(Error::Crypto(_))));
    // a fresh vault has a fresh random salt
    let c = Cargo::new("hunter2").unwrap();
    assert!(c.unseal(&sealed).is_err());
}

#[test]
fn short_data_is_refused() {
    let a = Cargo::open("pw", &salt()).unwrap();
    match a.unseal(&[1, 2, 3]) {
        Err(Error::Crypto(m)) => assert_eq!(m, "Data too short - this ain't valid cargo!"),
        _ => panic!("expected a crypto error"),
    }
}

#[test]
fn short_salt_is_refused() {
    match Cargo::open("pw", &[1, 2, 3]) {
        Err(Error::Crypto(m)) => assert_eq!(m, "salt is too short"),
        _ => panic!("expected a crypto error"),
    }
}

#[test]
fn framing() {
    let entries = vec![b"ab".to_vec(), Vec::new(), b"xyz".to_vec()];
    let archive = frame_entries(&entries);
    assert_eq!(archive, vec![2, 0, 0, 0, b'a', b'b', 0, 0, 0, 0, 3, 0, 0, 0, b'x', b'y', b'z']);
    assert_eq!(unframe_entries(&archive), entries);
    // a truncated last entry is dropped
    assert_eq!(unframe_entries(&archive[..16]), vec![b"ab".to_vec(), Vec::new()]);
    assert_eq!(unframe_entries(&[1, 0]), Vec::<Vec<u8>>::new());
}

#[test]
fn pack_then_unpack() {
    let cargo = Cargo::open("pw", &salt()).unwrap();
    let entries = vec![b"{\"path\":\"a\"}".to_vec(), b"{\"path\":\"b\"}".to_vec()];
    let sealed = cargo.pack_files(&entries).unwrap();
    assert_eq!(cargo.unpack(&sealed).unwrap(), entries);
    let other = Cargo::open("other", &salt()).unwrap();
    assert!(other.unpack(&sealed).is_err());
}

#[test]
fn packed_cargo_reopens_with_the_password() {
    let packer = Cargo::new("sea shanty").unwrap();
    let entries = vec![b"one".to_vec(), b"two".to_vec()];
    let packed = packer.pack_files(&entries).unwrap();
    let salt = packed_salt(&packed).unwrap();
    assert_eq!(salt.len(), 32);
    let reopened = Cargo::open("sea shanty", salt).unwrap();
    assert_eq!(reopened.unpack(&packed).unwrap(), entries);
    let wrong = Cargo::open("land lubber", salt).unwrap();
    assert!(wrong.unpack(&packed).is_err());
    // a vault with another salt refuses the cargo before decrypting
    let other = Cargo::new("sea shanty").unwrap();
    match other.unpack(&packed) {
        Err(Error::Crypto(m)) => assert_eq!(m, "This cargo was packed with another salt"),
        _ => panic!("expected a crypto error"),
    }
    assert!(packed_salt(&[0u8; 5]).is_none());
}

#[test]
fn sizable_entry_round_trips() {
    let cargo = Cargo::open("pw", &salt()).unwrap();
    let entries = vec![vec![7u8; 1 << 16]];
    let packed = cargo.pack_files(&entries).unwrap();
    assert_eq!(cargo.unpack(&packed).unwrap(), entries);
}
