use dead_reckoning::error::Error;
use dead_reckoning::fleet::shares::{shares_from_hex, shares_to_hex, SecretSharing};

#[test]
fn test_split_and_recover() {
    // The classic treasure map scenario
    let secret = b"the treasure is buried at skull island";
    let sharing = SecretSharing::new(3, 5);

    let shares = sharing.split(secret).unwrap();
    assert_eq!(shares.len(), 5);

    // Recover with exactly threshold shares (3 of 5)
    let recovered = sharing.reconstruct(&shares[0..3]).unwrap();
    assert_eq!(recovered, secret);

    // Recover with more than threshold (all 5)
    let recovered = sharing.reconstruct(&shares[0..5]).unwrap();
    assert_eq!(recovered, secret);

    // Different subset of 3 should also work
    let recovered = sharing.reconstruct(&shares[2..5]).unwrap();
    assert_eq!(recovered, secret);
}

#[test]
fn test_insufficient_shares() {
    let secret = b"not enough pieces of eight";
    let sharing = SecretSharing::new(3, 5);

    let shares = sharing.split(secret).unwrap();

    // Try with only 2 shares when we need 3
    let result = sharing.reconstruct(&shares[0..2]);
    assert!(result.is_err());

    if let Err(Error::InsufficientShares { need, have }) = result {
        assert_eq!(need, 3);
        assert_eq!(have, 2);
    } else {
        panic!("Expected InsufficientShares error");
    }
}

#[test]
fn shares_carry_x_then_tagged_secret() {
    let sharing = SecretSharing::new(2, 4);
    let shares = sharing.split(b"abc").unwrap();
    assert_eq!(shares.len(), 4);
    for (i, s) in shares.iter().enumerate() {
        assert_eq!(s.len(), 3 + 8 + 1);
        assert_eq!(s[0] as usize, i + 1);
    }
    let recovered = sharing.reconstruct(&[shares[3].clone(), shares[1].clone()]).unwrap();
    assert_eq!(recovered, b"abc");
}

#[test]
fn hex_round_trip() {
    let shares = vec![vec![1u8, 0xab, 0x00], vec![2u8, 0xff]];
    let texts = shares_to_hex(&shares);
    assert_eq!(texts, vec!["01ab00".to_string(), "02ff".to_string()]);
    let padded: Vec<String> = texts.iter().map(|t| format!("  {}\n", t)).collect();
    assert_eq!(shares_from_hex(&padded).unwrap(), shares);
    assert_eq!(shares_from_hex(&["zz".to_string()]).unwrap_err(), "Invalid character 'z' at position 0");
    assert_eq!(shares_from_hex(&["abc".to_string()]).unwrap_err(), "Odd number of digits");
    assert_eq!(
        shares_from_hex(&["ab".to_string(), " 0g ".to_string(), "x".to_string()]).unwrap_err(),
        "Invalid character 'g' at position 1"
    );
}

#[test]
fn error_messages() {
    let e = Error::InsufficientShares { need: 3, have: 1 };
    assert_eq!(e.message(), "Not enough captains to reconstruct secret. Need 3, have 1.");
}

#[test]
fn shares_of_different_splits_are_refused() {
    let ss = SecretSharing::new(2, 3);
    let a = ss.split(b"alpha").unwrap();
    let b = ss.split(b"bravo").unwrap();
    let mixed = vec![a[0].clone(), b[1].clone()];
    match ss.reconstruct(&mixed) {
        Err(Error::Crypto(m)) => assert_eq!(
            m,
            "Recovery failed: the shares do not belong to the same secret. Shares might be corrupted."
        ),
        other => panic!("expected a crypto error, got {:?}", other),
    }
    assert_eq!(ss.reconstruct(&[a[2].clone(), a[0].clone()]).unwrap(), b"alpha");
}

#[test]
fn empty_secret_round_trips() {
    let ss = SecretSharing::new(2, 2);
    let shares = ss.split(b"").unwrap();
    assert_eq!(ss.reconstruct(&shares).unwrap(), Vec::<u8>::new());
}

#[test]
fn bad_shares_are_refused() {
    let ss = SecretSharing::new(1, 1);
    match ss.reconstruct(&[vec![1u8]]) {
        Err(Error::Crypto(m)) => assert_eq!(m, "Invalid share: A Share must be at least 2 bytes long. Someone's been tamperin'."),
        _ => panic!("expected a crypto error"),
    }
}
