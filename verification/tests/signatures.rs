use biiot::key::{Pk, Sk};
use biiot::secp256k1::{recover_from_sig, recover_from_vrs, sign, sign_recoverable, verify};

fn key() -> Sk {
    Sk::new(&[0xcd; 32])
}

#[test]
fn a_signature_is_verified_by_the_public_key() {
    let sk = key();
    let pk = sk.pubkey().unwrap();
    assert_eq!(pk.to_vec().len(), 33);
    let digest = [7u8; 32];
    let sig = sign(&sk, &digest).unwrap();
    assert_eq!(verify(&pk, &digest, &sig), Some(true));
    assert_eq!(verify(&pk, &[8u8; 32], &sig), Some(false));
    assert_eq!(sign(&sk, &digest).unwrap(), sig);
    assert_ne!(sign(&sk, &[8u8; 32]).unwrap(), sig);
}

#[test]
fn bytes_that_are_no_key_give_nothing() {
    let zero = Sk::new(&[0u8; 32]);
    assert!(sign(&zero, &[7u8; 32]).is_none());
    assert!(sign_recoverable(&zero, &[7u8; 32]).is_none());
    assert!(zero.pubkey().is_none());
    assert!(Pk::from_sk(Sk::new(&[0xff; 32])).is_none());
    let no_key = Pk::from([0u8; 33]);
    assert_eq!(verify(&no_key, &[7u8; 32], &[1u8; 64]), None);
}

#[test]
fn the_signer_is_found_again() {
    let sk = key();
    let pk = sk.pubkey().unwrap();
    let digest = [9u8; 32];
    let (id, sig) = sign_recoverable(&sk, &digest).unwrap();
    assert!((0..4).contains(&id));
    assert_eq!(sig, sign(&sk, &digest).unwrap());
    let found = recover_from_sig(id, sig, &digest).unwrap();
    assert_eq!(found.to_vec(), pk.to_vec());
    let mut r = [0u8; 32];
    let mut s = [0u8; 32];
    r.copy_from_slice(&sig[..32]);
    s.copy_from_slice(&sig[32..]);
    assert_eq!(recover_from_vrs(&digest, id, r, s).unwrap().to_vec(), pk.to_vec());
    assert!(recover_from_sig(4, sig, &digest).is_none());
    assert!(recover_from_sig(-1, sig, &digest).is_none());
    assert!(recover_from_vrs(&digest, id, [0u8; 32], [0u8; 32]).is_none());
}

#[test]
fn random_keys_differ() {
    let a = Sk::random();
    let b = Sk::random();
    assert_eq!(a.as_ref().len(), 32);
    assert_ne!(a.as_ref(), b.as_ref());
}
