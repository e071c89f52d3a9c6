use relay_verifier::keys::{copy_bytes, same_bytes, ByteString, PublicKey, Signature, SignatureSet, ValidatorSet};

#[test]
fn byte_strings_compare_by_content() {
    assert!(same_bytes(&vec![], &vec![]));
    assert!(same_bytes(&vec![1, 2, 3], &vec![1, 2, 3]));
    assert!(!same_bytes(&vec![1, 2, 3], &vec![1, 2]));
    assert!(!same_bytes(&vec![1, 2, 3], &vec![1, 2, 4]));
    assert_eq!(copy_bytes(&vec![5, 6]), vec![5, 6]);
}

#[test]
fn keys_and_signatures_are_their_bytes() {
    let key = PublicKey::from_bytes(vec![1, 2]);
    assert_eq!(key.as_bytes(), &vec![1, 2]);
    assert_eq!(key.clone().bytes, vec![1, 2]);
    let signature = Signature::from_bytes(vec![3]);
    assert_eq!(signature.as_bytes(), &vec![3]);
    assert_eq!(signature.clone().bytes, vec![3]);
}

#[test]
fn a_set_holds_each_key_once() {
    let mut validators = ValidatorSet::new();
    assert!(validators.is_empty());
    assert_eq!(validators.len(), 0);
    assert!(validators.insert(PublicKey { bytes: vec![1] }));
    assert!(validators.insert(PublicKey { bytes: vec![2] }));
    assert!(!validators.insert(PublicKey { bytes: vec![1] }));
    assert_eq!(validators.len(), 2);
    assert!(!validators.is_empty());
    assert!(validators.contains(&PublicKey { bytes: vec![2] }));
    assert!(!validators.contains(&PublicKey { bytes: vec![3] }));
    assert_eq!(validators.get(0).bytes, vec![1]);
    assert_eq!(validators.get(1).bytes, vec![2]);
}

#[test]
fn a_copy_of_a_set_has_the_same_members() {
    let mut signatures = SignatureSet::new();
    signatures.insert(Signature { bytes: vec![9, 9] });
    signatures.insert(Signature { bytes: vec![] });
    let copy = signatures.clone();
    assert_eq!(copy.len(), 2);
    assert!(copy.contains(&Signature { bytes: vec![9, 9] }));
    assert!(copy.contains(&Signature { bytes: vec![] }));
    assert_eq!(copy.get(0).bytes, vec![9, 9]);
}
