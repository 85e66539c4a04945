use dynamic_canisters::identity::{UnitIdentity, MAX_IDENTITY_BYTES};

#[test]
fn identity_keeps_its_bytes() {
    let bytes = [1u8, 2, 3, 0, 255];
    let made = UnitIdentity::from_slice(&bytes).unwrap();
    assert_eq!(made.to_vec(), bytes.to_vec());
    assert_eq!(made.len(), 5);
}

#[test]
fn identity_may_be_empty() {
    let made = UnitIdentity::from_slice(&[]).unwrap();
    assert_eq!(made.to_vec(), Vec::<u8>::new());
    assert_eq!(made, UnitIdentity::empty());
    assert_eq!(UnitIdentity::empty().len(), 0);
}

#[test]
fn identity_of_the_greatest_length() {
    assert_eq!(MAX_IDENTITY_BYTES, 29);
    let bytes: Vec<u8> = (1..=29).collect();
    let made = UnitIdentity::from_slice(&bytes).unwrap();
    assert_eq!(made.len(), 29);
    assert_eq!(made.to_vec(), bytes);
}

#[test]
fn identity_of_thirty_bytes_cannot_be_made() {
    assert_eq!(UnitIdentity::from_slice(&[0u8; 30]), None);
    assert_eq!(UnitIdentity::from_slice(&[7u8; 64]), None);
}

#[test]
fn identities_are_equal_when_their_bytes_are() {
    let one = UnitIdentity::from_slice(&[5, 6]).unwrap();
    let same = UnitIdentity::from_slice(&[5, 6]).unwrap();
    let longer = UnitIdentity::from_slice(&[5, 6, 0]).unwrap();
    assert_eq!(one, same);
    assert_ne!(one, longer);
    assert_ne!(one, UnitIdentity::empty());
}
