use anchor_lang::prelude::Pubkey;
use document_permissions::Identity;

fn key(first: u8, last: u8) -> Pubkey {
    let mut bytes = [0x42u8; 32];
    bytes[0] = first;
    bytes[31] = last;
    Pubkey::new_from_array(bytes)
}

#[test]
fn identities_are_equal_exactly_when_their_keys_are() {
    let keys = [key(0, 0), key(0, 1), key(1, 0), key(1, 1), key(0, 0)];
    for a in keys.iter() {
        for b in keys.iter() {
            let left = Identity::new(a.to_bytes());
            let right = Identity::new(b.to_bytes());
            assert_eq!(left.same_as(&right), a == b);
            assert_eq!(left == right, a == b);
        }
    }
}

#[test]
fn an_identity_gives_its_key_back() {
    let k = key(9, 200);
    let identity = Identity::new(k.to_bytes());
    assert_eq!(Pubkey::new_from_array(identity.to_bytes()), k);
}
