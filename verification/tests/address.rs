use anchor_lang::prelude::Pubkey;
use one_sided_escrow::{authority_settings_address, escrow_address, Identity};

fn key(n: u8) -> Identity {
    Identity::new([n; 32])
}

#[test]
fn escrow_address_of_a_known_pair() {
    let expected: [u8; 32] = [
        189, 163, 176, 0, 212, 173, 181, 112, 200, 23, 220, 86, 85, 15, 116, 115, 141, 81, 127, 156,
        99, 205, 118, 160, 44, 148, 140, 206, 61, 197, 152, 120,
    ];
    assert_eq!(escrow_address(&key(3), &key(1), &key(2)), Some((Identity::new(expected), 254)));
}

#[test]
fn escrow_address_depends_on_the_order_of_the_pair() {
    let expected: [u8; 32] = [
        188, 105, 46, 169, 25, 48, 19, 208, 85, 196, 117, 14, 148, 41, 129, 182, 157, 130, 104, 43,
        33, 26, 58, 15, 37, 48, 230, 204, 49, 203, 30, 146,
    ];
    assert_eq!(escrow_address(&key(3), &key(2), &key(1)), Some((Identity::new(expected), 251)));
    assert_ne!(escrow_address(&key(3), &key(2), &key(1)), escrow_address(&key(3), &key(1), &key(2)));
}

#[test]
fn authority_settings_address_of_a_known_program() {
    let expected: [u8; 32] = [
        6, 224, 14, 139, 161, 186, 94, 40, 202, 174, 216, 119, 97, 14, 169, 65, 232, 141, 11, 175, 5,
        167, 27, 174, 165, 92, 241, 103, 78, 201, 238, 171,
    ];
    assert_eq!(authority_settings_address(&key(3)), Some((Identity::new(expected), 255)));
}

#[test]
fn addresses_agree_with_the_ledger_derivation() {
    for n in 0..20u8 {
        let program = Pubkey::new_from_array([n.wrapping_mul(13); 32]);
        let buyer = [n; 32];
        let seller = [n.wrapping_add(100); 32];
        let (address, bump) =
            Pubkey::find_program_address(&[b"escrow", &buyer[..], &seller[..]], &program);
        assert_eq!(
            escrow_address(
                &Identity::new(program.to_bytes()),
                &Identity::new(buyer),
                &Identity::new(seller)
            ),
            Some((Identity::new(address.to_bytes()), bump))
        );
        let (singleton, singleton_bump) = Pubkey::find_program_address(&[b"authority"], &program);
        assert_eq!(
            authority_settings_address(&Identity::new(program.to_bytes())),
            Some((Identity::new(singleton.to_bytes()), singleton_bump))
        );
    }
}

#[test]
fn address_derivation_is_repeatable() {
    let first = escrow_address(&key(9), &key(4), &key(5));
    assert!(first.is_some());
    assert_eq!(first, escrow_address(&key(9), &key(4), &key(5)));
    assert_ne!(first, escrow_address(&key(10), &key(4), &key(5)));
    assert_ne!(first.map(|found| found.0), Some(key(9)));
}
