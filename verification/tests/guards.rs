use one_sided_escrow::{
    require_authority, require_has_one, require_signer, ruling_recipient, AccountRef,
    AuthorityOverride, AuthorityRuling, AuthoritySettings, Escrow, EscrowError, Identity,
    LedgerError,
};

fn key(n: u8) -> Identity {
    Identity::new([n; 32])
}

#[test]
fn signer_guard() {
    assert_eq!(require_signer(&AccountRef::signer(key(1))), Ok(()));
    assert_eq!(
        require_signer(&AccountRef::unsigned(key(1))),
        Err(EscrowError::Ledger(LedgerError::MissingSignature))
    );
}

#[test]
fn has_one_guard() {
    let escrow = Escrow { buyer: key(1), seller: key(2) };
    assert_eq!(require_has_one(&escrow, &key(1), &key(2)), Ok(()));
    let mismatch = Err(EscrowError::Ledger(LedgerError::RelationshipMismatch));
    assert_eq!(require_has_one(&escrow, &key(3), &key(2)), mismatch);
    assert_eq!(require_has_one(&escrow, &key(1), &key(3)), mismatch);
    assert_eq!(require_has_one(&escrow, &key(2), &key(1)), mismatch);
}

#[test]
fn authority_guard() {
    let settings = AuthoritySettings { address: key(50) };
    assert_eq!(require_authority(&settings, &AccountRef::signer(key(50))), Ok(()));
    assert_eq!(
        require_authority(&settings, &AccountRef::signer(key(51))),
        Err(EscrowError::AuthorityMismatch)
    );
    assert_eq!(
        require_authority(&settings, &AccountRef::unsigned(key(50))),
        Err(EscrowError::AuthorityMismatch)
    );
    assert_eq!(
        require_authority(&settings, &AccountRef::unsigned(key(51))),
        Err(EscrowError::AuthorityMismatch)
    );
}

#[test]
fn ruling_names_the_recipient() {
    let request = AuthorityOverride {
        buyer: AccountRef::unsigned(key(1)),
        seller: AccountRef::unsigned(key(2)),
        authority: AccountRef::signer(key(50)),
    };
    assert_eq!(ruling_recipient(&request, AuthorityRuling::Buyer), key(1));
    assert_eq!(ruling_recipient(&request, AuthorityRuling::Seller), key(2));
}

#[test]
fn identities_compare_by_every_byte() {
    let mut bytes = [7u8; 32];
    let a = Identity::new(bytes);
    assert_eq!(a, Identity::new([7u8; 32]));
    bytes[31] = 8;
    assert_ne!(a, Identity::new(bytes));
    bytes[31] = 7;
    bytes[0] = 6;
    assert_ne!(a, Identity::new(bytes));
    assert_eq!(a.to_bytes(), [7u8; 32]);
    assert_eq!(a.to_vec(), vec![7u8; 32]);
}

#[test]
fn error_messages() {
    assert_eq!(
        EscrowError::AuthorityMismatch.message(),
        "Authority Pubkey does not match the AuthoritySettings account."
    );
    assert_eq!(
        EscrowError::Ledger(LedgerError::RecordNotFound).message(),
        LedgerError::RecordNotFound.message()
    );
    let all = [
        LedgerError::AddressOccupied,
        LedgerError::RecordNotFound,
        LedgerError::RelationshipMismatch,
        LedgerError::MissingSignature,
        LedgerError::ControllerLinkage,
    ];
    for (i, a) in all.iter().enumerate() {
        for (j, b) in all.iter().enumerate() {
            assert_eq!(i == j, a.message() == b.message());
        }
    }
}

#[test]
fn record_sizes_and_labels() {
    assert_eq!(AuthoritySettings::SIZE, 40);
    assert_eq!(Escrow::SIZE, 72);
    assert_eq!(AuthoritySettings::PREFIX, "authority");
    assert_eq!(Escrow::PREFIX, "escrow");
    assert_eq!(AuthoritySettings::prefix_bytes(), AuthoritySettings::PREFIX.as_bytes().to_vec());
    assert_eq!(Escrow::prefix_bytes(), Escrow::PREFIX.as_bytes().to_vec());
}
