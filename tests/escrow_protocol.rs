use vault_escrow::escrow::{escrow_seeds, Close, Escrow, EscrowError, Mint, Take, TokenAccount};
use vault_escrow::pda::{u64_le_bytes, Address, Derivation};

fn addr(b: u8) -> Address {
    Address { bytes: [b; 32] }
}

const MAKER: u8 = 10;
const TAKER: u8 = 11;
const ESCROW_KEY: u8 = 12;
const MINT_A: u8 = 13;
const MINT_B: u8 = 14;
const SEED: u64 = 42;
const BUMP: u8 = 253;

fn record(receive: u64) -> Escrow {
    Escrow {
        seed: SEED,
        maker: addr(MAKER),
        mint_a: addr(MINT_A),
        mint_b: addr(MINT_B),
        receive,
        bump: BUMP,
    }
}

fn account(mint: u8, owner: u8, amount: u64) -> TokenAccount {
    TokenAccount { mint: addr(mint), owner: addr(owner), amount }
}

fn derivation(maker: u8, seed: u64, bump: u8) -> Derivation {
    Derivation { seeds: escrow_seeds(&addr(maker), seed), bump }
}

/// An open escrow offering `offered` of mint A for `receive` of mint B, with a
/// taker holding `taker_b` of mint B.
fn take(offered: u64, receive: u64, taker_b: u64) -> Take {
    Take {
        seed: SEED,
        taker: addr(TAKER),
        maker: addr(MAKER),
        escrow_key: addr(ESCROW_KEY),
        escrow: Some(record(receive)),
        escrow_derivation: derivation(MAKER, SEED, BUMP),
        mint_a: Mint { key: addr(MINT_A), decimals: 6 },
        mint_b: Mint { key: addr(MINT_B), decimals: 9 },
        taker_ata_a: account(MINT_A, TAKER, 0),
        taker_ata_b: account(MINT_B, TAKER, taker_b),
        maker_ata_b: account(MINT_B, MAKER, 0),
        vault: Some(account(MINT_A, ESCROW_KEY, offered)),
    }
}

fn refund(offered: u64) -> Close {
    Close {
        seed: SEED,
        taker: addr(MAKER),
        escrow_key: addr(ESCROW_KEY),
        escrow: Some(record(200)),
        escrow_derivation: derivation(MAKER, SEED, BUMP),
        mint_a: Mint { key: addr(MINT_A), decimals: 6 },
        taker_ata_a: account(MINT_A, MAKER, 5),
        vault: Some(account(MINT_A, ESCROW_KEY, offered)),
    }
}

#[test]
fn take_swaps_500_a_for_200_b_and_deletes_everything() {
    let mut t = take(500, 200, 300);
    assert_eq!(t.take(), Ok(()));
    assert_eq!(t.maker_ata_b.amount, 200);
    assert_eq!(t.taker_ata_b.amount, 100);
    assert_eq!(t.taker_ata_a.amount, 500);
    assert!(t.escrow.is_none());
    assert!(t.vault.is_none());
    assert_eq!(t.take(), Err(EscrowError::AccountNotInitialized));
}

#[test]
fn take_in_two_legs() {
    let mut t = take(500, 200, 200);
    assert_eq!(t.deposit(200), Ok(()));
    assert_eq!(t.maker_ata_b.amount, 200);
    assert_eq!(t.taker_ata_b.amount, 0);
    assert!(t.escrow.is_some());
    assert_eq!(t.withdraw(500), Ok(()));
    assert_eq!(t.taker_ata_a.amount, 500);
    assert!(t.escrow.is_none());
    assert!(t.vault.is_none());
}

#[test]
fn take_without_enough_mint_b_is_rejected() {
    let mut t = take(500, 200, 199);
    assert_eq!(t.take(), Err(EscrowError::InsufficientFunds));
    assert_eq!(t.taker_ata_b.amount, 199);
    assert_eq!(t.maker_ata_b.amount, 0);
    assert_eq!(t.vault.map(|v| v.amount), Some(500));
    assert!(t.escrow.is_some());
}

#[test]
fn payment_below_receive_is_rejected() {
    let mut t = take(500, 200, 1000);
    assert_eq!(t.deposit(199), Err(EscrowError::InsufficientPayment));
    assert_eq!(t.deposit(201), Ok(()));
    assert_eq!(t.maker_ata_b.amount, 201);
}

#[test]
fn payment_beyond_taker_balance_is_rejected() {
    let mut t = take(500, 200, 250);
    assert_eq!(t.deposit(260), Err(EscrowError::InsufficientFunds));
}

#[test]
fn partial_payout_is_rejected() {
    let mut t = take(500, 200, 200);
    assert_eq!(t.withdraw(499), Err(EscrowError::AmountMismatch));
    assert!(t.escrow.is_some());
}

#[test]
fn payout_that_overflows_the_taker_is_rejected() {
    let mut t = take(500, 200, 200);
    t.taker_ata_a.amount = u64::MAX - 499;
    assert_eq!(t.withdraw(500), Err(EscrowError::ArithmeticOverflow));
    assert_eq!(t.take(), Err(EscrowError::ArithmeticOverflow));
}

#[test]
fn payment_that_overflows_the_maker_is_rejected() {
    let mut t = take(500, 200, 200);
    t.maker_ata_b.amount = u64::MAX - 199;
    assert_eq!(t.deposit(200), Err(EscrowError::ArithmeticOverflow));
    assert_eq!(t.take(), Err(EscrowError::ArithmeticOverflow));
}

#[test]
fn wrong_maker_is_rejected() {
    let mut t = take(500, 200, 200);
    t.maker = addr(99);
    t.maker_ata_b = account(MINT_B, 99, 0);
    assert_eq!(t.take(), Err(EscrowError::ConstraintAddress));
    let mut u = take(500, 200, 200);
    u.escrow_derivation = derivation(99, SEED, BUMP);
    assert_eq!(u.take(), Err(EscrowError::ConstraintSeeds));
}

#[test]
fn wrong_seed_is_rejected() {
    let mut t = take(500, 200, 200);
    t.escrow_derivation = derivation(MAKER, SEED + 1, BUMP);
    assert_eq!(t.take(), Err(EscrowError::ConstraintSeeds));
    let mut u = take(500, 200, 200);
    u.seed = SEED + 256;
    assert_eq!(u.deposit(200), Err(EscrowError::ConstraintSeeds));
}

#[test]
fn wrong_bump_is_rejected() {
    let mut t = take(500, 200, 200);
    t.escrow_derivation = derivation(MAKER, SEED, BUMP - 1);
    assert_eq!(t.withdraw(500), Err(EscrowError::ConstraintSeeds));
    let mut c = refund(500);
    c.escrow_derivation = derivation(MAKER, SEED, 0);
    assert_eq!(c.close(), Err(EscrowError::ConstraintSeeds));
}

#[test]
fn wrong_mint_is_rejected() {
    let mut t = take(500, 200, 200);
    t.mint_b = Mint { key: addr(77), decimals: 9 };
    assert_eq!(t.take(), Err(EscrowError::ConstraintMint));
}

#[test]
fn token_account_of_another_owner_is_rejected() {
    let mut t = take(500, 200, 200);
    t.vault = Some(account(MINT_A, TAKER, 500));
    assert_eq!(t.take(), Err(EscrowError::ConstraintTokenAccount));
    let mut u = take(500, 200, 200);
    u.taker_ata_b = account(MINT_A, TAKER, 200);
    assert_eq!(u.take(), Err(EscrowError::ConstraintTokenAccount));
}

#[test]
fn missing_vault_is_rejected() {
    let mut t = take(500, 200, 200);
    t.vault = None;
    assert_eq!(t.take(), Err(EscrowError::AccountNotInitialized));
}

#[test]
fn refund_drains_the_vault_and_deletes_the_record() {
    let mut c = refund(500);
    assert_eq!(c.close(), Ok(500));
    assert_eq!(c.taker_ata_a.amount, 505);
    assert!(c.vault.is_none());
    assert!(c.escrow.is_none());
    assert_eq!(c.close(), Err(EscrowError::AccountNotInitialized));
    let mut t = take(500, 200, 200);
    t.escrow = c.escrow;
    assert_eq!(t.take(), Err(EscrowError::AccountNotInitialized));
}

#[test]
fn refund_by_someone_other_than_the_maker_is_rejected() {
    let mut c = refund(500);
    c.taker = addr(TAKER);
    c.taker_ata_a = account(MINT_A, TAKER, 0);
    c.escrow_derivation = derivation(TAKER, SEED, BUMP);
    assert_eq!(c.close(), Err(EscrowError::ConstraintSeeds));
    assert_eq!(c.vault.map(|v| v.amount), Some(500));
}

#[test]
fn refund_that_overflows_is_rejected() {
    let mut c = refund(500);
    c.taker_ata_a.amount = u64::MAX;
    assert_eq!(c.close(), Err(EscrowError::ArithmeticOverflow));
}

#[test]
fn escrow_seeds_are_tag_maker_and_little_endian_seed() {
    let s = escrow_seeds(&addr(MAKER), 0x0102_0304_0506_0708);
    assert_eq!(
        s,
        vec![b"escrow".to_vec(), vec![MAKER; 32], vec![8, 7, 6, 5, 4, 3, 2, 1]]
    );
}

#[test]
fn record_signs_with_its_stored_fields() {
    let r = record(200);
    assert_eq!(
        r.signer_seeds(),
        vec![b"escrow".to_vec(), vec![MAKER; 32], SEED.to_le_bytes().to_vec(), vec![BUMP]]
    );
    let t = take(500, 200, 200);
    assert_eq!(t.vault_signer_seeds(), Some(r.signer_seeds()));
    assert_eq!(refund(1).vault_signer_seeds(), Some(r.signer_seeds()));
}

#[test]
fn little_endian_bytes_of_u64() {
    assert_eq!(u64_le_bytes(0), vec![0; 8]);
    assert_eq!(u64_le_bytes(u64::MAX), vec![255; 8]);
    assert_eq!(u64_le_bytes(258), vec![2, 1, 0, 0, 0, 0, 0, 0]);
}

#[test]
fn addresses_compare_by_bytes() {
    let mut b = addr(3);
    assert!(addr(3).same(&b));
    b.bytes[31] = 4;
    assert!(!addr(3).same(&b));
    assert_eq!(addr(6).to_seed(), vec![6; 32]);
}

#[test]
fn derivation_signer_seeds_append_bump() {
    let d = derivation(MAKER, 1, 9);
    assert!(d.matches(&escrow_seeds(&addr(MAKER), 1), 9));
    assert!(!d.matches(&escrow_seeds(&addr(MAKER), 1), 8));
    assert!(!d.matches(&escrow_seeds(&addr(MAKER), 2), 9));
    let mut expected = escrow_seeds(&addr(MAKER), 1);
    expected.push(vec![9]);
    assert_eq!(d.signer_seeds(), expected);
}
