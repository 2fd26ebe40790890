//! Two-party token escrow: the settlement half.
//!
//! A maker has deposited an amount of mint A into a custody token account
//! (the vault) owned by the escrow record, located at the seeds
//! `["escrow", maker, seed]`. A taker settles by paying the record's `receive`
//! amount of mint B to the maker and receiving the whole vault; the refund path
//! returns the whole vault to the maker. Either way the vault and the record
//! are deleted in the same step.
use vstd::prelude::*;
use crate::pda::{Address, Derivation, seeds_view, three_seeds, u64_le_bytes, le_bytes, pow256, lemma_le_bytes_injective};

verus! {

/// The persisted escrow record.
#[derive(Clone, Copy, Debug)]
pub struct Escrow {
    pub seed: u64,
    pub maker: Address,
    pub mint_a: Address,
    pub mint_b: Address,
    /// Amount of mint B the maker asks for.
    pub receive: u64,
    pub bump: u8,
}

/// A token type: its address and its number of decimals.
#[derive(Clone, Copy, Debug)]
pub struct Mint {
    pub key: Address,
    pub decimals: u8,
}

/// A token account: which mint it holds, who may move it, and its balance.
#[derive(Clone, Copy, Debug)]
pub struct TokenAccount {
    pub mint: Address,
    pub owner: Address,
    pub amount: u64,
}

/// The escrow program's empty setup instruction.
#[derive(Clone, Copy, Debug)]
pub struct Initialize {}

/// Why an escrow instruction is rejected.
#[derive(Clone, Copy, Debug, PartialEq, Eq, Structural)]
pub enum EscrowError {
    /// The record or the vault does not exist.
    AccountNotInitialized,
    /// The supplied maker is not the record's maker.
    ConstraintAddress,
    /// The record is not at the derivation from the maker, the seed and its bump.
    ConstraintSeeds,
    /// A supplied mint is not the record's.
    ConstraintMint,
    /// A token account holds another mint or has another owner.
    ConstraintTokenAccount,
    /// The payment is below the record's `receive` amount.
    InsufficientPayment,
    /// The paying token account holds less than the amount.
    InsufficientFunds,
    /// A payout that is not the vault's whole balance.
    AmountMismatch,
    /// The receiving balance would exceed the largest amount.
    ArithmeticOverflow,
}

/// The ASCII bytes of `escrow`.
pub open spec fn escrow_tag() -> Seq<u8> {
    seq![101u8, 115u8, 99u8, 114u8, 111u8, 119u8]
}

/// Seeds of the record for `maker` and `seed`: `["escrow", maker, seed]`, the
/// seed as eight little-endian bytes.
pub open spec fn escrow_seeds_spec(maker: Seq<u8>, seed: u64) -> Seq<Seq<u8>> {
    seq![escrow_tag(), maker, le_bytes(seed as nat, 8)]
}

pub fn escrow_seeds(maker: &Address, seed: u64) -> (r: Vec<Vec<u8>>)
    ensures
        seeds_view(r@) == escrow_seeds_spec(maker@, seed),
{
    let tag: Vec<u8> = vec![101u8, 115u8, 99u8, 114u8, 111u8, 119u8];
    assert(tag@ =~= escrow_tag());
    three_seeds(tag, maker.to_seed(), u64_le_bytes(seed))
}

impl Escrow {
    /// The signer seeds under which the record authorises the vault's
    /// transfers, from its own stored fields: `["escrow", maker, seed, [bump]]`.
    pub fn signer_seeds(&self) -> (r: Vec<Vec<u8>>)
        ensures
            seeds_view(r@) == escrow_seeds_spec(self.maker@, self.seed).push(seq![self.bump]),
    {
        let mut r = escrow_seeds(&self.maker, self.seed);
        let last: Vec<u8> = vec![self.bump];
        let ghost before = r@;
        r.push(last);
        assert(last@ =~= seq![self.bump]);
        assert(seeds_view(r@) =~= seeds_view(before).push(last@));
        r
    }
}

/// Whether `acc` holds `mint` and is owned by `owner`.
pub open spec fn holds(acc: TokenAccount, mint: Address, owner: Address) -> bool {
    acc.mint@ == mint@ && acc.owner@ == owner@
}

pub fn check_holds(acc: &TokenAccount, mint: &Address, owner: &Address) -> (r: bool)
    ensures
        r == holds(*acc, *mint, *owner),
{
    acc.mint.same(mint) && acc.owner.same(owner)
}

/// Whether `d` is the derivation of the record `e` for `maker` and `seed`.
pub open spec fn record_at(d: Derivation, e: Escrow, maker: Address, seed: u64) -> bool {
    d.is(escrow_seeds_spec(maker@, seed), e.bump) && e.seed == seed
}

pub fn check_record_at(d: &Derivation, e: &Escrow, maker: &Address, seed: u64) -> (r: bool)
    ensures
        r == record_at(*d, *e, *maker, seed),
{
    e.seed == seed && d.matches(&escrow_seeds(maker, seed), e.bump)
}

/// The accounts of a settlement by a taker, for the record at `seed`.
#[derive(Debug)]
pub struct Take {
    pub seed: u64,
    pub taker: Address,
    pub maker: Address,
    pub escrow_key: Address,
    pub escrow: Option<Escrow>,
    pub escrow_derivation: Derivation,
    pub mint_a: Mint,
    pub mint_b: Mint,
    /// The taker's account of mint A, which receives the vault.
    pub taker_ata_a: TokenAccount,
    /// The taker's account of mint B, which pays the maker.
    pub taker_ata_b: TokenAccount,
    /// The maker's account of mint B.
    pub maker_ata_b: TokenAccount,
    /// The custody account of mint A, owned by the record.
    pub vault: Option<TokenAccount>,
}

impl Take {
    /// Why the accounts are refused, before any amount is looked at.
    pub open spec fn account_error(&self) -> Option<EscrowError> {
        match self.escrow {
            None => Some(EscrowError::AccountNotInitialized),
            Some(e) => if e.maker@ != self.maker@ {
                Some(EscrowError::ConstraintAddress)
            } else if !record_at(self.escrow_derivation, e, self.maker, self.seed) {
                Some(EscrowError::ConstraintSeeds)
            } else if self.mint_a.key@ != e.mint_a@ || self.mint_b.key@ != e.mint_b@ {
                Some(EscrowError::ConstraintMint)
            } else {
                match self.vault {
                    None => Some(EscrowError::AccountNotInitialized),
                    Some(v) => if holds(v, self.mint_a.key, self.escrow_key) && holds(
                        self.taker_ata_a,
                        self.mint_a.key,
                        self.taker,
                    ) && holds(self.taker_ata_b, self.mint_b.key, self.taker) && holds(
                        self.maker_ata_b,
                        self.mint_b.key,
                        self.maker,
                    ) {
                        None
                    } else {
                        Some(EscrowError::ConstraintTokenAccount)
                    },
                }
            },
        }
    }

    /// The record's `receive` amount.
    pub open spec fn receive_spec(&self) -> u64 {
        self.escrow->Some_0.receive
    }

    /// The vault's balance.
    pub open spec fn vault_amount(&self) -> u64 {
        self.vault->Some_0.amount
    }

    /// Why paying `amount` of mint B to the maker is rejected, if it is.
    pub open spec fn deposit_error(&self, amount: u64) -> Option<EscrowError> {
        if self.account_error() is Some {
            self.account_error()
        } else if amount < self.receive_spec() {
            Some(EscrowError::InsufficientPayment)
        } else if self.taker_ata_b.amount < amount {
            Some(EscrowError::InsufficientFunds)
        } else if self.maker_ata_b.amount + amount > u64::MAX {
            Some(EscrowError::ArithmeticOverflow)
        } else {
            None
        }
    }

    /// The accounts after `amount` of mint B went from the taker to the maker.
    pub open spec fn paid(self, amount: u64) -> Take {
        Take {
            taker_ata_b: TokenAccount {
                amount: (self.taker_ata_b.amount - amount) as u64,
                ..self.taker_ata_b
            },
            maker_ata_b: TokenAccount {
                amount: (self.maker_ata_b.amount + amount) as u64,
                ..self.maker_ata_b
            },
            ..self
        }
    }

    /// Why paying `amount` of the vault to the taker is rejected, if it is.
    pub open spec fn withdraw_error(&self, amount: u64) -> Option<EscrowError> {
        if self.account_error() is Some {
            self.account_error()
        } else if amount != self.vault_amount() {
            Some(EscrowError::AmountMismatch)
        } else if self.taker_ata_a.amount + amount > u64::MAX {
            Some(EscrowError::ArithmeticOverflow)
        } else {
            None
        }
    }

    /// The accounts after the vault was paid to the taker and closed, and the
    /// record deleted.
    pub open spec fn settled(self) -> Take {
        Take {
            taker_ata_a: TokenAccount {
                amount: (self.taker_ata_a.amount + self.vault_amount()) as u64,
                ..self.taker_ata_a
            },
            vault: None,
            escrow: None,
            ..self
        }
    }

    /// Why the whole settlement is rejected, if it is.
    pub open spec fn take_error(&self) -> Option<EscrowError> {
        if self.account_error() is Some {
            self.account_error()
        } else if self.taker_ata_b.amount < self.receive_spec() {
            Some(EscrowError::InsufficientFunds)
        } else if self.maker_ata_b.amount + self.receive_spec() > u64::MAX {
            Some(EscrowError::ArithmeticOverflow)
        } else if self.taker_ata_a.amount + self.vault_amount() > u64::MAX {
            Some(EscrowError::ArithmeticOverflow)
        } else {
            None
        }
    }

    fn check_accounts(&self) -> (r: Result<(), EscrowError>)
        ensures
            match self.account_error() {
                Some(e) => r == Err::<(), EscrowError>(e),
                None => r is Ok,
            },
    {
        let e = match &self.escrow {
            None => {
                return Err(EscrowError::AccountNotInitialized);
            },
            Some(e) => e,
        };
        if !e.maker.same(&self.maker) {
            return Err(EscrowError::ConstraintAddress);
        }
        if !check_record_at(&self.escrow_derivation, e, &self.maker, self.seed) {
            return Err(EscrowError::ConstraintSeeds);
        }
        if !self.mint_a.key.same(&e.mint_a) || !self.mint_b.key.same(&e.mint_b) {
            return Err(EscrowError::ConstraintMint);
        }
        let v = match &self.vault {
            None => {
                return Err(EscrowError::AccountNotInitialized);
            },
            Some(v) => v,
        };
        if check_holds(v, &self.mint_a.key, &self.escrow_key) && check_holds(
            &self.taker_ata_a,
            &self.mint_a.key,
            &self.taker,
        ) && check_holds(&self.taker_ata_b, &self.mint_b.key, &self.taker) && check_holds(
            &self.maker_ata_b,
            &self.mint_b.key,
            &self.maker,
        ) {
            Ok(())
        } else {
            Err(EscrowError::ConstraintTokenAccount)
        }
    }

    /// First leg: pays `deposit` of mint B from the taker to the maker. The
    /// payment must reach the record's `receive` amount.
    pub fn deposit(&mut self, deposit: u64) -> (r: Result<(), EscrowError>)
        ensures
            match old(self).deposit_error(deposit) {
                Some(e) => r == Err::<(), EscrowError>(e) && *final(self) == *old(self),
                None => r is Ok && *final(self) == old(self).paid(deposit),
            },
    {
        self.check_accounts()?;
        let receive = match &self.escrow {
            Some(e) => e.receive,
            None => 0,
        };
        if deposit < receive {
            return Err(EscrowError::InsufficientPayment);
        }
        if self.taker_ata_b.amount < deposit {
            return Err(EscrowError::InsufficientFunds);
        }
        if self.maker_ata_b.amount > u64::MAX - deposit {
            return Err(EscrowError::ArithmeticOverflow);
        }
        self.taker_ata_b.amount = self.taker_ata_b.amount - deposit;
        self.maker_ata_b.amount = self.maker_ata_b.amount + deposit;
        Ok(())
    }

    /// Second leg: pays the vault's whole balance, `withdraw`, to the taker
    /// under the record's authority, then closes the vault and the record.
    pub fn withdraw(&mut self, withdraw: u64) -> (r: Result<(), EscrowError>)
        ensures
            match old(self).withdraw_error(withdraw) {
                Some(e) => r == Err::<(), EscrowError>(e) && *final(self) == *old(self),
                None => r is Ok && *final(self) == old(self).settled(),
            },
    {
        self.check_accounts()?;
        let held = match &self.vault {
            Some(v) => v.amount,
            None => 0,
        };
        if withdraw != held {
            return Err(EscrowError::AmountMismatch);
        }
        if self.taker_ata_a.amount > u64::MAX - withdraw {
            return Err(EscrowError::ArithmeticOverflow);
        }
        self.taker_ata_a.amount = self.taker_ata_a.amount + withdraw;
        self.vault = None;
        self.escrow = None;
        Ok(())
    }

    /// The whole settlement: the taker pays the record's `receive` amount of
    /// mint B to the maker and receives the vault's whole balance of mint A;
    /// the vault and the record are deleted. Either both legs happen or
    /// neither does.
    pub fn take(&mut self) -> (r: Result<(), EscrowError>)
        ensures
            match old(self).take_error() {
                Some(e) => r == Err::<(), EscrowError>(e) && *final(self) == *old(self),
                None => r is Ok && *final(self) == old(self).paid(old(self).receive_spec()).settled(),
            },
    {
        self.check_accounts()?;
        let receive = match &self.escrow {
            Some(e) => e.receive,
            None => 0,
        };
        let held = match &self.vault {
            Some(v) => v.amount,
            None => 0,
        };
        if self.taker_ata_b.amount < receive {
            return Err(EscrowError::InsufficientFunds);
        }
        if self.maker_ata_b.amount > u64::MAX - receive {
            return Err(EscrowError::ArithmeticOverflow);
        }
        if self.taker_ata_a.amount > u64::MAX - held {
            return Err(EscrowError::ArithmeticOverflow);
        }
        let paid = self.deposit(receive);
        let out = self.withdraw(held);
        assert(paid is Ok && out is Ok);
        Ok(())
    }

    /// The signer seeds under which the record authorises the payout.
    pub fn vault_signer_seeds(&self) -> (r: Option<Vec<Vec<u8>>>)
        ensures
            match self.escrow {
                None => r is None,
                Some(e) => r is Some && seeds_view(r->Some_0@) == escrow_seeds_spec(e.maker@, e.seed).push(seq![e.bump]),
            },
    {
        match &self.escrow {
            None => None,
            Some(e) => Some(e.signer_seeds()),
        }
    }
}

/// The accounts of the refund path, for the record at `seed`: the vault's
/// whole balance goes back to `taker`, who must be the record's maker.
#[derive(Debug)]
pub struct Close {
    pub seed: u64,
    pub taker: Address,
    pub escrow_key: Address,
    pub escrow: Option<Escrow>,
    pub escrow_derivation: Derivation,
    pub mint_a: Mint,
    /// The receiving account of mint A.
    pub taker_ata_a: TokenAccount,
    /// The custody account of mint A, owned by the record.
    pub vault: Option<TokenAccount>,
}

impl Close {
    /// Why the refund is rejected, if it is.
    pub open spec fn error(&self) -> Option<EscrowError> {
        match self.escrow {
            None => Some(EscrowError::AccountNotInitialized),
            Some(e) => if e.maker@ != self.taker@ || !record_at(
                self.escrow_derivation,
                e,
                self.taker,
                self.seed,
            ) {
                Some(EscrowError::ConstraintSeeds)
            } else if self.mint_a.key@ != e.mint_a@ {
                Some(EscrowError::ConstraintMint)
            } else {
                match self.vault {
                    None => Some(EscrowError::AccountNotInitialized),
                    Some(v) => if !holds(v, self.mint_a.key, self.escrow_key) || !holds(
                        self.taker_ata_a,
                        self.mint_a.key,
                        self.taker,
                    ) {
                        Some(EscrowError::ConstraintTokenAccount)
                    } else if self.taker_ata_a.amount + v.amount > u64::MAX {
                        Some(EscrowError::ArithmeticOverflow)
                    } else {
                        None
                    },
                }
            },
        }
    }

    /// The vault's balance.
    pub open spec fn vault_amount(&self) -> u64 {
        self.vault->Some_0.amount
    }

    /// The accounts after the vault was paid out and closed and the record
    /// deleted.
    pub open spec fn refunded(self) -> Close {
        Close {
            taker_ata_a: TokenAccount {
                amount: (self.taker_ata_a.amount + self.vault_amount()) as u64,
                ..self.taker_ata_a
            },
            vault: None,
            escrow: None,
            ..self
        }
    }

    /// Pays the vault's whole balance of mint A to `taker` under the record's
    /// authority, then closes the vault and deletes the record. Returns the
    /// amount paid.
    pub fn close(&mut self) -> (r: Result<u64, EscrowError>)
        ensures
            match old(self).error() {
                Some(e) => r == Err::<u64, EscrowError>(e) && *final(self) == *old(self),
                None => r == Ok::<u64, EscrowError>(old(self).vault_amount()) && *final(self)
                    == old(self).refunded(),
            },
    {
        let e = match &self.escrow {
            None => {
                return Err(EscrowError::AccountNotInitialized);
            },
            Some(e) => e,
        };
        if !e.maker.same(&self.taker) || !check_record_at(
            &self.escrow_derivation,
            e,
            &self.taker,
            self.seed,
        ) {
            return Err(EscrowError::ConstraintSeeds);
        }
        if !self.mint_a.key.same(&e.mint_a) {
            return Err(EscrowError::ConstraintMint);
        }
        let v = match &self.vault {
            None => {
                return Err(EscrowError::AccountNotInitialized);
            },
            Some(v) => v,
        };
        if !check_holds(v, &self.mint_a.key, &self.escrow_key) || !check_holds(
            &self.taker_ata_a,
            &self.mint_a.key,
            &self.taker,
        ) {
            return Err(EscrowError::ConstraintTokenAccount);
        }
        let held = v.amount;
        if self.taker_ata_a.amount > u64::MAX - held {
            return Err(EscrowError::ArithmeticOverflow);
        }
        self.taker_ata_a.amount = self.taker_ata_a.amount + held;
        self.vault = None;
        self.escrow = None;
        Ok(held)
    }

    /// The signer seeds under which the record authorises the refund.
    pub fn vault_signer_seeds(&self) -> (r: Option<Vec<Vec<u8>>>)
        ensures
            match self.escrow {
                None => r is None,
                Some(e) => r is Some && seeds_view(r->Some_0@) == escrow_seeds_spec(e.maker@, e.seed).push(seq![e.bump]),
            },
    {
        match &self.escrow {
            None => None,
            Some(e) => Some(e.signer_seeds()),
        }
    }
}

/// A settlement happens only where the taker holds at least the record's
/// `receive` amount of mint B; it pays the maker exactly that amount, pays the
/// taker the vault's whole balance, and leaves neither vault nor record.
pub proof fn lemma_take_settles(t: Take)
    requires
        t.take_error() is None,
    ensures
        t.escrow is Some,
        t.vault is Some,
        t.taker_ata_b.amount >= t.receive_spec(),
        t.paid(t.receive_spec()).settled().maker_ata_b.amount == t.maker_ata_b.amount + t.receive_spec(),
        t.paid(t.receive_spec()).settled().taker_ata_b.amount == t.taker_ata_b.amount - t.receive_spec(),
        t.paid(t.receive_spec()).settled().taker_ata_a.amount == t.taker_ata_a.amount + t.vault_amount(),
        t.paid(t.receive_spec()).settled().escrow is None,
        t.paid(t.receive_spec()).settled().vault is None,
        t.paid(t.receive_spec()).settled().take_error() == Some(EscrowError::AccountNotInitialized),
{
}

/// The first leg never accepts a payment below the record's `receive` amount,
/// nor one the taker cannot cover.
pub proof fn lemma_payment_reaches_receive(t: Take, amount: u64)
    requires
        t.deposit_error(amount) is None,
    ensures
        amount >= t.receive_spec(),
        t.taker_ata_b.amount >= amount,
{
}

/// Once the record is gone, every escrow operation on the same accounts is
/// rejected.
pub proof fn lemma_resolved_rejects(t: Take, c: Close, amount: u64)
    requires
        t.escrow is None,
        c.escrow is None,
    ensures
        t.take_error() == Some(EscrowError::AccountNotInitialized),
        t.deposit_error(amount) == Some(EscrowError::AccountNotInitialized),
        t.withdraw_error(amount) == Some(EscrowError::AccountNotInitialized),
        c.error() == Some(EscrowError::AccountNotInitialized),
{
}

/// The refund pays out exactly the vault's balance, then both the vault and
/// the record are gone and a second refund or a settlement is rejected.
pub proof fn lemma_refund_drains(c: Close, t: Take)
    requires
        c.error() is None,
        t.escrow == c.refunded().escrow,
    ensures
        c.refunded().taker_ata_a.amount == c.taker_ata_a.amount + c.vault_amount(),
        c.refunded().vault is None,
        c.refunded().escrow is None,
        c.refunded().error() == Some(EscrowError::AccountNotInitialized),
        t.take_error() == Some(EscrowError::AccountNotInitialized),
{
}

/// The seeds of two records agree only for the same maker and seed.
pub proof fn lemma_escrow_seeds_injective(m1: Seq<u8>, s1: u64, m2: Seq<u8>, s2: u64)
    requires
        escrow_seeds_spec(m1, s1) == escrow_seeds_spec(m2, s2),
    ensures
        m1 == m2,
        s1 == s2,
{
    assert(escrow_seeds_spec(m1, s1)[1] == escrow_seeds_spec(m2, s2)[1]);
    assert(escrow_seeds_spec(m1, s1)[2] == escrow_seeds_spec(m2, s2)[2]);
    reveal_with_fuel(pow256, 9);
    assert(pow256(8) == 0x1_0000_0000_0000_0000);
    lemma_le_bytes_injective(s1 as nat, s2 as nat, 8);
}

/// A record supplied under a derivation from any other maker, seed or bump
/// than the record's own is rejected by the settlement, by both of its legs
/// and by the refund.
pub proof fn lemma_wrong_derivation_rejected(
    t: Take,
    c: Close,
    maker: Address,
    seed: u64,
    bump: u8,
    amount: u64,
)
    requires
        t.escrow is Some,
        t.escrow_derivation.is(escrow_seeds_spec(maker@, seed), bump),
        ({
            let e = t.escrow->Some_0;
            maker@ != e.maker@ || seed != e.seed || bump != e.bump
        }),
        c.escrow is Some,
        c.escrow_derivation.is(escrow_seeds_spec(maker@, seed), bump),
        ({
            let e = c.escrow->Some_0;
            maker@ != e.maker@ || seed != e.seed || bump != e.bump
        }),
    ensures
        t.take_error() is Some,
        t.deposit_error(amount) is Some,
        t.withdraw_error(amount) is Some,
        c.error() is Some,
{
    if t.account_error() is None {
        lemma_escrow_seeds_injective(maker@, seed, t.maker@, t.seed);
    }
    if c.error() is None {
        lemma_escrow_seeds_injective(maker@, seed, c.taker@, c.seed);
    }
}

} // verus!
