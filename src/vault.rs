//! Single-owner custody vault.
//!
//! Each owner has one `VaultState` record, located at the seeds
//! `["state", owner]`, and one holding account at `["vault", record]`. The
//! owner deposits native value into the holding account, withdraws it through
//! the holding account's derived authority, and closes the vault, which pays
//! out the whole holding balance and deletes the record.
use vstd::prelude::*;
use crate::pda::{Address, Derivation, seeds_view, two_seeds};

verus! {

/// The per-owner record: the bumps of the holding account and of itself.
#[derive(Clone, Copy, Debug, PartialEq, Eq, Structural)]
pub struct VaultState {
    pub vault_bump: u8,
    pub state_bump: u8,
}

impl VaultState {
    /// Bytes a record takes: an eight-byte discriminator and the two bumps.
    pub const INIT_SPACE: usize = 8 + 1 + 1;
}

/// The bumps the runtime found for the two accounts at initialisation.
#[derive(Clone, Copy, Debug, PartialEq, Eq, Structural)]
pub struct InitializeBumps {
    pub vault_state: u8,
    pub vault: u8,
}

/// Why a vault instruction is rejected.
#[derive(Clone, Copy, Debug, PartialEq, Eq, Structural)]
pub enum VaultError {
    /// The record already exists.
    AccountAlreadyInitialized,
    /// The record does not exist.
    AccountNotInitialized,
    /// A supplied account is not at the expected derivation.
    ConstraintSeeds,
    /// The paying account holds less than the amount.
    InsufficientFunds,
    /// The receiving balance would exceed the largest amount.
    ArithmeticOverflow,
}

/// The ASCII bytes of `state`.
pub open spec fn state_tag() -> Seq<u8> {
    seq![115u8, 116u8, 97u8, 116u8, 101u8]
}

/// The ASCII bytes of `vault`.
pub open spec fn vault_tag() -> Seq<u8> {
    seq![118u8, 97u8, 117u8, 108u8, 116u8]
}

/// Seeds of an owner's record: `["state", owner]`.
pub open spec fn state_seeds_spec(owner: Seq<u8>) -> Seq<Seq<u8>> {
    seq![state_tag(), owner]
}

/// Seeds of a record's holding account: `["vault", record]`.
pub open spec fn holding_seeds_spec(record: Seq<u8>) -> Seq<Seq<u8>> {
    seq![vault_tag(), record]
}

pub fn state_seeds(owner: &Address) -> (r: Vec<Vec<u8>>)
    ensures
        seeds_view(r@) == state_seeds_spec(owner@),
{
    let tag: Vec<u8> = vec![115u8, 116u8, 97u8, 116u8, 101u8];
    assert(tag@ =~= state_tag());
    two_seeds(tag, owner.to_seed())
}

pub fn holding_seeds(record: &Address) -> (r: Vec<Vec<u8>>)
    ensures
        seeds_view(r@) == holding_seeds_spec(record@),
{
    let tag: Vec<u8> = vec![118u8, 97u8, 117u8, 108u8, 116u8];
    assert(tag@ =~= vault_tag());
    two_seeds(tag, record.to_seed())
}

/// Whether the record and holding account supplied for `owner` are the
/// ones derived from the owner and the record's stored bumps.
pub open spec fn vault_accounts_ok(
    owner: Address,
    record_key: Address,
    state: VaultState,
    state_derivation: Derivation,
    vault_derivation: Derivation,
) -> bool {
    &&& state_derivation.is(state_seeds_spec(owner@), state.state_bump)
    &&& vault_derivation.is(holding_seeds_spec(record_key@), state.vault_bump)
}

pub fn check_vault_accounts(
    owner: &Address,
    record_key: &Address,
    state: &VaultState,
    state_derivation: &Derivation,
    vault_derivation: &Derivation,
) -> (r: bool)
    ensures
        r == vault_accounts_ok(*owner, *record_key, *state, *state_derivation, *vault_derivation),
{
    state_derivation.matches(&state_seeds(owner), state.state_bump) && vault_derivation.matches(
        &holding_seeds(record_key),
        state.vault_bump,
    )
}

/// The accounts of the instruction that creates an owner's vault.
#[derive(Debug)]
pub struct Initialize {
    pub signer: Address,
    pub vault_state_key: Address,
    /// The record, once it exists.
    pub vault_state: Option<VaultState>,
    pub state_derivation: Derivation,
    pub vault_derivation: Derivation,
}

impl Initialize {
    /// Why initialisation with `bumps` is rejected, if it is.
    pub open spec fn error(&self, bumps: InitializeBumps) -> Option<VaultError> {
        if self.vault_state is Some {
            Some(VaultError::AccountAlreadyInitialized)
        } else if !vault_accounts_ok(
            self.signer,
            self.vault_state_key,
            VaultState { vault_bump: bumps.vault, state_bump: bumps.vault_state },
            self.state_derivation,
            self.vault_derivation,
        ) {
            Some(VaultError::ConstraintSeeds)
        } else {
            None
        }
    }

    /// Creates the record holding both bumps.
    pub fn initialize(&mut self, bumps: &InitializeBumps) -> (r: Result<(), VaultError>)
        ensures
            match old(self).error(*bumps) {
                Some(e) => r == Err::<(), VaultError>(e) && *final(self) == *old(self),
                None => r is Ok && *final(self) == (Initialize {
                    vault_state: Some(VaultState { vault_bump: bumps.vault, state_bump: bumps.vault_state }),
                    ..*old(self)
                }),
            },
    {
        if self.vault_state.is_some() {
            return Err(VaultError::AccountAlreadyInitialized);
        }
        let state = VaultState { vault_bump: bumps.vault, state_bump: bumps.vault_state };
        if !check_vault_accounts(
            &self.signer,
            &self.vault_state_key,
            &state,
            &self.state_derivation,
            &self.vault_derivation,
        ) {
            return Err(VaultError::ConstraintSeeds);
        }
        self.vault_state = Some(state);
        Ok(())
    }
}

/// The accounts of a deposit or a withdrawal.
#[derive(Debug)]
pub struct Payment {
    pub signer: Address,
    pub signer_lamports: u64,
    pub vault_state_key: Address,
    pub vault_state: Option<VaultState>,
    pub state_derivation: Derivation,
    pub vault_derivation: Derivation,
    /// Balance of the holding account.
    pub vault_lamports: u64,
}

impl Payment {
    /// Why the accounts are refused, before any amount is looked at.
    pub open spec fn account_error(&self) -> Option<VaultError> {
        match self.vault_state {
            None => Some(VaultError::AccountNotInitialized),
            Some(state) => if vault_accounts_ok(
                self.signer,
                self.vault_state_key,
                state,
                self.state_derivation,
                self.vault_derivation,
            ) {
                None
            } else {
                Some(VaultError::ConstraintSeeds)
            },
        }
    }

    /// Why a deposit of `amount` is rejected, if it is.
    pub open spec fn deposit_error(&self, amount: u64) -> Option<VaultError> {
        if self.account_error() is Some {
            self.account_error()
        } else if self.signer_lamports < amount {
            Some(VaultError::InsufficientFunds)
        } else if self.vault_lamports + amount > u64::MAX {
            Some(VaultError::ArithmeticOverflow)
        } else {
            None
        }
    }

    /// Why a withdrawal of `amount` is rejected, if it is.
    pub open spec fn withdraw_error(&self, amount: u64) -> Option<VaultError> {
        if self.account_error() is Some {
            self.account_error()
        } else if self.vault_lamports < amount {
            Some(VaultError::InsufficientFunds)
        } else if self.signer_lamports + amount > u64::MAX {
            Some(VaultError::ArithmeticOverflow)
        } else {
            None
        }
    }

    /// The same accounts with the two balances replaced.
    pub open spec fn with_balances(self, signer_lamports: int, vault_lamports: int) -> Payment {
        Payment {
            signer_lamports: signer_lamports as u64,
            vault_lamports: vault_lamports as u64,
            ..self
        }
    }

    fn accounts_ok(&self) -> (r: Result<(), VaultError>)
        ensures
            match self.account_error() {
                Some(e) => r == Err::<(), VaultError>(e),
                None => r is Ok,
            },
    {
        match &self.vault_state {
            None => Err(VaultError::AccountNotInitialized),
            Some(state) => if check_vault_accounts(
                &self.signer,
                &self.vault_state_key,
                state,
                &self.state_derivation,
                &self.vault_derivation,
            ) {
                Ok(())
            } else {
                Err(VaultError::ConstraintSeeds)
            },
        }
    }

    /// Moves `amount` from the owner into the holding account.
    pub fn deposit(&mut self, amount: u64) -> (r: Result<(), VaultError>)
        ensures
            match old(self).deposit_error(amount) {
                Some(e) => r == Err::<(), VaultError>(e) && *final(self) == *old(self),
                None => r is Ok && *final(self) == old(self).with_balances(
                    old(self).signer_lamports - amount,
                    old(self).vault_lamports + amount,
                ),
            },
    {
        self.accounts_ok()?;
        if self.signer_lamports < amount {
            return Err(VaultError::InsufficientFunds);
        }
        if self.vault_lamports > u64::MAX - amount {
            return Err(VaultError::ArithmeticOverflow);
        }
        self.signer_lamports = self.signer_lamports - amount;
        self.vault_lamports = self.vault_lamports + amount;
        Ok(())
    }

    /// Moves `amount` from the holding account back to the owner, under the
    /// holding account's derived authority.
    pub fn withdraw(&mut self, amount: u64) -> (r: Result<(), VaultError>)
        ensures
            match old(self).withdraw_error(amount) {
                Some(e) => r == Err::<(), VaultError>(e) && *final(self) == *old(self),
                None => r is Ok && *final(self) == old(self).with_balances(
                    old(self).signer_lamports + amount,
                    old(self).vault_lamports - amount,
                ),
            },
    {
        self.accounts_ok()?;
        if self.vault_lamports < amount {
            return Err(VaultError::InsufficientFunds);
        }
        if self.signer_lamports > u64::MAX - amount {
            return Err(VaultError::ArithmeticOverflow);
        }
        self.signer_lamports = self.signer_lamports + amount;
        self.vault_lamports = self.vault_lamports - amount;
        Ok(())
    }

    /// The signer seeds under which the holding account pays out:
    /// `["vault", record, [vault_bump]]`.
    pub fn holding_signer_seeds(&self) -> (r: Vec<Vec<u8>>)
        ensures
            seeds_view(r@) == self.vault_derivation.signer_seeds_spec(),
    {
        self.vault_derivation.signer_seeds()
    }
}

/// The accounts of the instruction that closes an owner's vault.
#[derive(Debug)]
pub struct CloseAccount {
    pub signer: Address,
    pub signer_lamports: u64,
    pub vault_state_key: Address,
    pub vault_state: Option<VaultState>,
    pub state_derivation: Derivation,
    pub vault_derivation: Derivation,
    /// Balance of the holding account.
    pub vault_lamports: u64,
}

impl CloseAccount {
    /// Why closing is rejected, if it is.
    pub open spec fn error(&self) -> Option<VaultError> {
        match self.vault_state {
            None => Some(VaultError::AccountNotInitialized),
            Some(state) => if !vault_accounts_ok(
                self.signer,
                self.vault_state_key,
                state,
                self.state_derivation,
                self.vault_derivation,
            ) {
                Some(VaultError::ConstraintSeeds)
            } else if self.signer_lamports + self.vault_lamports > u64::MAX {
                Some(VaultError::ArithmeticOverflow)
            } else {
                None
            },
        }
    }

    /// The accounts once closed: the whole holding balance paid to the owner,
    /// and the record gone.
    pub open spec fn closed(self) -> CloseAccount {
        CloseAccount {
            signer_lamports: (self.signer_lamports + self.vault_lamports) as u64,
            vault_lamports: 0,
            vault_state: None,
            ..self
        }
    }

    /// Pays the entire holding balance to the owner and deletes the record.
    /// Returns the amount paid.
    pub fn close(&mut self) -> (r: Result<u64, VaultError>)
        ensures
            match old(self).error() {
                Some(e) => r == Err::<u64, VaultError>(e) && *final(self) == *old(self),
                None => r == Ok::<u64, VaultError>(old(self).vault_lamports) && *final(self)
                    == old(self).closed(),
            },
    {
        match &self.vault_state {
            None => {
                return Err(VaultError::AccountNotInitialized);
            },
            Some(state) => {
                if !check_vault_accounts(
                    &self.signer,
                    &self.vault_state_key,
                    state,
                    &self.state_derivation,
                    &self.vault_derivation,
                ) {
                    return Err(VaultError::ConstraintSeeds);
                }
            },
        }
        if self.signer_lamports > u64::MAX - self.vault_lamports {
            return Err(VaultError::ArithmeticOverflow);
        }
        let paid = self.vault_lamports;
        self.signer_lamports = self.signer_lamports + paid;
        self.vault_lamports = 0;
        self.vault_state = None;
        Ok(paid)
    }

    /// The signer seeds under which the holding account pays out.
    pub fn holding_signer_seeds(&self) -> (r: Vec<Vec<u8>>)
        ensures
            seeds_view(r@) == self.vault_derivation.signer_seeds_spec(),
    {
        self.vault_derivation.signer_seeds()
    }
}

/// Creates the caller's vault record.
pub fn initialize(ctx: &mut Initialize, bumps: &InitializeBumps) -> (r: Result<(), VaultError>)
    ensures
        match old(ctx).error(*bumps) {
            Some(e) => r == Err::<(), VaultError>(e) && *final(ctx) == *old(ctx),
            None => r is Ok && final(ctx).vault_state == Some(
                VaultState { vault_bump: bumps.vault, state_bump: bumps.vault_state },
            ),
        },
{
    ctx.initialize(bumps)
}

/// Deposits `amount` into the caller's holding account.
pub fn deposit(ctx: &mut Payment, amount: u64) -> (r: Result<(), VaultError>)
    ensures
        match old(ctx).deposit_error(amount) {
            Some(e) => r == Err::<(), VaultError>(e) && *final(ctx) == *old(ctx),
            None => r is Ok && *final(ctx) == old(ctx).with_balances(
                old(ctx).signer_lamports - amount,
                old(ctx).vault_lamports + amount,
            ),
        },
{
    ctx.deposit(amount)
}

/// Withdraws `amount` from the caller's holding account.
pub fn withdraw(ctx: &mut Payment, amount: u64) -> (r: Result<(), VaultError>)
    ensures
        match old(ctx).withdraw_error(amount) {
            Some(e) => r == Err::<(), VaultError>(e) && *final(ctx) == *old(ctx),
            None => r is Ok && *final(ctx) == old(ctx).with_balances(
                old(ctx).signer_lamports + amount,
                old(ctx).vault_lamports - amount,
            ),
        },
{
    ctx.withdraw(amount)
}

/// Closes the caller's vault, paying out the whole holding balance.
pub fn close(ctx: &mut CloseAccount) -> (r: Result<u64, VaultError>)
    ensures
        match old(ctx).error() {
            Some(e) => r == Err::<u64, VaultError>(e) && *final(ctx) == *old(ctx),
            None => r == Ok::<u64, VaultError>(old(ctx).vault_lamports) && *final(ctx)
                == old(ctx).closed(),
        },
{
    ctx.close()
}

/// One deposit or withdrawal, with its amount.
#[derive(Clone, Copy, Debug, PartialEq, Eq, Structural)]
pub enum PaymentOp {
    Deposit(u64),
    Withdraw(u64),
}

/// The accounts after `op`, or `None` where it is rejected.
pub open spec fn apply_payment(p: Payment, op: PaymentOp) -> Option<Payment> {
    match op {
        PaymentOp::Deposit(a) => if p.deposit_error(a) is Some {
            None
        } else {
            Some(p.with_balances(p.signer_lamports - a, p.vault_lamports + a))
        },
        PaymentOp::Withdraw(a) => if p.withdraw_error(a) is Some {
            None
        } else {
            Some(p.with_balances(p.signer_lamports + a, p.vault_lamports - a))
        },
    }
}

/// The accounts after each of `ops` in turn, or `None` where one is rejected.
pub open spec fn apply_payments(p: Payment, ops: Seq<PaymentOp>) -> Option<Payment>
    decreases ops.len(),
{
    if ops.len() == 0 {
        Some(p)
    } else {
        match apply_payment(p, ops[0]) {
            None => None,
            Some(q) => apply_payments(q, ops.drop_first()),
        }
    }
}

/// Deposits minus withdrawals.
pub open spec fn net_deposits(ops: Seq<PaymentOp>) -> int
    decreases ops.len(),
{
    if ops.len() == 0 {
        0
    } else {
        let head = match ops[0] {
            PaymentOp::Deposit(a) => a as int,
            PaymentOp::Withdraw(a) => -(a as int),
        };
        head + net_deposits(ops.drop_first())
    }
}

/// After any sequence of accepted deposits and withdrawals, the holding
/// balance is the starting balance plus the deposits minus the withdrawals,
/// and is never negative; the owner's and the holding balance together are
/// unchanged, and the record is the same.
pub proof fn lemma_holding_balance(p: Payment, ops: Seq<PaymentOp>)
    requires
        apply_payments(p, ops) is Some,
    ensures
        ({
            let q = apply_payments(p, ops)->Some_0;
            &&& q.vault_lamports == p.vault_lamports + net_deposits(ops)
            &&& p.vault_lamports + net_deposits(ops) >= 0
            &&& q.signer_lamports + q.vault_lamports == p.signer_lamports + p.vault_lamports
            &&& q.vault_state == p.vault_state
        }),
    decreases ops.len(),
{
    if ops.len() > 0 {
        let q = apply_payment(p, ops[0])->Some_0;
        lemma_holding_balance(q, ops.drop_first());
    }
}

/// Closing pays out the holding account's entire balance, leaves it empty and
/// deletes the record; after that every deposit, withdrawal or close on the
/// same accounts is rejected.
pub proof fn lemma_close_drains(c: CloseAccount, p: Payment, amount: u64)
    requires
        c.error() is None,
        p.vault_state == c.closed().vault_state,
    ensures
        c.closed().signer_lamports == c.signer_lamports + c.vault_lamports,
        c.closed().vault_lamports == 0,
        c.closed().vault_state is None,
        c.closed().error() == Some(VaultError::AccountNotInitialized),
        p.deposit_error(amount) == Some(VaultError::AccountNotInitialized),
        p.withdraw_error(amount) == Some(VaultError::AccountNotInitialized),
{
}

/// A record supplied under a derivation from another owner than the signer,
/// or with another bump than the record's own, is rejected by deposits,
/// withdrawals and closing; so is a holding account derived from another
/// record or with another bump than the one the record stores.
pub proof fn lemma_wrong_derivation_rejected(
    p: Payment,
    c: CloseAccount,
    owner: Address,
    record_key: Address,
    state_bump: u8,
    vault_bump: u8,
    amount: u64,
)
    requires
        p.vault_state is Some,
        p.state_derivation.is(state_seeds_spec(owner@), state_bump),
        p.vault_derivation.is(holding_seeds_spec(record_key@), vault_bump),
        owner@ != p.signer@ || state_bump != p.vault_state->Some_0.state_bump
            || record_key@ != p.vault_state_key@ || vault_bump != p.vault_state->Some_0.vault_bump,
        c.vault_state is Some,
        c.state_derivation.is(state_seeds_spec(owner@), state_bump),
        c.vault_derivation.is(holding_seeds_spec(record_key@), vault_bump),
        owner@ != c.signer@ || state_bump != c.vault_state->Some_0.state_bump
            || record_key@ != c.vault_state_key@ || vault_bump != c.vault_state->Some_0.vault_bump,
    ensures
        p.deposit_error(amount) is Some,
        p.withdraw_error(amount) is Some,
        c.error() is Some,
{
    assert(state_seeds_spec(owner@)[1] == owner@);
    assert(state_seeds_spec(p.signer@)[1] == p.signer@);
    assert(state_seeds_spec(c.signer@)[1] == c.signer@);
    assert(holding_seeds_spec(record_key@)[1] == record_key@);
    assert(holding_seeds_spec(p.vault_state_key@)[1] == p.vault_state_key@);
    assert(holding_seeds_spec(c.vault_state_key@)[1] == c.vault_state_key@);
}

} // verus!
