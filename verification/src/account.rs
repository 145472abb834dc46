use vstd::prelude::*;
use crate::ids::Address;
use crate::token::{TokenError, TokenLedger};

verus! {

/// Errors of the account component. Every error aborts the call with no
/// partial state change.
#[derive(Clone, Copy, PartialEq, Eq, Structural, Debug)]
pub enum Error {
    /// The supplied proof's claimed identity does not match the bound one.
    InvalidSignature,
    /// The stored owner is absent (defensive: unreachable once initialized).
    UnauthorizedTransfer,
    /// The operation requires an identity binding that was never set.
    TelegramIdNotSet,
    /// The account is already bound; the binding is set exactly once.
    AlreadyInitialized,
    /// The ledger primitive refused the move: the custody balance is smaller
    /// than the requested amount.
    InsufficientBalance,
    /// The ledger primitive refused the move: crediting the destination
    /// would overflow the largest representable amount.
    BalanceOverflow,
}

/// The schema of an account instance's persisted state: the names of its two
/// keyed storage slots, held in [`TelegramSmartAccount`] as the fields of the
/// same names.
#[derive(Clone, Copy, PartialEq, Eq, Structural, Debug)]
pub enum DataKey {
    TelegramUserId,
    Owner,
}

/// A caller-supplied claim that the holder of external identity
/// `telegram_user_id` authorizes this call, with replay-protection value
/// `nonce`. Constructed fresh per call, validated, then discarded.
///
/// Verification replicates the original scheme's weak semantics on purpose:
/// only the claimed identity is compared against the bound one; `nonce` and
/// `signature` are carried but not cryptographically validated. Upgrading to
/// real signature checking plus nonce replay protection is a deliberate,
/// documented non-goal of this model.
pub struct SignatureVerification {
    pub telegram_user_id: u64,
    pub nonce: u64,
    pub signature: Vec<u8>,
}

/// A single-identity authorization unit: permanently bound to one external
/// identity at initialization, it gates fund transfers and ownership rotation
/// behind identity-proof verification.
///
/// State machine per instance: `Uninitialized` moves to `Bound` exactly once
/// via [`TelegramSmartAccount::initialize`]; `transfer_xlm` and
/// `rotate_owner` are self-loops on `Bound` that may change the owner but
/// never the binding. The two persisted slots named by [`DataKey`] live as
/// this value's fields.
pub struct TelegramSmartAccount {
    address: Address,
    telegram_user_id: Option<u64>,
    owner: Option<Address>,
}

impl TelegramSmartAccount {
    /// The instance's own ledger address: the custody funds move out of.
    pub closed spec fn spec_address(&self) -> Address {
        self.address
    }

    /// The bound external identity, if the account was initialized.
    pub closed spec fn spec_telegram_user_id(&self) -> Option<u64> {
        self.telegram_user_id
    }

    /// The current holder of transfer and rotation rights, if set.
    pub closed spec fn spec_owner(&self) -> Option<Address> {
        self.owner
    }

    /// Whether the account has been bound to an external identity.
    pub open spec fn is_bound(&self) -> bool {
        self.spec_telegram_user_id() is Some
    }

    /// The binding and the owner are set together, by initialization.
    pub open spec fn wf(&self) -> bool {
        self.is_bound() <==> self.spec_owner() is Some
    }

    /// What proof verification decides: the binding must exist and the
    /// claimed identity must equal the bound one.
    pub open spec fn verify_outcome(&self, claimed: u64) -> Result<(), Error> {
        match self.spec_telegram_user_id() {
            None => Err(Error::TelegramIdNotSet),
            Some(stored) => if claimed != stored {
                Err(Error::InvalidSignature)
            } else {
                Ok(())
            },
        }
    }

    /// What a completed `rotate_owner` call did: a matching proof replaces
    /// the owner and nothing else; anything less leaves the account exactly
    /// as it was.
    pub open spec fn rotate_outcome(
        pre: TelegramSmartAccount,
        post: TelegramSmartAccount,
        claimed: u64,
        new_owner: Address,
        r: Result<(), Error>,
    ) -> bool {
        match pre.verify_outcome(claimed) {
            Err(e) => r == Err::<(), Error>(e) && post == pre,
            Ok(()) => r == Ok::<(), Error>(()) && post.spec_address() == pre.spec_address()
                && post.spec_telegram_user_id() == pre.spec_telegram_user_id()
                && post.spec_owner() == Some(new_owner),
        }
    }

    /// The ledger state and result of a completed `transfer_xlm` call:
    /// proof failures and the absent-owner guard leave the ledger untouched
    /// and name their cause; otherwise the outcome is exactly the ledger
    /// primitive's, moving the amount from the account's custody.
    pub open spec fn transfer_xlm_outcome(
        pre: TelegramSmartAccount,
        l_pre: TokenLedger,
        l_post: TokenLedger,
        claimed: u64,
        destination: Address,
        amount: i128,
        r: Result<(), Error>,
    ) -> bool {
        match pre.verify_outcome(claimed) {
            Err(e) => r == Err::<(), Error>(e) && l_post == l_pre,
            Ok(()) => if pre.spec_owner() is None {
                r == Err::<(), Error>(Error::UnauthorizedTransfer) && l_post == l_pre
            } else {
                match r {
                    Ok(()) => TokenLedger::transfer_outcome(
                        l_pre,
                        l_post,
                        pre.spec_address(),
                        destination,
                        amount,
                        Ok(()),
                    ),
                    Err(Error::InsufficientBalance) => TokenLedger::transfer_outcome(
                        l_pre,
                        l_post,
                        pre.spec_address(),
                        destination,
                        amount,
                        Err(TokenError::InsufficientBalance),
                    ),
                    Err(Error::BalanceOverflow) => TokenLedger::transfer_outcome(
                        l_pre,
                        l_post,
                        pre.spec_address(),
                        destination,
                        amount,
                        Err(TokenError::BalanceOverflow),
                    ),
                    Err(_) => false,
                }
            },
        }
    }

    /// A fresh, uninitialized account instance at `address`: same code,
    /// fresh storage.
    pub fn new(address: Address) -> (r: TelegramSmartAccount)
        ensures
            r.wf(),
            !r.is_bound(),
            r.spec_owner() is None,
            r.spec_address() == address,
    {
        TelegramSmartAccount { address, telegram_user_id: None, owner: None }
    }

    /// Binds the account to `telegram_user_id` and sets `owner`, exactly
    /// once: a second initialization is refused, closing the re-binding
    /// hazard. The ledger authenticates the initializing principal as
    /// `owner` before this transition (native call-time authentication, out
    /// of this model's scope).
    pub fn initialize(&mut self, telegram_user_id: u64, owner: Address) -> (r: Result<(), Error>)
        requires
            old(self).wf(),
        ensures
            final(self).wf(),
            final(self).spec_address() == old(self).spec_address(),
            match r {
                Ok(()) => !old(self).is_bound() && final(self).spec_telegram_user_id() == Some(
                    telegram_user_id,
                ) && final(self).spec_owner() == Some(owner),
                Err(Error::AlreadyInitialized) => old(self).is_bound() && *final(self) == *old(
                    self,
                ),
                Err(_) => false,
            },
    {
        if self.telegram_user_id.is_some() {
            return Err(Error::AlreadyInitialized);
        }
        self.telegram_user_id = Some(telegram_user_id);
        self.owner = Some(owner);
        Ok(())
    }

    /// Validates an identity proof against the stored binding. Replicates
    /// the original scheme's weak semantics: an equality check on the
    /// claimed identity only (see [`SignatureVerification`]).
    fn verify_telegram_signature(&self, verification: &SignatureVerification) -> (r: Result<
        (),
        Error,
    >)
        ensures
            r == self.verify_outcome(verification.telegram_user_id),
    {
        let stored = match self.telegram_user_id {
            Some(stored) => stored,
            None => {
                return Err(Error::TelegramIdNotSet);
            },
        };
        if verification.telegram_user_id != stored {
            return Err(Error::InvalidSignature);
        }
        Ok(())
    }

    /// Moves `amount` of the native asset from this account's custody to
    /// `destination`, gated by identity-proof verification. Atomic: either
    /// the proof check and the ledger move both succeed, or nothing moves.
    /// The account performs no balance check of its own; the ledger
    /// primitive's failures propagate as distinct error kinds.
    pub fn transfer_xlm(
        &self,
        ledger: &mut TokenLedger,
        signature: SignatureVerification,
        destination: Address,
        amount: i128,
    ) -> (r: Result<(), Error>)
        requires
            self.wf(),
            old(ledger).wf(),
            amount > 0,
        ensures
            final(ledger).wf(),
            TelegramSmartAccount::transfer_xlm_outcome(
                *self,
                *old(ledger),
                *final(ledger),
                signature.telegram_user_id,
                destination,
                amount,
                r,
            ),
    {
        match self.verify_telegram_signature(&signature) {
            Err(e) => {
                return Err(e);
            },
            Ok(()) => {},
        }
        if self.owner.is_none() {
            return Err(Error::UnauthorizedTransfer);
        }
        match ledger.transfer(self.address, destination, amount) {
            Ok(()) => Ok(()),
            Err(TokenError::InsufficientBalance) => Err(Error::InsufficientBalance),
            Err(TokenError::BalanceOverflow) => Err(Error::BalanceOverflow),
        }
    }

    /// Replaces the owner with `new_owner`, gated by identity-proof
    /// verification; the new owner is set unconditionally on a matching
    /// proof, and the binding never changes.
    pub fn rotate_owner(&mut self, signature: SignatureVerification, new_owner: Address) -> (r:
        Result<(), Error>)
        requires
            old(self).wf(),
        ensures
            final(self).wf(),
            TelegramSmartAccount::rotate_outcome(
                *old(self),
                *final(self),
                signature.telegram_user_id,
                new_owner,
                r,
            ),
    {
        match self.verify_telegram_signature(&signature) {
            Err(e) => {
                return Err(e);
            },
            Ok(()) => {},
        }
        self.owner = Some(new_owner);
        Ok(())
    }

    /// The external identity this account is bound to; a pure read, open to
    /// anyone (the identity is not secret).
    pub fn get_telegram_user_id(&self) -> (r: Result<u64, Error>)
        ensures
            r == match self.spec_telegram_user_id() {
                Some(u) => Ok::<u64, Error>(u),
                None => Err::<u64, Error>(Error::TelegramIdNotSet),
            },
    {
        match self.telegram_user_id {
            Some(u) => Ok(u),
            None => Err(Error::TelegramIdNotSet),
        }
    }

    /// The current owner, if set; a pure read.
    pub fn owner(&self) -> (r: Option<Address>)
        ensures
            r == self.spec_owner(),
    {
        self.owner
    }

    /// The instance's own ledger address; a pure read.
    pub fn address(&self) -> (r: Address)
        ensures
            r == self.spec_address(),
    {
        self.address
    }
}

/// An account that has never been initialized rejects proof verification,
/// ownership rotation and identity reads with `TelegramIdNotSet`, and
/// rotation leaves the account exactly as it was.
pub proof fn lemma_unbound_rejects(
    acct: TelegramSmartAccount,
    post: TelegramSmartAccount,
    claimed: u64,
    new_owner: Address,
    r: Result<(), Error>,
)
    requires
        !acct.is_bound(),
        TelegramSmartAccount::rotate_outcome(acct, post, claimed, new_owner, r),
    ensures
        acct.verify_outcome(claimed) == Err::<(), Error>(Error::TelegramIdNotSet),
        r == Err::<(), Error>(Error::TelegramIdNotSet),
        post == acct,
{
}

/// An account that has never been initialized rejects a transfer with
/// `TelegramIdNotSet` and the ledger is exactly as it was.
pub proof fn lemma_unbound_rejects_transfer(
    acct: TelegramSmartAccount,
    l_pre: TokenLedger,
    l_post: TokenLedger,
    claimed: u64,
    destination: Address,
    amount: i128,
    r: Result<(), Error>,
)
    requires
        !acct.is_bound(),
        TelegramSmartAccount::transfer_xlm_outcome(
            acct,
            l_pre,
            l_post,
            claimed,
            destination,
            amount,
            r,
        ),
    ensures
        r == Err::<(), Error>(Error::TelegramIdNotSet),
        l_post == l_pre,
{
}

/// For an account bound to identity `x`, a proof claiming any other identity
/// is rejected by rotation with `InvalidSignature` and no owner mutation
/// occurs.
pub proof fn lemma_mismatched_proof_rejects_rotate(
    acct: TelegramSmartAccount,
    post: TelegramSmartAccount,
    x: u64,
    claimed: u64,
    new_owner: Address,
    r: Result<(), Error>,
)
    requires
        acct.spec_telegram_user_id() == Some(x),
        claimed != x,
        TelegramSmartAccount::rotate_outcome(acct, post, claimed, new_owner, r),
    ensures
        r == Err::<(), Error>(Error::InvalidSignature),
        post == acct,
{
}

/// For an account bound to identity `x`, a proof claiming any other identity
/// is rejected by transfer with `InvalidSignature` and no balance mutation
/// occurs: the ledger after equals the ledger before.
pub proof fn lemma_mismatched_proof_rejects_transfer(
    acct: TelegramSmartAccount,
    x: u64,
    claimed: u64,
    l_pre: TokenLedger,
    l_post: TokenLedger,
    destination: Address,
    amount: i128,
    r: Result<(), Error>,
)
    requires
        acct.spec_telegram_user_id() == Some(x),
        claimed != x,
        TelegramSmartAccount::transfer_xlm_outcome(
            acct,
            l_pre,
            l_post,
            claimed,
            destination,
            amount,
            r,
        ),
    ensures
        r == Err::<(), Error>(Error::InvalidSignature),
        l_post == l_pre,
{
}

/// A valid proof (claimed identity equal to the bound one) rotates the owner
/// to exactly the new principal, keeps the binding and address unchanged,
/// and a subsequent sufficiently funded transfer with a proof for the same
/// identity succeeds under the new owner.
pub proof fn lemma_rotate_then_transfer(
    acct: TelegramSmartAccount,
    rotated: TelegramSmartAccount,
    x: u64,
    new_owner: Address,
    r_rotate: Result<(), Error>,
    l_pre: TokenLedger,
    l_post: TokenLedger,
    destination: Address,
    amount: i128,
    r_transfer: Result<(), Error>,
)
    requires
        acct.wf(),
        acct.spec_telegram_user_id() == Some(x),
        amount > 0,
        l_pre.spec_balance(acct.spec_address()) >= amount,
        destination != acct.spec_address() ==> l_pre.spec_balance(destination) + amount
            <= i128::MAX,
        TelegramSmartAccount::rotate_outcome(acct, rotated, x, new_owner, r_rotate),
        TelegramSmartAccount::transfer_xlm_outcome(
            rotated,
            l_pre,
            l_post,
            x,
            destination,
            amount,
            r_transfer,
        ),
    ensures
        r_rotate == Ok::<(), Error>(()),
        rotated.spec_owner() == Some(new_owner),
        rotated.spec_telegram_user_id() == Some(x),
        rotated.spec_address() == acct.spec_address(),
        r_transfer is Ok,
{
    match r_transfer {
        Ok(()) => {},
        Err(Error::InsufficientBalance) => {
            assert(false);
        },
        Err(Error::BalanceOverflow) => {
            assert(false);
        },
        Err(_) => {
            assert(false);
        },
    }
}

} // verus!
