//! The token-bound account: an owner, a lock, and the executors that the
//! owner has granted permission to.

use vstd::prelude::*;
use crate::error::ContractError;
use crate::primitives::{Address, U256};

verus! {

/// What an account is, apart from how it is stored.
pub ghost struct AccountState {
    /// Set when the account is made; never changes.
    pub owner: Address,
    /// While set, the account executes no call.
    pub locked: bool,
    /// The executors that were granted permission.
    pub granted: Set<Address>,
}

impl AccountState {
    /// The account as it is made: unlocked, nobody granted.
    pub open spec fn new(owner: Address) -> AccountState {
        AccountState { owner, locked: false, granted: Set::empty() }
    }

    /// The account after `lock`.
    pub open spec fn lock(self) -> AccountState {
        AccountState { locked: true, ..self }
    }

    /// The account after `unlock`.
    pub open spec fn unlock(self) -> AccountState {
        AccountState { locked: false, ..self }
    }

    /// The account after `executor` was granted permission.
    pub open spec fn grant_permission(self, executor: Address) -> AccountState {
        AccountState { granted: self.granted.insert(executor), ..self }
    }

    /// Whether `executor` was granted permission.
    pub open spec fn has_permission(self, executor: Address) -> bool {
        self.granted.contains(executor)
    }

    /// Whether the account lets a call through.
    pub open spec fn may_execute(self) -> bool {
        !self.locked
    }
}

/// A change that an account can undergo.
pub ghost enum AccountOp {
    Lock,
    Unlock,
    Grant { executor: Address },
}

impl AccountState {
    /// The account after `op`.
    pub open spec fn apply(self, op: AccountOp) -> AccountState {
        match op {
            AccountOp::Lock => self.lock(),
            AccountOp::Unlock => self.unlock(),
            AccountOp::Grant { executor } => self.grant_permission(executor),
        }
    }

    /// The account after the changes `ops`, made from the first to the
    /// last.
    pub open spec fn apply_all(self, ops: Seq<AccountOp>) -> AccountState
        decreases ops.len(),
    {
        if ops.len() == 0 {
            self
        } else {
            self.apply_all(ops.drop_last()).apply(ops.last())
        }
    }
}

/// Locking and unlocking are idempotent, and each undoes the other's
/// effect on the lock; neither touches the owner or the permissions.
pub proof fn lemma_lock_unlock(state: AccountState)
    ensures
        state.lock().lock() == state.lock(),
        state.unlock().unlock() == state.unlock(),
        state.lock().unlock() == state.unlock(),
        state.unlock().lock() == state.lock(),
        !state.lock().may_execute(),
        state.unlock().may_execute(),
{
}

/// Whatever happens to an account, its owner stays.
pub proof fn lemma_owner_is_kept(state: AccountState, ops: Seq<AccountOp>)
    ensures
        state.apply_all(ops).owner == state.owner,
    decreases ops.len(),
{
    if ops.len() > 0 {
        lemma_owner_is_kept(state, ops.drop_last());
    }
}

/// Permission is denied by default and never taken back: after any
/// changes to a new account, an executor has permission exactly if one of
/// the changes granted it.
pub proof fn lemma_permission_iff_granted(owner: Address, ops: Seq<AccountOp>, executor: Address)
    ensures
        AccountState::new(owner).apply_all(ops).has_permission(executor) <==> ops.contains(
            AccountOp::Grant { executor },
        ),
    decreases ops.len(),
{
    let grant = AccountOp::Grant { executor };
    if ops.len() > 0 {
        let before = ops.drop_last();
        lemma_permission_iff_granted(owner, before, executor);
        if before.contains(grant) {
            let i = choose|i: int| 0 <= i < before.len() && before[i] == grant;
            assert(ops[i] == grant);
        }
        if ops.contains(grant) && ops.last() != grant {
            let i = choose|i: int| 0 <= i < ops.len() && ops[i] == grant;
            assert(before[i] == grant);
        }
        if ops.last() == grant {
            assert(ops[ops.len() - 1] == grant);
        }
    }
}

/// Whether the change at `i` is a `Lock` that no later `Unlock` undoes.
pub open spec fn lock_stands(ops: Seq<AccountOp>, i: int) -> bool {
    &&& 0 <= i < ops.len()
    &&& ops[i] == AccountOp::Lock
    &&& forall|j: int| i < j < ops.len() ==> ops[j] != AccountOp::Unlock
}

/// An account starts unlocked. After any changes it refuses calls exactly
/// if it was locked and not unlocked since.
pub proof fn lemma_locked_iff_lock_stands(owner: Address, ops: Seq<AccountOp>)
    ensures
        !AccountState::new(owner).apply_all(ops).may_execute() <==> exists|i: int|
            lock_stands(ops, i),
    decreases ops.len(),
{
    let state = AccountState::new(owner);
    if ops.len() > 0 {
        let before = ops.drop_last();
        let last = ops.len() - 1;
        lemma_locked_iff_lock_stands(owner, before);
        match ops.last() {
            AccountOp::Lock => {
                assert(lock_stands(ops, last));
            },
            AccountOp::Unlock => {
                assert forall|i: int| !lock_stands(ops, i) by {
                    if 0 <= i < last {
                        assert(ops[last] == AccountOp::Unlock);
                    }
                }
            },
            AccountOp::Grant { executor } => {
                if exists|i: int| lock_stands(before, i) {
                    let i = choose|i: int| lock_stands(before, i);
                    assert(ops[i] == before[i]);
                    assert forall|j: int| i < j < ops.len() implies ops[j] != AccountOp::Unlock by {
                        if j < last {
                            assert(ops[j] == before[j]);
                        }
                    }
                    assert(lock_stands(ops, i));
                }
                if exists|i: int| lock_stands(ops, i) {
                    let i = choose|i: int| lock_stands(ops, i);
                    assert(i < last);
                    assert(before[i] == ops[i]);
                    assert forall|j: int| i < j < before.len() implies before[j]
                        != AccountOp::Unlock by {
                        assert(before[j] == ops[j]);
                    }
                    assert(lock_stands(before, i));
                }
            },
        }
    } else {
        assert forall|i: int| !lock_stands(ops, i) by {}
    }
}

/// A token-bound account.
pub struct ERC6551Account {
    owner: Address,
    locked: bool,
    permissions: Vec<Address>,
}

impl View for ERC6551Account {
    type V = AccountState;

    closed spec fn view(&self) -> AccountState {
        AccountState {
            owner: self.owner,
            locked: self.locked,
            granted: self.permissions@.to_set(),
        }
    }
}

impl ERC6551Account {
    /// No executor is stored twice.
    #[verifier::type_invariant]
    spec fn stored_once(self) -> bool {
        self.permissions@.no_duplicates()
    }

    /// Makes the account of `owner`: unlocked, with no executor granted.
    pub fn new(owner: Address) -> (account: ERC6551Account)
        ensures
            account@ == AccountState::new(owner),
    {
        let account = ERC6551Account { owner, locked: false, permissions: Vec::new() };
        assert(account.permissions@.to_set() =~= Set::<Address>::empty());
        account
    }

    /// The owner of the account.
    pub fn owner(&self) -> (owner: Address)
        ensures
            owner == self@.owner,
    {
        self.owner
    }

    /// Whether the account is locked.
    pub fn is_locked(&self) -> (locked: bool)
        ensures
            locked == self@.locked,
    {
        self.locked
    }

    /// Locks the account, whether or not it was locked before.
    pub fn lock(&mut self)
        ensures
            final(self)@ == old(self)@.lock(),
    {
        proof {
            use_type_invariant(&*self);
        }
        self.locked = true;
    }

    /// Unlocks the account, whether or not it was locked before.
    pub fn unlock(&mut self)
        ensures
            final(self)@ == old(self)@.unlock(),
    {
        proof {
            use_type_invariant(&*self);
        }
        self.locked = false;
    }

    /// Whether `executor` was granted permission on this account.
    pub fn has_permission(&self, executor: &Address) -> (granted: bool)
        ensures
            granted == self@.has_permission(*executor),
    {
        let mut i: usize = 0;
        while i < self.permissions.len()
            invariant
                i <= self.permissions@.len(),
                forall|k: int| 0 <= k < i ==> self.permissions@[k] != *executor,
            decreases self.permissions@.len() - i,
        {
            if self.permissions[i] == *executor {
                proof {
                    Address::lemma_view_injective(self.permissions@[i as int], *executor);
                }
                return true;
            }
            i += 1;
        }
        false
    }

    /// Grants `executor` permission on this account.
    pub fn grant_permission(&mut self, executor: Address)
        ensures
            final(self)@ == old(self)@.grant_permission(executor),
    {
        proof {
            use_type_invariant(&*self);
        }
        let ghost before = self.permissions@;
        if !self.has_permission(&executor) {
            let mut permissions: Vec<Address> = Vec::new();
            core::mem::swap(&mut self.permissions, &mut permissions);
            permissions.push(executor);
            core::mem::swap(&mut self.permissions, &mut permissions);
            proof {
                before.lemma_push_to_set_commute(executor);
            }
        } else {
            assert(before.to_set().insert(executor) =~= before.to_set());
        }
    }

    /// Lets a call through if the account is unlocked, and refuses it with
    /// `AccountLocked` if it is locked. The call data is not looked at.
    pub fn execute_call(&self, data: Vec<u8>) -> (outcome: Result<(), ContractError>)
        ensures
            self@.may_execute() ==> outcome is Ok,
            !self@.may_execute() ==> outcome matches Err(ContractError::AccountLocked),
    {
        if self.locked {
            return Err(ContractError::AccountLocked);
        }
        Ok(())
    }

    /// Accepts an incoming transfer of `value`. No balance is kept here.
    pub fn receive(&self, value: U256) {
    }
}

} // verus!
