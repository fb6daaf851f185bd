//! The prompt token: a fungible token whose owner mints, that holders sell
//! (burn), that can be paused, and that one bound marketplace contract may
//! mint and burn through.
use vstd::prelude::*;
use crate::address::{Addr, Auth, Executable, LedgerInfo};
use crate::keymap::{
    by_single, copy_bytes, lemma_by_single_empty, lemma_by_single_insert, single_key, Key, KeyMap,
    pair_key,
};

verus! {

/// Why a token operation was refused.
#[derive(Clone, Copy, PartialEq, Eq, Structural, Debug)]
pub enum AccError {
    NegativeAmount,
    BadSignatureOrder,
    UnknownSigner,
    InsufficientBalance,
    Unauthorized,
    Overflow,
    Underflow,
    AlreadyInitialized,
    NotInitialized,
    InvalidAmount,
    ContractPaused,
    NotFound,
    InvalidAddress,
    AllowanceExceeded,
    MarketplaceAlreadySet,
    /// `unpause` while the token is not paused.
    ContractNotPaused,
    /// An allowance that would expire before the current ledger, or after
    /// the highest ledger an entry can live until.
    InvalidLiveUntilLedger,
    /// A marketplace address that is not a deployed Wasm contract.
    MarketplaceNotContract,
    /// An owner-only operation after ownership was renounced.
    OwnerNotSet,
    /// Renouncing ownership while a transfer of it is pending.
    TransferInProgress,
    /// Accepting or cancelling an ownership transfer that was never started.
    NoPendingTransfer,
    /// Cancelling an ownership transfer to another address than the pending one.
    InvalidPendingAccount,
    /// Accepting an ownership transfer after its last ledger.
    TransferExpired,
}

/// Tokens were minted to `to`, on the authority of `admin` (the owner).
pub struct MintEvent {
    pub admin: Addr,
    pub to: Addr,
    pub amount: i128,
}

/// `seller` sold (burned) `amount` tokens.
pub struct SellEvent {
    pub seller: Addr,
    pub amount: i128,
}

/// `amount` tokens moved from `from` to `to` (with its multiplexing id).
pub struct TransferEvent {
    pub from: Addr,
    pub to: Addr,
    pub to_muxed_id: Option<u64>,
    pub amount: i128,
}

/// `from` burned `amount` tokens.
pub struct BurnEvent {
    pub from: Addr,
    pub amount: i128,
}

/// An allowance: how much a spender may still move, and the last ledger in
/// which it may do so.
#[derive(Clone, Copy, PartialEq, Eq, Structural, Debug)]
pub struct AllowanceData {
    pub amount: i128,
    pub live_until_ledger: u32,
}

/// An ownership transfer that the owner started and that the new owner has
/// not accepted yet: the new owner, and the last ledger in which it may
/// accept.
pub struct PendingOwner {
    pub address: Addr,
    pub live_until_ledger: u32,
}

pub struct PendingOwnerView {
    pub address: Seq<u8>,
    pub live_until_ledger: u32,
}

impl View for PendingOwner {
    type V = PendingOwnerView;

    open spec fn view(&self) -> PendingOwnerView {
        PendingOwnerView { address: self.address@, live_until_ledger: self.live_until_ledger }
    }
}

/// The weight under which the sum of all balances is the supply.
pub open spec fn amount_weight() -> spec_fn(i128) -> int {
    |v: i128| v as int
}

/// The state of the token contract.
pub struct TokenModel {
    /// The token contract's own address.
    pub address: Seq<u8>,
    /// The owner; none once ownership was renounced.
    pub owner: Option<Seq<u8>>,
    /// An ownership transfer waiting for the new owner to accept it.
    pub pending_owner: Option<PendingOwnerView>,
    pub decimals: u32,
    pub name: Seq<u8>,
    pub symbol: Seq<u8>,
    /// The one marketplace allowed to mint and burn through the forwarded
    /// entry points, once bound.
    pub marketplace: Option<Seq<u8>>,
    pub paused: bool,
    pub balances: Map<Seq<u8>, i128>,
    pub total_supply: i128,
    /// Allowances, by (owner, spender).
    pub allowances: Map<(Seq<u8>, Seq<u8>), AllowanceData>,
}

/// Binding a marketplace: only while none is bound, never the token
/// itself, and only a deployed Wasm contract.
pub open spec fn bind_rule(bound: bool, candidate: Seq<u8>, token: Seq<u8>, executable: Option<Executable>) -> Option<
    AccError,
> {
    if bound {
        Some(AccError::MarketplaceAlreadySet)
    } else if candidate == token {
        Some(AccError::InvalidAddress)
    } else if executable != Some(Executable::Wasm) {
        Some(AccError::MarketplaceNotContract)
    } else {
        None
    }
}

/// The forwarded entry points: a marketplace is bound and authorized the
/// invocation.
pub open spec fn forwarding_rule(marketplace: Option<Seq<u8>>, auth: Set<Seq<u8>>) -> Option<AccError> {
    match marketplace {
        None => Some(AccError::NotInitialized),
        Some(m) => if auth.contains(m) {
            None
        } else {
            Some(AccError::Unauthorized)
        },
    }
}

/// Mints and sales move a positive amount.
pub open spec fn amount_rule(amount: i128) -> Option<AccError> {
    if amount <= 0 {
        Some(AccError::InvalidAmount)
    } else {
        None
    }
}

/// A rule's verdict as a result.
pub open spec fn token_verdict(e: Option<AccError>) -> Result<(), AccError> {
    match e {
        Some(x) => Err(x),
        None => Ok(()),
    }
}

/// The first of two checks that fails, if any.
pub open spec fn first_error(a: Option<AccError>, b: Option<AccError>) -> Option<AccError> {
    if a is Some {
        a
    } else {
        b
    }
}

/// The view of an optional address.
pub open spec fn opt_addr(a: Option<&Addr>) -> Option<Seq<u8>> {
    match a {
        Some(x) => Some(x@),
        None => None,
    }
}

impl TokenModel {
    /// The balance of `a`; zero where none is stored.
    pub open spec fn balance(self, a: Seq<u8>) -> i128 {
        if self.balances.dom().contains(a) {
            self.balances[a]
        } else {
            0
        }
    }

    pub open spec fn with_balance(self, a: Seq<u8>, v: i128) -> TokenModel {
        TokenModel { balances: self.balances.insert(a, v), ..self }
    }

    pub open spec fn with_marketplace(self, m: Seq<u8>) -> TokenModel {
        TokenModel { marketplace: Some(m), ..self }
    }

    pub open spec fn with_paused(self, p: bool) -> TokenModel {
        TokenModel { paused: p, ..self }
    }

    pub open spec fn with_supply(self, s: i128) -> TokenModel {
        TokenModel { total_supply: s, ..self }
    }

    /// The allowance of `spender` over `owner`'s tokens in ledger `sequence`:
    /// zero once it has expired.
    pub open spec fn allowance_data(self, owner: Seq<u8>, spender: Seq<u8>, sequence: u32) -> AllowanceData {
        let k = pair_key(owner, spender);
        let d = if self.allowances.dom().contains(k) {
            self.allowances[k]
        } else {
            AllowanceData { amount: 0, live_until_ledger: 0 }
        };
        if d.live_until_ledger < sequence {
            AllowanceData { amount: 0, live_until_ledger: 0 }
        } else {
            d
        }
    }

    pub open spec fn allowance(self, owner: Seq<u8>, spender: Seq<u8>, sequence: u32) -> i128 {
        self.allowance_data(owner, spender, sequence).amount
    }

    pub open spec fn with_allowance(self, owner: Seq<u8>, spender: Seq<u8>, d: AllowanceData) -> TokenModel {
        TokenModel { allowances: self.allowances.insert(pair_key(owner, spender), d), ..self }
    }

    /// The balance update: take `amount` from `from`
    /// (or create it, raising the supply), then give it to `to` (or destroy
    /// it, lowering the supply).  `None` if it succeeds.  The credit to `to`
    /// cannot overflow: a balance never exceeds the supply.
    pub open spec fn update_error(self, from: Option<Seq<u8>>, to: Option<Seq<u8>>, amount: i128) -> Option<
        AccError,
    > {
        if amount < 0 {
            Some(AccError::NegativeAmount)
        } else if from is Some && self.balance(from->0) < amount {
            Some(AccError::InsufficientBalance)
        } else if from is None && self.total_supply + amount > i128::MAX {
            Some(AccError::Overflow)
        } else {
            None
        }
    }

    /// The first half of the balance update.
    pub open spec fn debited(self, from: Option<Seq<u8>>, amount: i128) -> TokenModel {
        match from {
            Some(f) => self.with_balance(f, (self.balance(f) - amount) as i128),
            None => self.with_supply((self.total_supply + amount) as i128),
        }
    }

    /// The state after a successful balance update.
    pub open spec fn updated(self, from: Option<Seq<u8>>, to: Option<Seq<u8>>, amount: i128) -> TokenModel {
        let m = self.debited(from, amount);
        match to {
            Some(t) => m.with_balance(t, (m.balance(t) + amount) as i128),
            None => m.with_supply((m.total_supply - amount) as i128),
        }
    }

    /// `require_auth` of the bound marketplace.
    pub open spec fn forwarding_error(self, auth: Set<Seq<u8>>) -> Option<AccError> {
        forwarding_rule(self.marketplace, auth)
    }

    /// Minting by the token manager: a positive amount, created for `to`;
    /// the event names the owner, so there must be one.
    pub open spec fn manager_mint_error(self, to: Seq<u8>, amount: i128) -> Option<AccError> {
        if amount_rule(amount) is Some {
            amount_rule(amount)
        } else if self.update_error(None, Some(to), amount) is Some {
            self.update_error(None, Some(to), amount)
        } else if self.owner is None {
            Some(AccError::OwnerNotSet)
        } else {
            None
        }
    }

    /// Binding the marketplace: once, never to the token itself, and only to
    /// a deployed Wasm contract.
    pub open spec fn bind_error(self, marketplace: Seq<u8>, executable: Option<Executable>) -> Option<AccError> {
        bind_rule(self.marketplace is Some, marketplace, self.address, executable)
    }

    /// A direct sale: a positive amount, authorized by the seller.
    pub open spec fn manager_sell_error(self, auth: Set<Seq<u8>>, seller: Seq<u8>, amount: i128) -> Option<AccError> {
        if amount <= 0 {
            Some(AccError::InvalidAmount)
        } else if !auth.contains(seller) {
            Some(AccError::Unauthorized)
        } else {
            self.update_error(Some(seller), None, amount)
        }
    }

    /// A sale forwarded by the bound marketplace.
    pub open spec fn manager_sell_forwarded_error(self, auth: Set<Seq<u8>>, seller: Seq<u8>, amount: i128) -> Option<
        AccError,
    > {
        if self.forwarding_error(auth) is Some {
            self.forwarding_error(auth)
        } else if amount <= 0 {
            Some(AccError::InvalidAmount)
        } else {
            self.update_error(Some(seller), None, amount)
        }
    }

    /// A mint forwarded by the bound marketplace.
    pub open spec fn manager_mint_forwarded_error(self, auth: Set<Seq<u8>>, to: Seq<u8>, amount: i128) -> Option<
        AccError,
    > {
        if self.forwarding_error(auth) is Some {
            self.forwarding_error(auth)
        } else {
            self.manager_mint_error(to, amount)
        }
    }

    /// A transfer, authorized by the sender.
    pub open spec fn manager_transfer_error(self, auth: Set<Seq<u8>>, from: Seq<u8>, to: Seq<u8>, amount: i128) -> Option<
        AccError,
    > {
        if !auth.contains(from) {
            Some(AccError::Unauthorized)
        } else {
            self.update_error(Some(from), Some(to), amount)
        }
    }

    /// A burn, authorized by the holder.
    pub open spec fn manager_burn_error(self, auth: Set<Seq<u8>>, from: Seq<u8>, amount: i128) -> Option<AccError> {
        if !auth.contains(from) {
            Some(AccError::Unauthorized)
        } else {
            self.update_error(Some(from), None, amount)
        }
    }

    /// Setting an allowance.
    pub open spec fn set_allowance_error(self, amount: i128, live_until_ledger: u32, ledger: LedgerInfo) -> Option<
        AccError,
    > {
        if amount < 0 {
            Some(AccError::NegativeAmount)
        } else if live_until_ledger > ledger.max_live_until_ledger || (amount > 0 && live_until_ledger
            < ledger.sequence) {
            Some(AccError::InvalidLiveUntilLedger)
        } else {
            None
        }
    }

    /// Spending `amount` of an allowance.
    pub open spec fn spend_error(self, owner: Seq<u8>, spender: Seq<u8>, amount: i128, ledger: LedgerInfo) -> Option<
        AccError,
    > {
        let d = self.allowance_data(owner, spender, ledger.sequence);
        if amount < 0 {
            Some(AccError::NegativeAmount)
        } else if d.amount < amount {
            Some(AccError::AllowanceExceeded)
        } else if amount > 0 {
            self.set_allowance_error((d.amount - amount) as i128, d.live_until_ledger, ledger)
        } else {
            None
        }
    }

    /// The state after spending `amount` of an allowance.
    pub open spec fn spent(self, owner: Seq<u8>, spender: Seq<u8>, amount: i128, ledger: LedgerInfo) -> TokenModel {
        let d = self.allowance_data(owner, spender, ledger.sequence);
        if amount > 0 {
            self.with_allowance(
                owner,
                spender,
                AllowanceData { amount: (d.amount - amount) as i128, live_until_ledger: d.live_until_ledger },
            )
        } else {
            self
        }
    }

    /// A transfer that spends an allowance.
    pub open spec fn manager_transfer_from_error(
        self,
        auth: Set<Seq<u8>>,
        spender: Seq<u8>,
        from: Seq<u8>,
        to: Seq<u8>,
        amount: i128,
        ledger: LedgerInfo,
    ) -> Option<AccError> {
        if !auth.contains(spender) {
            Some(AccError::Unauthorized)
        } else if self.spend_error(from, spender, amount, ledger) is Some {
            self.spend_error(from, spender, amount, ledger)
        } else {
            self.spent(from, spender, amount, ledger).update_error(Some(from), Some(to), amount)
        }
    }

    /// A burn that spends an allowance.
    pub open spec fn burn_from_error(
        self,
        auth: Set<Seq<u8>>,
        spender: Seq<u8>,
        from: Seq<u8>,
        amount: i128,
        ledger: LedgerInfo,
    ) -> Option<AccError> {
        if !auth.contains(spender) {
            Some(AccError::Unauthorized)
        } else if self.spend_error(from, spender, amount, ledger) is Some {
            self.spend_error(from, spender, amount, ledger)
        } else {
            self.spent(from, spender, amount, ledger).update_error(Some(from), None, amount)
        }
    }

    /// The pause gate.
    pub open spec fn pause_error(self) -> Option<AccError> {
        if self.paused {
            Some(AccError::ContractPaused)
        } else {
            None
        }
    }

    /// The owner gate: there is an owner, and it authorized the invocation.
    pub open spec fn owner_error(self, auth: Set<Seq<u8>>) -> Option<AccError> {
        match self.owner {
            None => Some(AccError::OwnerNotSet),
            Some(o) => if auth.contains(o) {
                None
            } else {
                Some(AccError::Unauthorized)
            },
        }
    }

    /// The pause gate and, behind it, the owner gate.
    pub open spec fn gate_error(self, auth: Set<Seq<u8>>) -> Option<AccError> {
        if self.paused {
            Some(AccError::ContractPaused)
        } else {
            self.owner_error(auth)
        }
    }

    pub open spec fn with_owner(self, o: Option<Seq<u8>>) -> TokenModel {
        TokenModel { owner: o, ..self }
    }

    pub open spec fn with_pending_owner(self, p: Option<PendingOwnerView>) -> TokenModel {
        TokenModel { pending_owner: p, ..self }
    }

    /// Starting an ownership transfer (a positive last ledger, within the
    /// ledgers an entry can live until) or cancelling the pending one (last
    /// ledger zero, naming the pending new owner); owner only.
    pub open spec fn transfer_ownership_error(
        self,
        auth: Set<Seq<u8>>,
        new_owner: Seq<u8>,
        live_until_ledger: u32,
        ledger: LedgerInfo,
    ) -> Option<AccError> {
        if self.owner_error(auth) is Some {
            self.owner_error(auth)
        } else if live_until_ledger == 0 {
            match self.pending_owner {
                None => Some(AccError::NoPendingTransfer),
                Some(p) => if p.address != new_owner {
                    Some(AccError::InvalidPendingAccount)
                } else {
                    None
                },
            }
        } else if live_until_ledger > ledger.max_live_until_ledger || live_until_ledger < ledger.sequence {
            Some(AccError::InvalidLiveUntilLedger)
        } else {
            None
        }
    }

    /// The pending transfer after a successful `transfer_ownership`.
    pub open spec fn ownership_offered(self, new_owner: Seq<u8>, live_until_ledger: u32) -> TokenModel {
        if live_until_ledger == 0 {
            self.with_pending_owner(None)
        } else {
            self.with_pending_owner(Some(PendingOwnerView { address: new_owner, live_until_ledger }))
        }
    }

    /// Accepting the pending ownership transfer: by the new owner, no later
    /// than its last ledger.
    pub open spec fn accept_ownership_error(self, auth: Set<Seq<u8>>, ledger: LedgerInfo) -> Option<AccError> {
        match self.pending_owner {
            None => Some(AccError::NoPendingTransfer),
            Some(p) => if ledger.sequence > p.live_until_ledger {
                Some(AccError::TransferExpired)
            } else if !auth.contains(p.address) {
                Some(AccError::Unauthorized)
            } else {
                None
            },
        }
    }

    /// The state after the pending transfer was accepted.
    pub open spec fn ownership_accepted(self) -> TokenModel {
        self.with_owner(Some(self.pending_owner->0.address)).with_pending_owner(None)
    }

    /// Renouncing ownership: owner only, while no transfer of it is pending
    /// (one past its last ledger no longer counts).
    pub open spec fn renounce_ownership_error(self, auth: Set<Seq<u8>>, ledger: LedgerInfo) -> Option<AccError> {
        if self.owner_error(auth) is Some {
            self.owner_error(auth)
        } else if self.pending_owner matches Some(p) && ledger.sequence <= p.live_until_ledger {
            Some(AccError::TransferInProgress)
        } else {
            None
        }
    }

    /// The state after ownership was renounced: no owner, and no pending
    /// transfer (an expired one is cleared).
    pub open spec fn ownership_renounced(self) -> TokenModel {
        self.with_owner(None).with_pending_owner(None)
    }
}

/// The token contract, with its storage.
pub struct MyToken {
    address: Addr,
    owner: Option<Addr>,
    pending_owner: Option<PendingOwner>,
    decimals: u32,
    name: Vec<u8>,
    symbol: Vec<u8>,
    marketplace: Option<Addr>,
    paused: bool,
    balances: KeyMap<i128>,
    total_supply: i128,
    allowances: KeyMap<AllowanceData>,
}

impl View for MyToken {
    type V = TokenModel;

    closed spec fn view(&self) -> TokenModel {
        TokenModel {
            address: self.address@,
            owner: match self.owner {
                Some(o) => Some(o@),
                None => None,
            },
            pending_owner: match self.pending_owner {
                Some(p) => Some(p@),
                None => None,
            },
            decimals: self.decimals,
            name: self.name@,
            symbol: self.symbol@,
            marketplace: match self.marketplace {
                Some(m) => Some(m@),
                None => None,
            },
            paused: self.paused,
            balances: by_single(self.balances@),
            total_supply: self.total_supply,
            allowances: self.allowances@,
        }
    }
}

impl MyToken {
    /// The storage is consistent: the supply is the sum of all balances and
    /// no balance is below zero.
    pub closed spec fn wf(&self) -> bool {
        &&& self.balances.wf()
        &&& self.allowances.wf()
        &&& self.total_supply == self.balances.total(amount_weight())
        &&& forall|k: (Seq<u8>, Seq<u8>)| #[trigger]
            self.balances@.dom().contains(k) ==> self.balances@[k] >= 0
    }

    /// The sum of all balances.
    pub closed spec fn balance_sum(&self) -> int {
        self.balances.total(amount_weight())
    }

    /// Law: in every state the token can reach, the total supply is the sum
    /// of all balances, and every balance lies between zero and the supply.
    pub proof fn law_supply_is_sum_of_balances(&self, a: Seq<u8>)
        requires
            self.wf(),
        ensures
            self@.total_supply == self.balance_sum(),
            0 <= self@.balance(a) <= self@.total_supply,
    {
        let k = single_key(a);
        self.balances.lemma_total_nonneg(amount_weight());
        if self.balances@.dom().contains(k) {
            self.balances.lemma_value_le_total(k, amount_weight());
        }
    }

    /// Law: after the debit half of a balance update that passed its checks,
    /// the credit to `to` fits in an `i128` (a balance never exceeds the
    /// supply, and two balances together never exceed it either).
    pub proof fn law_credit_fits(&self, from: Option<Seq<u8>>, to: Seq<u8>, amount: i128)
        requires
            self.wf(),
            amount >= 0,
            from matches Some(f) ==> self@.balance(f) >= amount,
            from is None ==> self@.total_supply + amount <= i128::MAX,
        ensures
            self@.debited(from, amount).balance(to) + amount <= i128::MAX,
    {
        let w = amount_weight();
        let kt = single_key(to);
        self.law_supply_is_sum_of_balances(to);
        match from {
            None => {},
            Some(f) => {
                let kf = single_key(f);
                self.law_supply_is_sum_of_balances(f);
                if f != to && self.balances@.dom().contains(kt) && self.balances@.dom().contains(kf) {
                    self.balances.lemma_two_values_le_total(kf, kt, w);
                }
            },
        }
    }

    fn balance_of(&self, a: &Addr) -> (r: i128)
        requires
            self.wf(),
        ensures
            r == self@.balance(a@),
    {
        match self.balances.get(&Key::single(a.bytes.as_slice())) {
            Some(v) => *v,
            None => 0,
        }
    }

    fn set_balance(&mut self, a: &Addr, v: i128)
        requires
            old(self).balances.wf(),
        ensures
            final(self).balances.wf(),
            final(self)@ == old(self)@.with_balance(a@, v),
            final(self).allowances == old(self).allowances,
            final(self).balances@ == old(self).balances@.insert(single_key(a@), v),
            final(self).balance_sum() == old(self).balance_sum() - old(self)@.balance(a@) + v,
    {
        let ghost pre = *self;
        self.balances.insert(Key::single(a.bytes.as_slice()), v);
        proof {
            lemma_by_single_insert(pre.balances@, a@, v);
            assert(self.balances.total(amount_weight()) == pre.balances.total(amount_weight()) - (
            if pre.balances@.dom().contains(single_key(a@)) {
                amount_weight()(pre.balances@[single_key(a@)])
            } else {
                0
            }) + amount_weight()(v));
            assert(self@ =~= pre@.with_balance(a@, v));
        }
    }

    /// The balance update (see `TokenModel::update_error`).
    fn update(&mut self, from: Option<&Addr>, to: Option<&Addr>, amount: i128) -> (r: Result<(), AccError>)
        requires
            old(self).wf(),
        ensures
            final(self).wf(),
            match old(self)@.update_error(opt_addr(from), opt_addr(to), amount) {
                Some(e) => r == Err::<(), AccError>(e) && final(self)@ == old(self)@,
                None => r is Ok && final(self)@ == old(self)@.updated(opt_addr(from), opt_addr(to), amount),
            },
    {
        let ghost pre = *self;
        let ghost fv = opt_addr(from);
        let ghost tv = opt_addr(to);
        if amount < 0 {
            return Err(AccError::NegativeAmount);
        }
        // Check every condition before writing anything.
        let mut from_balance: i128 = 0;
        match from {
            Some(f) => {
                from_balance = self.balance_of(f);
                if from_balance < amount {
                    return Err(AccError::InsufficientBalance);
                }
            },
            None => {
                if self.total_supply > i128::MAX - amount {
                    return Err(AccError::Overflow);
                }
            },
        }
        let ghost mid = pre@.debited(fv, amount);
        let mut to_balance: i128 = 0;
        match to {
            Some(t) => {
                let same_account = match from {
                    Some(f) => f.same(t),
                    None => false,
                };
                to_balance = if same_account {
                    from_balance - amount
                } else {
                    self.balance_of(t)
                };
                assert(to_balance == mid.balance(t@));
                proof {
                    self.law_credit_fits(opt_addr(from), t@, amount);
                }
            },
            None => {},
        }
        proof {
            if let Some(f) = from {
                self.law_supply_is_sum_of_balances(f@);
            }
        }
        match from {
            Some(f) => {
                self.set_balance(f, from_balance - amount);
            },
            None => {
                self.total_supply = self.total_supply + amount;
                assert(self@ =~= pre@.with_supply((pre@.total_supply + amount) as i128));
            },
        }
        assert(self@ == mid);
        let ghost mid_sum = self.balance_sum();
        match to {
            Some(t) => {
                self.set_balance(t, to_balance + amount);
            },
            None => {
                self.total_supply = self.total_supply - amount;
                assert(self@ =~= mid.with_supply((mid.total_supply - amount) as i128));
            },
        }
        proof {
            assert forall|k: (Seq<u8>, Seq<u8>)| #[trigger]
                self.balances@.dom().contains(k) implies self.balances@[k] >= 0 by {
                if pre.balances@.dom().contains(k) {
                    assert(pre.balances@[k] >= 0);
                }
            }
        }
        Ok(())
    }
}


impl MyToken {
    fn allowance_data_of(&self, owner: &Addr, spender: &Addr, sequence: u32) -> (r: AllowanceData)
        requires
            self.wf(),
        ensures
            r == self@.allowance_data(owner@, spender@, sequence),
    {
        let d = match self.allowances.get(&Key::pair(owner.bytes.as_slice(), spender.bytes.as_slice())) {
            Some(d) => *d,
            None => AllowanceData { amount: 0, live_until_ledger: 0 },
        };
        if d.live_until_ledger < sequence {
            AllowanceData { amount: 0, live_until_ledger: 0 }
        } else {
            d
        }
    }

    /// Sets an allowance, without checking authorization (see
    /// `TokenModel::set_allowance_error`).
    fn set_allowance(
        &mut self,
        owner: &Addr,
        spender: &Addr,
        amount: i128,
        live_until_ledger: u32,
        ledger: LedgerInfo,
    ) -> (r: Result<(), AccError>)
        requires
            old(self).wf(),
        ensures
            final(self).wf(),
            match old(self)@.set_allowance_error(amount, live_until_ledger, ledger) {
                Some(e) => r == Err::<(), AccError>(e) && final(self)@ == old(self)@,
                None => r is Ok && final(self)@ == old(self)@.with_allowance(
                    owner@,
                    spender@,
                    AllowanceData { amount, live_until_ledger },
                ),
            },
    {
        if amount < 0 {
            return Err(AccError::NegativeAmount);
        }
        if live_until_ledger > ledger.max_live_until_ledger || (amount > 0 && live_until_ledger
            < ledger.sequence) {
            return Err(AccError::InvalidLiveUntilLedger);
        }
        let ghost pre = *self;
        self.allowances.insert(
            Key::pair(owner.bytes.as_slice(), spender.bytes.as_slice()),
            AllowanceData { amount, live_until_ledger },
        );
        assert(self@ =~= pre@.with_allowance(
            owner@,
            spender@,
            AllowanceData { amount, live_until_ledger },
        ));
        Ok(())
    }

    /// Checks that `amount` of `spender`'s allowance over `owner`'s tokens
    /// can be spent (see `TokenModel::spend_error`), and returns the
    /// allowance.
    fn spend_check(&self, owner: &Addr, spender: &Addr, amount: i128, ledger: LedgerInfo) -> (r: Result<
        AllowanceData,
        AccError,
    >)
        requires
            self.wf(),
        ensures
            match self@.spend_error(owner@, spender@, amount, ledger) {
                Some(e) => r == Err::<AllowanceData, AccError>(e),
                None => r == Ok::<AllowanceData, AccError>(
                    self@.allowance_data(owner@, spender@, ledger.sequence),
                ),
            },
    {
        if amount < 0 {
            return Err(AccError::NegativeAmount);
        }
        let d = self.allowance_data_of(owner, spender, ledger.sequence);
        if d.amount < amount {
            return Err(AccError::AllowanceExceeded);
        }
        if amount > 0 {
            let rest = d.amount - amount;
            if rest < 0 {
                return Err(AccError::NegativeAmount);
            }
            if d.live_until_ledger > ledger.max_live_until_ledger || (rest > 0 && d.live_until_ledger
                < ledger.sequence) {
                return Err(AccError::InvalidLiveUntilLedger);
            }
        }
        Ok(d)
    }

    /// Spends `amount` of an allowance that `spend_check` accepted.
    fn spend_apply(&mut self, owner: &Addr, spender: &Addr, amount: i128, d: AllowanceData, ledger: LedgerInfo)
        requires
            old(self).wf(),
            old(self)@.spend_error(owner@, spender@, amount, ledger) is None,
            d == old(self)@.allowance_data(owner@, spender@, ledger.sequence),
        ensures
            final(self).wf(),
            final(self)@ == old(self)@.spent(owner@, spender@, amount, ledger),
    {
        if amount > 0 {
            let _ = self.set_allowance(owner, spender, d.amount - amount, d.live_until_ledger, ledger);
        }
    }
}

/// The token's business rules, applied to the token contract's storage.
pub struct TokenManager;

impl TokenManager {
    /// Mints and sales move a positive amount.
    pub fn check_amount(amount: i128) -> (r: Result<(), AccError>)
        ensures
            r == token_verdict(amount_rule(amount)),
    {
        if amount <= 0 {
            Err(AccError::InvalidAmount)
        } else {
            Ok(())
        }
    }

    /// Whether `candidate` may become the bound marketplace of the token at
    /// `token`, given whether one is bound already and what the ledger
    /// reports `candidate` to execute.
    pub fn check_bind(bound: bool, candidate: &Addr, token: &Addr, executable: Option<Executable>) -> (r: Result<
        (),
        AccError,
    >)
        ensures
            r == token_verdict(bind_rule(bound, candidate@, token@, executable)),
    {
        if bound {
            return Err(AccError::MarketplaceAlreadySet);
        }
        if candidate.same(token) {
            return Err(AccError::InvalidAddress);
        }
        match executable {
            Some(Executable::Wasm) => Ok(()),
            _ => Err(AccError::MarketplaceNotContract),
        }
    }

    /// Whether a marketplace is bound and authorized the invocation.
    pub fn check_marketplace(marketplace: Option<&Addr>, auth: &Auth) -> (r: Result<(), AccError>)
        ensures
            r == token_verdict(forwarding_rule(opt_addr(marketplace), auth@)),
    {
        match marketplace {
            Some(m) => if auth.authorizes(m) {
                Ok(())
            } else {
                Err(AccError::Unauthorized)
            },
            None => Err(AccError::NotInitialized),
        }
    }

    /// Deploys the token: sets its metadata and its owner.  It starts with
    /// no marketplace, unpaused, with no balances and no allowances.
    pub fn initialize(address: Addr, owner: Addr, name: Vec<u8>, symbol: Vec<u8>, decimals: u32) -> (t: MyToken)
        ensures
            t.wf(),
            t@.address == address@,
            t@.owner == Some(owner@),
            t@.pending_owner is None,
            t@.name == name@,
            t@.symbol == symbol@,
            t@.decimals == decimals,
            t@.marketplace is None,
            !t@.paused,
            t@.balances == Map::<Seq<u8>, i128>::empty(),
            t@.total_supply == 0,
            t@.allowances == Map::<(Seq<u8>, Seq<u8>), AllowanceData>::empty(),
    {
        let t = MyToken {
            address,
            owner: Some(owner),
            pending_owner: None,
            decimals,
            name,
            symbol,
            marketplace: None,
            paused: false,
            balances: KeyMap::new(),
            total_supply: 0,
            allowances: KeyMap::new(),
        };
        proof {
            lemma_by_single_empty::<i128>();
            assert(t.balances.total(amount_weight()) == 0);
        }
        t
    }

    /// Mints a positive `amount` to `to`; the event names the owner.
    pub fn mint(token: &mut MyToken, to: &Addr, amount: i128) -> (r: Result<MintEvent, AccError>)
        requires
            old(token).wf(),
        ensures
            final(token).wf(),
            match old(token)@.manager_mint_error(to@, amount) {
                Some(e) => r == Err::<MintEvent, AccError>(e) && final(token)@ == old(token)@,
                None => r matches Ok(ev) && final(token)@ == old(token)@.updated(None, Some(to@), amount)
                    && old(token)@.owner == Some(ev.admin@) && ev.to@ == to@ && ev.amount == amount,
            },
    {
        Self::check_amount(amount)?;
        let admin = match &token.owner {
            Some(o) => o.duplicate(),
            None => {
                if token.total_supply > i128::MAX - amount {
                    return Err(AccError::Overflow);
                }
                return Err(AccError::OwnerNotSet);
            },
        };
        match token.update(None, Some(to), amount) {
            Ok(()) => {},
            Err(e) => {
                return Err(e);
            },
        }
        Ok(MintEvent { admin, to: to.duplicate(), amount })
    }

    /// Binds the marketplace: at most once, never to the token itself, and
    /// only to a deployed Wasm contract (as `executable` reports it).
    pub fn set_marketplace(token: &mut MyToken, marketplace: &Addr, executable: Option<Executable>) -> (r: Result<
        (),
        AccError,
    >)
        requires
            old(token).wf(),
        ensures
            final(token).wf(),
            match old(token)@.bind_error(marketplace@, executable) {
                Some(e) => r == Err::<(), AccError>(e) && final(token)@ == old(token)@,
                None => r is Ok && final(token)@ == old(token)@.with_marketplace(marketplace@),
            },
    {
        Self::check_bind(token.marketplace.is_some(), marketplace, &token.address, executable)?;
        let ghost pre = *token;
        token.marketplace = Some(marketplace.duplicate());
        assert(token@ =~= (TokenModel { marketplace: Some(marketplace@), ..pre@ }));
        Ok(())
    }

    /// The bound marketplace.
    pub fn get_marketplace(token: &MyToken) -> (r: Result<Addr, AccError>)
        ensures
            match token@.marketplace {
                Some(m) => r matches Ok(a) && a@ == m,
                None => r == Err::<Addr, AccError>(AccError::NotInitialized),
            },
    {
        match &token.marketplace {
            Some(m) => Ok(m.duplicate()),
            None => Err(AccError::NotInitialized),
        }
    }

    /// Succeeds only where a marketplace is bound and authorized this
    /// invocation.
    pub fn require_marketplace(token: &MyToken, auth: &Auth) -> (r: Result<(), AccError>)
        ensures
            match token@.forwarding_error(auth@) {
                Some(e) => r == Err::<(), AccError>(e),
                None => r is Ok,
            },
    {
        Self::check_marketplace(token.marketplace.as_ref(), auth)
    }

    /// Moves `amount` from `from` to `to`, authorized by `from`.
    pub fn transfer(
        token: &mut MyToken,
        auth: &Auth,
        from: &Addr,
        to: &Addr,
        to_muxed_id: Option<u64>,
        amount: i128,
    ) -> (r: Result<TransferEvent, AccError>)
        requires
            old(token).wf(),
        ensures
            final(token).wf(),
            match old(token)@.manager_transfer_error(auth@, from@, to@, amount) {
                Some(e) => r == Err::<TransferEvent, AccError>(e) && final(token)@ == old(token)@,
                None => r matches Ok(ev) && final(token)@ == old(token)@.updated(
                    Some(from@),
                    Some(to@),
                    amount,
                ) && ev.from@ == from@ && ev.to@ == to@ && ev.to_muxed_id == to_muxed_id && ev.amount
                    == amount,
            },
    {
        if !auth.authorizes(from) {
            return Err(AccError::Unauthorized);
        }
        match token.update(Some(from), Some(to), amount) {
            Ok(()) => {},
            Err(e) => {
                return Err(e);
            },
        }
        Ok(TransferEvent { from: from.duplicate(), to: to.duplicate(), to_muxed_id, amount })
    }

    /// Moves `amount` from `from` to `to` on `spender`'s allowance,
    /// authorized by `spender`.
    pub fn transfer_from(
        token: &mut MyToken,
        auth: &Auth,
        spender: &Addr,
        from: &Addr,
        to: &Addr,
        amount: i128,
        ledger: LedgerInfo,
    ) -> (r: Result<(), AccError>)
        requires
            old(token).wf(),
        ensures
            final(token).wf(),
            match old(token)@.manager_transfer_from_error(auth@, spender@, from@, to@, amount, ledger) {
                Some(e) => r == Err::<(), AccError>(e) && final(token)@ == old(token)@,
                None => r is Ok && final(token)@ == old(token)@.spent(from@, spender@, amount, ledger).updated(
                    Some(from@),
                    Some(to@),
                    amount,
                ),
            },
    {
        if !auth.authorizes(spender) {
            return Err(AccError::Unauthorized);
        }
        let d = match token.spend_check(from, spender, amount, ledger) {
            Ok(d) => d,
            Err(e) => {
                return Err(e);
            },
        };
        let ghost pre = token@;
        match token.update(Some(from), Some(to), amount) {
            Ok(()) => {},
            Err(e) => {
                return Err(e);
            },
        }
        token.spend_apply(from, spender, amount, d, ledger);
        assert(token@ =~= pre.spent(from@, spender@, amount, ledger).updated(Some(from@), Some(to@), amount));
        Ok(())
    }

    /// Burns `amount` of `from`'s tokens, authorized by `from`.
    pub fn burn(token: &mut MyToken, auth: &Auth, from: &Addr, amount: i128) -> (r: Result<BurnEvent, AccError>)
        requires
            old(token).wf(),
        ensures
            final(token).wf(),
            match old(token)@.manager_burn_error(auth@, from@, amount) {
                Some(e) => r == Err::<BurnEvent, AccError>(e) && final(token)@ == old(token)@,
                None => r matches Ok(ev) && final(token)@ == old(token)@.updated(Some(from@), None, amount)
                    && ev.from@ == from@ && ev.amount == amount,
            },
    {
        if !auth.authorizes(from) {
            return Err(AccError::Unauthorized);
        }
        match token.update(Some(from), None, amount) {
            Ok(()) => {},
            Err(e) => {
                return Err(e);
            },
        }
        Ok(BurnEvent { from: from.duplicate(), amount })
    }

    /// Sells (burns) a positive `amount` of `seller`'s tokens, authorized by
    /// the seller.
    pub fn sell(token: &mut MyToken, auth: &Auth, seller: &Addr, amount: i128) -> (r: Result<SellEvent, AccError>)
        requires
            old(token).wf(),
        ensures
            final(token).wf(),
            match old(token)@.manager_sell_error(auth@, seller@, amount) {
                Some(e) => r == Err::<SellEvent, AccError>(e) && final(token)@ == old(token)@,
                None => r matches Ok(ev) && final(token)@ == old(token)@.updated(Some(seller@), None, amount)
                    && ev.seller@ == seller@ && ev.amount == amount,
            },
    {
        if amount <= 0 {
            return Err(AccError::InvalidAmount);
        }
        if !auth.authorizes(seller) {
            return Err(AccError::Unauthorized);
        }
        match token.update(Some(seller), None, amount) {
            Ok(()) => {},
            Err(e) => {
                return Err(e);
            },
        }
        Ok(SellEvent { seller: seller.duplicate(), amount })
    }

    /// Burns a positive `amount` of `seller`'s tokens on behalf of the bound
    /// marketplace, which must have authorized the invocation.
    pub fn sell_forwarded(token: &mut MyToken, auth: &Auth, seller: &Addr, amount: i128) -> (r: Result<
        SellEvent,
        AccError,
    >)
        requires
            old(token).wf(),
        ensures
            final(token).wf(),
            match old(token)@.manager_sell_forwarded_error(auth@, seller@, amount) {
                Some(e) => r == Err::<SellEvent, AccError>(e) && final(token)@ == old(token)@,
                None => r matches Ok(ev) && final(token)@ == old(token)@.updated(Some(seller@), None, amount)
                    && ev.seller@ == seller@ && ev.amount == amount,
            },
    {
        match Self::require_marketplace(token, auth) {
            Ok(()) => {},
            Err(e) => {
                return Err(e);
            },
        }
        if amount <= 0 {
            return Err(AccError::InvalidAmount);
        }
        match token.update(Some(seller), None, amount) {
            Ok(()) => {},
            Err(e) => {
                return Err(e);
            },
        }
        Ok(SellEvent { seller: seller.duplicate(), amount })
    }

    /// Mints a positive `amount` to `to` on behalf of the bound marketplace,
    /// which must have authorized the invocation.
    pub fn mint_forwarded(token: &mut MyToken, auth: &Auth, to: &Addr, amount: i128) -> (r: Result<
        MintEvent,
        AccError,
    >)
        requires
            old(token).wf(),
        ensures
            final(token).wf(),
            match old(token)@.manager_mint_forwarded_error(auth@, to@, amount) {
                Some(e) => r == Err::<MintEvent, AccError>(e) && final(token)@ == old(token)@,
                None => r matches Ok(ev) && final(token)@ == old(token)@.updated(None, Some(to@), amount)
                    && old(token)@.owner == Some(ev.admin@) && ev.to@ == to@ && ev.amount == amount,
            },
    {
        match Self::require_marketplace(token, auth) {
            Ok(()) => {},
            Err(e) => {
                return Err(e);
            },
        }
        Self::mint(token, to, amount)
    }
}


/// The token contract's entry points.  Each one that fails leaves the
/// storage as it was.
impl MyToken {
    /// Deploys the token (see `TokenManager::initialize`).
    pub fn new(address: Addr, owner: Addr, name: Vec<u8>, symbol: Vec<u8>, decimals: u32) -> (t: MyToken)
        ensures
            t.wf(),
            t@.address == address@,
            t@.owner == Some(owner@),
            t@.pending_owner is None,
            t@.name == name@,
            t@.symbol == symbol@,
            t@.decimals == decimals,
            t@.marketplace is None,
            !t@.paused,
            t@.balances == Map::<Seq<u8>, i128>::empty(),
            t@.total_supply == 0,
            t@.allowances == Map::<(Seq<u8>, Seq<u8>), AllowanceData>::empty(),
    {
        TokenManager::initialize(address, owner, name, symbol, decimals)
    }

    /// Owner-only, while not paused: mints a positive `amount` to `to`.
    pub fn mint(&mut self, auth: &Auth, to: &Addr, amount: i128) -> (r: Result<MintEvent, AccError>)
        requires
            old(self).wf(),
        ensures
            final(self).wf(),
            match first_error(old(self)@.gate_error(auth@), old(self)@.manager_mint_error(to@, amount)) {
                Some(e) => r == Err::<MintEvent, AccError>(e) && final(self)@ == old(self)@,
                None => r matches Ok(ev) && final(self)@ == old(self)@.updated(None, Some(to@), amount)
                    && old(self)@.owner == Some(ev.admin@) && ev.to@ == to@ && ev.amount == amount,
            },
    {
        if self.paused {
            return Err(AccError::ContractPaused);
        }
        self.owner_check(auth)?;
        TokenManager::mint(self, to, amount)
    }

    /// Owner-only: binds the one marketplace allowed to use the forwarded
    /// entry points (see `TokenManager::set_marketplace`).
    pub fn set_marketplace(&mut self, auth: &Auth, marketplace: &Addr, executable: Option<Executable>) -> (r: Result<
        (),
        AccError,
    >)
        requires
            old(self).wf(),
        ensures
            final(self).wf(),
            match first_error(old(self)@.owner_error(auth@), old(self)@.bind_error(marketplace@, executable)) {
                Some(e) => r == Err::<(), AccError>(e) && final(self)@ == old(self)@,
                None => r is Ok && final(self)@ == old(self)@.with_marketplace(marketplace@),
            },
    {
        self.owner_check(auth)?;
        TokenManager::set_marketplace(self, marketplace, executable)
    }

    /// The bound marketplace; `NotInitialized` before one is bound.
    pub fn get_marketplace(&self) -> (r: Result<Addr, AccError>)
        ensures
            match self@.marketplace {
                Some(m) => r matches Ok(a) && a@ == m,
                None => r == Err::<Addr, AccError>(AccError::NotInitialized),
            },
    {
        TokenManager::get_marketplace(self)
    }

    /// While not paused: `seller` sells (burns) a positive `amount`.
    pub fn sell(&mut self, auth: &Auth, seller: &Addr, amount: i128) -> (r: Result<SellEvent, AccError>)
        requires
            old(self).wf(),
        ensures
            final(self).wf(),
            match first_error(old(self)@.pause_error(), old(self)@.manager_sell_error(auth@, seller@, amount)) {
                Some(e) => r == Err::<SellEvent, AccError>(e) && final(self)@ == old(self)@,
                None => r matches Ok(ev) && final(self)@ == old(self)@.updated(Some(seller@), None, amount)
                    && ev.seller@ == seller@ && ev.amount == amount,
            },
    {
        if self.paused {
            return Err(AccError::ContractPaused);
        }
        TokenManager::sell(self, auth, seller, amount)
    }

    /// While not paused: the bound marketplace burns a positive `amount` of
    /// `seller`'s tokens.
    pub fn sell_forwarded(&mut self, auth: &Auth, seller: &Addr, amount: i128) -> (r: Result<SellEvent, AccError>)
        requires
            old(self).wf(),
        ensures
            final(self).wf(),
            match first_error(
                old(self)@.pause_error(),
                old(self)@.manager_sell_forwarded_error(auth@, seller@, amount),
            ) {
                Some(e) => r == Err::<SellEvent, AccError>(e) && final(self)@ == old(self)@,
                None => r matches Ok(ev) && final(self)@ == old(self)@.updated(Some(seller@), None, amount)
                    && ev.seller@ == seller@ && ev.amount == amount,
            },
    {
        if self.paused {
            return Err(AccError::ContractPaused);
        }
        TokenManager::sell_forwarded(self, auth, seller, amount)
    }

    /// While not paused: the bound marketplace mints a positive `amount` to
    /// `to`.
    pub fn mint_forwarded(&mut self, auth: &Auth, to: &Addr, amount: i128) -> (r: Result<MintEvent, AccError>)
        requires
            old(self).wf(),
        ensures
            final(self).wf(),
            match first_error(
                old(self)@.pause_error(),
                old(self)@.manager_mint_forwarded_error(auth@, to@, amount),
            ) {
                Some(e) => r == Err::<MintEvent, AccError>(e) && final(self)@ == old(self)@,
                None => r matches Ok(ev) && final(self)@ == old(self)@.updated(None, Some(to@), amount)
                    && old(self)@.owner == Some(ev.admin@) && ev.to@ == to@ && ev.amount == amount,
            },
    {
        if self.paused {
            return Err(AccError::ContractPaused);
        }
        match TokenManager::require_marketplace(self, auth) {
            Ok(()) => {},
            Err(e) => {
                return Err(e);
            },
        }
        TokenManager::mint(self, to, amount)
    }

    /// The balance of `account`; zero for an account that never held any.
    pub fn balance(&self, account: &Addr) -> (r: i128)
        requires
            self.wf(),
        ensures
            r == self@.balance(account@),
    {
        self.balance_of(account)
    }

    pub fn total_supply(&self) -> (r: i128)
        ensures
            r == self@.total_supply,
    {
        self.total_supply
    }

    pub fn decimals(&self) -> (r: u32)
        ensures
            r == self@.decimals,
    {
        self.decimals
    }

    pub fn name(&self) -> (r: Vec<u8>)
        ensures
            r@ == self@.name,
    {
        copy_bytes(self.name.as_slice())
    }

    pub fn symbol(&self) -> (r: Vec<u8>)
        ensures
            r@ == self@.symbol,
    {
        copy_bytes(self.symbol.as_slice())
    }

    /// What `spender` may still move of `owner`'s tokens in the ledger
    /// `ledger`; zero once expired.
    pub fn allowance(&self, owner: &Addr, spender: &Addr, ledger: LedgerInfo) -> (r: i128)
        requires
            self.wf(),
        ensures
            r == self@.allowance(owner@, spender@, ledger.sequence),
    {
        self.allowance_data_of(owner, spender, ledger.sequence).amount
    }

    /// Authorized by `owner`: lets `spender` move up to `amount` of its
    /// tokens until ledger `live_until_ledger`, replacing any earlier
    /// allowance.
    pub fn approve(
        &mut self,
        auth: &Auth,
        owner: &Addr,
        spender: &Addr,
        amount: i128,
        live_until_ledger: u32,
        ledger: LedgerInfo,
    ) -> (r: Result<(), AccError>)
        requires
            old(self).wf(),
        ensures
            final(self).wf(),
            match first_error(
                if auth@.contains(owner@) {
                    None
                } else {
                    Some(AccError::Unauthorized)
                },
                old(self)@.set_allowance_error(amount, live_until_ledger, ledger),
            ) {
                Some(e) => r == Err::<(), AccError>(e) && final(self)@ == old(self)@,
                None => r is Ok && final(self)@ == old(self)@.with_allowance(
                    owner@,
                    spender@,
                    AllowanceData { amount, live_until_ledger },
                ),
            },
    {
        if !auth.authorizes(owner) {
            return Err(AccError::Unauthorized);
        }
        self.set_allowance(owner, spender, amount, live_until_ledger, ledger)
    }

    /// While not paused: `from` moves `amount` to `to`.
    pub fn transfer(&mut self, auth: &Auth, from: &Addr, to: &Addr, to_muxed_id: Option<u64>, amount: i128) -> (r:
        Result<TransferEvent, AccError>)
        requires
            old(self).wf(),
        ensures
            final(self).wf(),
            match first_error(
                old(self)@.pause_error(),
                old(self)@.manager_transfer_error(auth@, from@, to@, amount),
            ) {
                Some(e) => r == Err::<TransferEvent, AccError>(e) && final(self)@ == old(self)@,
                None => r matches Ok(ev) && final(self)@ == old(self)@.updated(
                    Some(from@),
                    Some(to@),
                    amount,
                ) && ev.from@ == from@ && ev.to@ == to@ && ev.to_muxed_id == to_muxed_id && ev.amount
                    == amount,
            },
    {
        if self.paused {
            return Err(AccError::ContractPaused);
        }
        TokenManager::transfer(self, auth, from, to, to_muxed_id, amount)
    }

    /// While not paused: `spender` moves `amount` of `from`'s tokens to `to`
    /// on its allowance.
    pub fn transfer_from(
        &mut self,
        auth: &Auth,
        spender: &Addr,
        from: &Addr,
        to: &Addr,
        amount: i128,
        ledger: LedgerInfo,
    ) -> (r: Result<(), AccError>)
        requires
            old(self).wf(),
        ensures
            final(self).wf(),
            match first_error(
                old(self)@.pause_error(),
                old(self)@.manager_transfer_from_error(auth@, spender@, from@, to@, amount, ledger),
            ) {
                Some(e) => r == Err::<(), AccError>(e) && final(self)@ == old(self)@,
                None => r is Ok && final(self)@ == old(self)@.spent(from@, spender@, amount, ledger).updated(
                    Some(from@),
                    Some(to@),
                    amount,
                ),
            },
    {
        if self.paused {
            return Err(AccError::ContractPaused);
        }
        TokenManager::transfer_from(self, auth, spender, from, to, amount, ledger)
    }

    /// While not paused: `from` burns `amount` of its tokens.
    pub fn burn(&mut self, auth: &Auth, from: &Addr, amount: i128) -> (r: Result<BurnEvent, AccError>)
        requires
            old(self).wf(),
        ensures
            final(self).wf(),
            match first_error(old(self)@.pause_error(), old(self)@.manager_burn_error(auth@, from@, amount)) {
                Some(e) => r == Err::<BurnEvent, AccError>(e) && final(self)@ == old(self)@,
                None => r matches Ok(ev) && final(self)@ == old(self)@.updated(Some(from@), None, amount)
                    && ev.from@ == from@ && ev.amount == amount,
            },
    {
        if self.paused {
            return Err(AccError::ContractPaused);
        }
        TokenManager::burn(self, auth, from, amount)
    }

    /// While not paused: `spender` burns `amount` of `from`'s tokens on its
    /// allowance.
    pub fn burn_from(&mut self, auth: &Auth, spender: &Addr, from: &Addr, amount: i128, ledger: LedgerInfo) -> (r:
        Result<(), AccError>)
        requires
            old(self).wf(),
        ensures
            final(self).wf(),
            match first_error(
                old(self)@.pause_error(),
                old(self)@.burn_from_error(auth@, spender@, from@, amount, ledger),
            ) {
                Some(e) => r == Err::<(), AccError>(e) && final(self)@ == old(self)@,
                None => r is Ok && final(self)@ == old(self)@.spent(from@, spender@, amount, ledger).updated(
                    Some(from@),
                    None,
                    amount,
                ),
            },
    {
        if self.paused {
            return Err(AccError::ContractPaused);
        }
        if !auth.authorizes(spender) {
            return Err(AccError::Unauthorized);
        }
        let d = match self.spend_check(from, spender, amount, ledger) {
            Ok(d) => d,
            Err(e) => {
                return Err(e);
            },
        };
        let ghost pre = self@;
        match self.update(Some(from), None, amount) {
            Ok(()) => {},
            Err(e) => {
                return Err(e);
            },
        }
        self.spend_apply(from, spender, amount, d, ledger);
        assert(self@ =~= pre.spent(from@, spender@, amount, ledger).updated(Some(from@), None, amount));
        Ok(())
    }

    pub fn paused(&self) -> (r: bool)
        ensures
            r == self@.paused,
    {
        self.paused
    }

    /// Owner-only: pauses the token; `ContractPaused` if it already is.
    pub fn pause(&mut self, auth: &Auth, _caller: &Addr) -> (r: Result<(), AccError>)
        requires
            old(self).wf(),
        ensures
            final(self).wf(),
            match first_error(old(self)@.owner_error(auth@), old(self)@.pause_error()) {
                Some(e) => r == Err::<(), AccError>(e) && final(self)@ == old(self)@,
                None => r is Ok && final(self)@ == old(self)@.with_paused(true),
            },
    {
        self.owner_check(auth)?;
        if self.paused {
            return Err(AccError::ContractPaused);
        }
        self.paused = true;
        Ok(())
    }

    /// Owner-only: unpauses the token; `ContractNotPaused` if it is not
    /// paused.
    pub fn unpause(&mut self, auth: &Auth, _caller: &Addr) -> (r: Result<(), AccError>)
        requires
            old(self).wf(),
        ensures
            final(self).wf(),
            match first_error(
                old(self)@.owner_error(auth@),
                if old(self)@.paused {
                    None
                } else {
                    Some(AccError::ContractNotPaused)
                },
            ) {
                Some(e) => r == Err::<(), AccError>(e) && final(self)@ == old(self)@,
                None => r is Ok && final(self)@ == old(self)@.with_paused(false),
            },
    {
        self.owner_check(auth)?;
        if !self.paused {
            return Err(AccError::ContractNotPaused);
        }
        self.paused = false;
        Ok(())
    }

    /// The owner gate (see `TokenModel::owner_error`).
    fn owner_check(&self, auth: &Auth) -> (r: Result<(), AccError>)
        ensures
            r == token_verdict(self@.owner_error(auth@)),
    {
        match &self.owner {
            None => Err(AccError::OwnerNotSet),
            Some(o) => if auth.authorizes(o) {
                Ok(())
            } else {
                Err(AccError::Unauthorized)
            },
        }
    }

    /// The token's owner; none once ownership was renounced.
    pub fn get_owner(&self) -> (r: Option<Addr>)
        ensures
            match self@.owner {
                Some(o) => r matches Some(a) && a@ == o,
                None => r is None,
            },
    {
        match &self.owner {
            Some(o) => Some(o.duplicate()),
            None => None,
        }
    }

    /// Owner-only: offers ownership to `new_owner` until ledger
    /// `live_until_ledger`, replacing any pending offer; with a last ledger
    /// of zero, withdraws the pending offer to `new_owner` instead.  The
    /// owner does not change until the new owner accepts.
    pub fn transfer_ownership(&mut self, auth: &Auth, new_owner: &Addr, live_until_ledger: u32, ledger: LedgerInfo) -> (r:
        Result<(), AccError>)
        requires
            old(self).wf(),
        ensures
            final(self).wf(),
            match old(self)@.transfer_ownership_error(auth@, new_owner@, live_until_ledger, ledger) {
                Some(e) => r == Err::<(), AccError>(e) && final(self)@ == old(self)@,
                None => r is Ok && final(self)@ == old(self)@.ownership_offered(new_owner@, live_until_ledger),
            },
    {
        self.owner_check(auth)?;
        let ghost pre = self@;
        if live_until_ledger == 0 {
            match &self.pending_owner {
                None => {
                    return Err(AccError::NoPendingTransfer);
                },
                Some(p) => {
                    if !p.address.same(new_owner) {
                        return Err(AccError::InvalidPendingAccount);
                    }
                },
            }
            self.pending_owner = None;
            assert(self@ =~= pre.with_pending_owner(None));
            return Ok(());
        }
        if live_until_ledger > ledger.max_live_until_ledger || live_until_ledger < ledger.sequence {
            return Err(AccError::InvalidLiveUntilLedger);
        }
        self.pending_owner = Some(PendingOwner { address: new_owner.duplicate(), live_until_ledger });
        assert(self@ =~= pre.with_pending_owner(
            Some(PendingOwnerView { address: new_owner@, live_until_ledger }),
        ));
        Ok(())
    }

    /// The pending new owner, no later than the offer's last ledger, accepts
    /// ownership.
    pub fn accept_ownership(&mut self, auth: &Auth, ledger: LedgerInfo) -> (r: Result<(), AccError>)
        requires
            old(self).wf(),
        ensures
            final(self).wf(),
            match old(self)@.accept_ownership_error(auth@, ledger) {
                Some(e) => r == Err::<(), AccError>(e) && final(self)@ == old(self)@,
                None => r is Ok && final(self)@ == old(self)@.ownership_accepted(),
            },
    {
        let ghost pre = self@;
        let new_owner = match &self.pending_owner {
            None => {
                return Err(AccError::NoPendingTransfer);
            },
            Some(p) => {
                if ledger.sequence > p.live_until_ledger {
                    return Err(AccError::TransferExpired);
                }
                if !auth.authorizes(&p.address) {
                    return Err(AccError::Unauthorized);
                }
                p.address.duplicate()
            },
        };
        self.pending_owner = None;
        self.owner = Some(new_owner);
        assert(self@ =~= pre.ownership_accepted());
        Ok(())
    }

    /// Owner-only: gives up ownership for good, unless a transfer of it is
    /// pending.  Afterwards no owner-only operation, and no mint, succeeds.
    pub fn renounce_ownership(&mut self, auth: &Auth, ledger: LedgerInfo) -> (r: Result<(), AccError>)
        requires
            old(self).wf(),
        ensures
            final(self).wf(),
            match old(self)@.renounce_ownership_error(auth@, ledger) {
                Some(e) => r == Err::<(), AccError>(e) && final(self)@ == old(self)@,
                None => r is Ok && final(self)@ == old(self)@.ownership_renounced(),
            },
    {
        self.owner_check(auth)?;
        let ghost pre = self@;
        match &self.pending_owner {
            Some(p) => {
                if ledger.sequence <= p.live_until_ledger {
                    return Err(AccError::TransferInProgress);
                }
            },
            None => {},
        }
        self.pending_owner = None;
        self.owner = None;
        assert(self@ =~= pre.ownership_renounced());
        Ok(())
    }

    /// The token contract's own address.
    pub fn address(&self) -> (r: Addr)
        ensures
            r@ == self@.address,
    {
        self.address.duplicate()
    }
}

} // verus!
