//! Laws that relate several operations of the token and the marketplace,
//! stated over the models that the operations' contracts use.
use vstd::prelude::*;
use crate::address::{Executable, LedgerInfo};
use crate::keymap::pair_key;
use crate::marketplace::{
    first_market_error, forwarded_mint_error, forwarded_sale_error, token_error, MarketModel, MktError,
    PrivatePromptView, PromptMarketplace, PromptView,
};
use crate::private_access::{access_rule, AccessError};
use crate::token::{first_error, AccError, AllowanceData, MyToken, PendingOwnerView, TokenModel};

verus! {

/// Law: a sale (or burn) that succeeds takes exactly `amount` from the
/// seller and from the supply, and changes no other balance, allowance,
/// binding or gate.
pub proof fn law_sale_burns_exactly(tok: &MyToken, seller: Seq<u8>, amount: i128, other: Seq<u8>)
    requires
        tok.wf(),
        tok@.update_error(Some(seller), None, amount) is None,
    ensures
        tok@.updated(Some(seller), None, amount).balance(seller) == tok@.balance(seller) - amount,
        tok@.updated(Some(seller), None, amount).total_supply == tok@.total_supply - amount,
        other != seller ==> tok@.updated(Some(seller), None, amount).balance(other) == tok@.balance(other),
        tok@.updated(Some(seller), None, amount).allowances == tok@.allowances,
        tok@.updated(Some(seller), None, amount).marketplace == tok@.marketplace,
        tok@.updated(Some(seller), None, amount).owner == tok@.owner,
        tok@.updated(Some(seller), None, amount).paused == tok@.paused,
{
    tok.law_supply_is_sum_of_balances(seller);
}

/// Law: a mint that succeeds gives exactly `amount` to `to` and adds it to
/// the supply, and changes no other balance.
pub proof fn law_mint_creates_exactly(tok: &MyToken, to: Seq<u8>, amount: i128, other: Seq<u8>)
    requires
        tok.wf(),
        tok@.update_error(None, Some(to), amount) is None,
    ensures
        tok@.updated(None, Some(to), amount).balance(to) == tok@.balance(to) + amount,
        tok@.updated(None, Some(to), amount).total_supply == tok@.total_supply + amount,
        other != to ==> tok@.updated(None, Some(to), amount).balance(other) == tok@.balance(other),
        tok@.updated(None, Some(to), amount).marketplace == tok@.marketplace,
{
    tok.law_supply_is_sum_of_balances(to);
}

/// Law: a transfer that succeeds keeps the supply, moves exactly `amount`
/// from `from` to `to` (nothing, when they are the same account), and
/// changes no other balance.
pub proof fn law_transfer_conserves_supply(tok: &MyToken, from: Seq<u8>, to: Seq<u8>, amount: i128, other: Seq<u8>)
    requires
        tok.wf(),
        tok@.update_error(Some(from), Some(to), amount) is None,
    ensures
        tok@.updated(Some(from), Some(to), amount).total_supply == tok@.total_supply,
        from != to ==> tok@.updated(Some(from), Some(to), amount).balance(from) == tok@.balance(from) - amount,
        from != to ==> tok@.updated(Some(from), Some(to), amount).balance(to) == tok@.balance(to) + amount,
        from == to ==> tok@.updated(Some(from), Some(to), amount).balance(from) == tok@.balance(from),
        other != from && other != to ==> tok@.updated(Some(from), Some(to), amount).balance(other)
            == tok@.balance(other),
{
    tok.law_supply_is_sum_of_balances(from);
    tok.law_credit_fits(Some(from), to, amount);
}

/// Law: selling `amount` and then minting it back to the same account
/// restores that account's balance and the supply.
pub proof fn law_mint_undoes_sale(tok: &MyToken, a: Seq<u8>, amount: i128)
    requires
        tok.wf(),
        tok@.update_error(Some(a), None, amount) is None,
    ensures
        tok@.updated(Some(a), None, amount).update_error(None, Some(a), amount) is None,
        tok@.updated(Some(a), None, amount).updated(None, Some(a), amount).balance(a) == tok@.balance(a),
        tok@.updated(Some(a), None, amount).updated(None, Some(a), amount).total_supply == tok@.total_supply,
{
    tok.law_supply_is_sum_of_balances(a);
}

/// Law: the marketplace binding is set at most once.  Once bound, binding
/// again fails whoever asks, and no balance or allowance operation changes
/// it.
pub proof fn law_binding_is_permanent(
    t: TokenModel,
    auth: Set<Seq<u8>>,
    candidate: Seq<u8>,
    executable: Option<Executable>,
    from: Option<Seq<u8>>,
    to: Option<Seq<u8>>,
    amount: i128,
    owner: Seq<u8>,
    spender: Seq<u8>,
    ledger: LedgerInfo,
)
    requires
        t.marketplace is Some,
    ensures
        first_error(t.owner_error(auth), t.bind_error(candidate, executable)) is Some,
        t.owner_error(auth) is None ==> t.bind_error(candidate, executable) == Some(
            AccError::MarketplaceAlreadySet,
        ),
        t.updated(from, to, amount).marketplace == t.marketplace,
        t.spent(owner, spender, amount, ledger).marketplace == t.marketplace,
{
}

/// Law: ownership changes hands in two steps.  Offering it leaves the owner
/// as it was; until the offer's last ledger the offered address, and only
/// it, can accept, which makes it the owner and clears the offer; after that
/// ledger accepting fails with `TransferExpired`.
pub proof fn law_ownership_changes_in_two_steps(
    t: TokenModel,
    auth: Set<Seq<u8>>,
    new_owner: Seq<u8>,
    live_until_ledger: u32,
    ledger: LedgerInfo,
    accepting: Set<Seq<u8>>,
    later: LedgerInfo,
)
    requires
        t.transfer_ownership_error(auth, new_owner, live_until_ledger, ledger) is None,
        live_until_ledger > 0,
    ensures
        t.ownership_offered(new_owner, live_until_ledger).owner == t.owner,
        later.sequence <= live_until_ledger ==> (t.ownership_offered(
            new_owner,
            live_until_ledger,
        ).accept_ownership_error(accepting, later) is None <==> accepting.contains(new_owner)),
        t.ownership_offered(new_owner, live_until_ledger).ownership_accepted().owner == Some(new_owner),
        t.ownership_offered(new_owner, live_until_ledger).ownership_accepted().pending_owner is None,
        later.sequence > live_until_ledger ==> t.ownership_offered(
            new_owner,
            live_until_ledger,
        ).accept_ownership_error(accepting, later) == Some(AccError::TransferExpired),
{
}

/// Law: once ownership is renounced nobody can mint again, neither the
/// owner's mint nor the marketplace's forwarded mint, and every owner-only
/// operation fails with `OwnerNotSet` (behind the pause gate, where it
/// applies); sales and transfers are unaffected.
pub proof fn law_renounced_token_mints_nothing(
    t: TokenModel,
    auth: Set<Seq<u8>>,
    to: Seq<u8>,
    amount: i128,
    candidate: Seq<u8>,
    executable: Option<Executable>,
    new_owner: Seq<u8>,
    live_until_ledger: u32,
    ledger: LedgerInfo,
)
    requires
        t.owner is None,
    ensures
        t.owner_error(auth) == Some(AccError::OwnerNotSet),
        !t.paused ==> t.gate_error(auth) == Some(AccError::OwnerNotSet),
        t.manager_mint_error(to, amount) is Some,
        forwarded_mint_error(t, auth, to, amount) is Some,
        first_error(t.owner_error(auth), t.bind_error(candidate, executable)) == Some(
            AccError::OwnerNotSet,
        ),
        t.transfer_ownership_error(auth, new_owner, live_until_ledger, ledger) == Some(
            AccError::OwnerNotSet,
        ),
        t.renounce_ownership_error(auth, ledger) == Some(AccError::OwnerNotSet),
        t.manager_sell_forwarded_error(auth, to, amount) == t.with_owner(Some(new_owner)).manager_sell_forwarded_error(
            auth,
            to,
            amount,
        ),
        t.manager_transfer_error(auth, to, candidate, amount) == t.with_owner(
            Some(new_owner),
        ).manager_transfer_error(auth, to, candidate, amount),
{
}

/// Law: only the bound marketplace mints or burns through the forwarded
/// entry points: a forwarded sale or mint that the token accepts had a
/// marketplace bound, and that marketplace authorized it.
pub proof fn law_only_bound_marketplace_forwards(t: TokenModel, auth: Set<Seq<u8>>, a: Seq<u8>, amount: i128)
    ensures
        forwarded_sale_error(t, auth, a, amount) is None ==> (t.marketplace matches Some(m) && auth.contains(m)),
        forwarded_mint_error(t, auth, a, amount) is None ==> (t.marketplace matches Some(m) && auth.contains(m)),
        !t.paused && t.marketplace is None ==> forwarded_sale_error(t, auth, a, amount) == Some(
            AccError::NotInitialized,
        ) && forwarded_mint_error(t, auth, a, amount) == Some(AccError::NotInitialized),
        !t.paused && (t.marketplace matches Some(m) && !auth.contains(m)) ==> forwarded_sale_error(
            t,
            auth,
            a,
            amount,
        ) == Some(AccError::Unauthorized) && forwarded_mint_error(t, auth, a, amount) == Some(
            AccError::Unauthorized,
        ),
{
}

/// Law: while the token is paused, every gated entry point (mint, sales,
/// forwarded mints and sales, transfers, burns) fails with
/// `ContractPaused`, whatever its own checks would say.
pub proof fn law_paused_refuses(t: TokenModel, rest: Option<AccError>)
    requires
        t.paused,
    ensures
        first_error(t.pause_error(), rest) == Some(AccError::ContractPaused),
        first_error(t.gate_error(Set::empty()), rest) == Some(AccError::ContractPaused),
{
}

/// Law: a buyer buys each prompt at most once.  After a purchase that the
/// marketplace accepted, the buyer has access, and buying the same prompt
/// again fails with `AlreadyPurchased`.
pub proof fn law_prompt_bought_once(m: MarketModel, auth: Set<Seq<u8>>, buyer: Seq<u8>, id: Seq<u8>)
    requires
        m.buy_error(auth, buyer, id) is None,
    ensures
        m.with_purchase(buyer, id).purchases.contains(pair_key(buyer, id)),
        m.with_purchase(buyer, id).buy_error(auth, buyer, id) == Some(MktError::AlreadyPurchased),
{
}

/// Law: the same holds of private prompts: one purchase per buyer and hash.
pub proof fn law_private_prompt_bought_once(m: MarketModel, auth: Set<Seq<u8>>, buyer: Seq<u8>, hash: Seq<u8>)
    requires
        m.buy_private_error(auth, buyer, hash) is None,
    ensures
        m.with_private_purchase(buyer, hash).private_purchases.contains(pair_key(buyer, hash)),
        m.with_private_purchase(buyer, hash).buy_private_error(auth, buyer, hash) == Some(
            MktError::AlreadyPurchased,
        ),
{
}

/// Law: a purchase by one buyer gives no other buyer access.
pub proof fn law_access_is_per_buyer(m: MarketModel, buyer: Seq<u8>, other: Seq<u8>, hash: Seq<u8>)
    requires
        buyer != other,
    ensures
        m.with_purchase(buyer, hash).purchases.contains(pair_key(other, hash)) == m.purchases.contains(
            pair_key(other, hash),
        ),
        m.with_private_purchase(buyer, hash).private_purchases.contains(pair_key(other, hash))
            == m.private_purchases.contains(pair_key(other, hash)),
{
}

/// Law: what a registration writes is what the queries read back, and it
/// leaves every other prompt as it was.
pub proof fn law_registration_reads_back(m: MarketModel, id: Seq<u8>, p: PromptView, other: Seq<u8>)
    ensures
        m.with_prompt(id, p).prompts.dom().contains(id),
        m.with_prompt(id, p).prompts[id] == p,
        other != id ==> m.with_prompt(id, p).prompts.dom().contains(other) == m.prompts.dom().contains(
            other,
        ),
        other != id && m.prompts.dom().contains(other) ==> m.with_prompt(id, p).prompts[other]
            == m.prompts[other],
        m.with_prompt(id, p).purchases == m.purchases,
        m.with_prompt(id, p).private_prompts == m.private_prompts,
{
}

/// Law: a removed prompt is no longer found, cannot be bought, and can be
/// registered again; removing it a second time changes nothing.
pub proof fn law_removed_prompt(m: MarketModel, auth: Set<Seq<u8>>, buyer: Seq<u8>, id: Seq<u8>, price: i128)
    ensures
        !m.without_prompt(id).prompts.dom().contains(id),
        m.without_prompt(id).without_prompt(id) == m.without_prompt(id),
        auth.contains(buyer) ==> m.without_prompt(id).buy_error(auth, buyer, id) == Some(
            MktError::PromptNotFound,
        ),
        auth.contains(m.admin) && price > 0 ==> m.without_prompt(id).register_error(auth, id, price) is None,
{
    assert(m.without_prompt(id).prompts.remove(id) =~= m.without_prompt(id).prompts);
}

/// Law: a registered prompt cannot be registered again until it is
/// removed.
pub proof fn law_registration_is_unique(m: MarketModel, auth: Set<Seq<u8>>, id: Seq<u8>, p: PromptView, price: i128)
    requires
        auth.contains(m.admin),
        price > 0,
    ensures
        m.with_prompt(id, p).register_error(auth, id, price) == Some(MktError::AlreadyRegistered),
{
}

/// Law: after a revocation the buyer no longer has access to the private
/// prompt, and may buy it again while it is registered.
pub proof fn law_revocation_removes_access(m: MarketModel, auth: Set<Seq<u8>>, buyer: Seq<u8>, hash: Seq<u8>)
    ensures
        !m.without_private_purchase(buyer, hash).private_purchases.contains(pair_key(buyer, hash)),
        auth.contains(buyer) && m.private_prompts.dom().contains(hash) ==> m.without_private_purchase(
            buyer,
            hash,
        ).buy_private_error(auth, buyer, hash) is None,
{
}

/// Law: a private access grant persists until the administrator revokes
/// it: registering, repricing or removing prompts, buying (named or
/// private) prompts and granting other accesses all keep every existing
/// grant.
pub proof fn law_private_grants_persist(
    m: MarketModel,
    id: Seq<u8>,
    p: PromptView,
    hash: Seq<u8>,
    pp: PrivatePromptView,
    buyer: Seq<u8>,
    other: Seq<u8>,
    other_hash: Seq<u8>,
)
    requires
        m.private_purchases.contains(pair_key(buyer, hash)),
    ensures
        m.with_prompt(id, p).private_purchases.contains(pair_key(buyer, hash)),
        m.without_prompt(id).private_purchases.contains(pair_key(buyer, hash)),
        m.with_private_prompt(other_hash, pp).private_purchases.contains(pair_key(buyer, hash)),
        m.with_purchase(other, id).private_purchases.contains(pair_key(buyer, hash)),
        m.with_private_purchase(other, other_hash).private_purchases.contains(pair_key(buyer, hash)),
        (other, other_hash) != (buyer, hash) ==> m.without_private_purchase(
            other,
            other_hash,
        ).private_purchases.contains(pair_key(buyer, hash)),
{
}

/// Law: a named purchase, once made, persists through every later
/// operation of the marketplace (registering, repricing or removing any
/// prompt, registering private prompts, other purchases, grants and
/// revocations; a re-mint leaves the marketplace as it is).  In any state
/// that holds it, the buyer's next purchase of that prompt fails with
/// `PromptNotFound` or `AlreadyPurchased` and never reaches the token.
pub proof fn law_purchases_persist(
    m: MarketModel,
    buyer: Seq<u8>,
    id: Seq<u8>,
    other: Seq<u8>,
    other_id: Seq<u8>,
    p: PromptView,
    hash: Seq<u8>,
    pp: PrivatePromptView,
    auth: Set<Seq<u8>>,
)
    requires
        m.purchases.contains(pair_key(buyer, id)),
    ensures
        m.with_prompt(other_id, p).purchases.contains(pair_key(buyer, id)),
        m.without_prompt(other_id).purchases.contains(pair_key(buyer, id)),
        m.with_private_prompt(hash, pp).purchases.contains(pair_key(buyer, id)),
        m.with_purchase(other, other_id).purchases.contains(pair_key(buyer, id)),
        m.with_private_purchase(other, hash).purchases.contains(pair_key(buyer, id)),
        m.without_private_purchase(other, hash).purchases.contains(pair_key(buyer, id)),
        auth.contains(buyer) ==> (m.buy_error(auth, buyer, id) == Some(MktError::PromptNotFound)
            || m.buy_error(auth, buyer, id) == Some(MktError::AlreadyPurchased)),
        auth.contains(buyer) && m.prompts.dom().contains(id) ==> m.buy_error(auth, buyer, id) == Some(
            MktError::AlreadyPurchased,
        ),
        m.buy_error(auth, buyer, id) is Some,
{
}

/// Law: pausing the token holds purchases back without losing them.  While
/// the token is paused, a purchase that the marketplace accepts is refused
/// by the token with `ContractPaused` (and so, by the purchase's contract,
/// changes neither contract); once the token is unpaused, the same purchase
/// goes through, where the token is bound to this marketplace and the
/// buyer's balance covers the price.  The same holds of private prompts.
pub proof fn law_pause_holds_purchases(
    mkt: &PromptMarketplace,
    t: TokenModel,
    auth: Set<Seq<u8>>,
    buyer: Seq<u8>,
    id: Seq<u8>,
    hash: Seq<u8>,
)
    requires
        mkt.wf(),
        t.paused,
        t.marketplace == Some(mkt@.address),
    ensures
        mkt@.buy_error(auth, buyer, id) is None ==> first_market_error(
            mkt@.buy_error(auth, buyer, id),
            token_error(forwarded_sale_error(t, mkt@.as_invoker(), buyer, mkt@.prompts[id].price)),
        ) == Some(MktError::Token(AccError::ContractPaused)),
        mkt@.buy_error(auth, buyer, id) is None && t.balance(buyer) >= mkt@.prompts[id].price
            ==> first_market_error(
            mkt@.buy_error(auth, buyer, id),
            token_error(
                forwarded_sale_error(t.with_paused(false), mkt@.as_invoker(), buyer, mkt@.prompts[id].price),
            ),
        ) is None,
        mkt@.buy_private_error(auth, buyer, hash) is None ==> first_market_error(
            mkt@.buy_private_error(auth, buyer, hash),
            token_error(
                forwarded_sale_error(t, mkt@.as_invoker(), buyer, mkt@.private_prompts[hash].price),
            ),
        ) == Some(MktError::Token(AccError::ContractPaused)),
        mkt@.buy_private_error(auth, buyer, hash) is None && t.balance(buyer)
            >= mkt@.private_prompts[hash].price ==> first_market_error(
            mkt@.buy_private_error(auth, buyer, hash),
            token_error(
                forwarded_sale_error(
                    t.with_paused(false),
                    mkt@.as_invoker(),
                    buyer,
                    mkt@.private_prompts[hash].price,
                ),
            ),
        ) is None,
{
    mkt.law_stored_prices_are_positive();
    if mkt@.prompts.dom().contains(id) {
        assert(mkt@.prompts[id].price > 0);
    }
    if mkt@.private_prompts.dom().contains(hash) {
        assert(mkt@.private_prompts[hash].price > 0);
    }
}

/// Law: only the administrator changes the catalogue, revokes access or
/// re-mints: without its authorization each of these fails with
/// `Unauthorized`.
pub proof fn law_admin_only(
    m: MarketModel,
    auth: Set<Seq<u8>>,
    id: Seq<u8>,
    price: i128,
    buyer: Seq<u8>,
    amount: i128,
)
    requires
        !auth.contains(m.admin),
    ensures
        m.register_error(auth, id, price) == Some(MktError::Unauthorized),
        m.update_price_error(auth, id, price) == Some(MktError::Unauthorized),
        m.admin_error(auth) == Some(MktError::Unauthorized),
        m.register_private_error(auth, id, price) == Some(MktError::Unauthorized),
        m.revoke_error(auth, buyer, id) == Some(MktError::Unauthorized),
        m.remint_error(auth, amount) == Some(MktError::Unauthorized),
{
}

/// Law: every balance operation needs the authorization of the account it
/// takes from.  Without the sender's authorization a transfer, and without
/// the holder's a burn or a sale, fails with `Unauthorized`; without the
/// spender's, a transfer or burn on an allowance fails with `Unauthorized`.
/// On an unpaused token that is what the entry point returns, and (by its
/// contract) no balance, allowance or supply changes.
pub proof fn law_balance_operations_need_their_signer(
    t: TokenModel,
    auth: Set<Seq<u8>>,
    holder: Seq<u8>,
    spender: Seq<u8>,
    to: Seq<u8>,
    amount: i128,
    ledger: LedgerInfo,
)
    ensures
        !auth.contains(holder) ==> t.manager_transfer_error(auth, holder, to, amount) == Some(
            AccError::Unauthorized,
        ),
        !auth.contains(holder) ==> t.manager_burn_error(auth, holder, amount) == Some(AccError::Unauthorized),
        !auth.contains(holder) && amount > 0 ==> t.manager_sell_error(auth, holder, amount) == Some(
            AccError::Unauthorized,
        ),
        !auth.contains(spender) ==> t.manager_transfer_from_error(auth, spender, holder, to, amount, ledger)
            == Some(AccError::Unauthorized),
        !auth.contains(spender) ==> t.burn_from_error(auth, spender, holder, amount, ledger) == Some(
            AccError::Unauthorized,
        ),
        !t.paused && !auth.contains(spender) ==> first_error(
            t.pause_error(),
            t.burn_from_error(auth, spender, holder, amount, ledger),
        ) == Some(AccError::Unauthorized),
        !t.paused && !auth.contains(spender) ==> first_error(
            t.pause_error(),
            t.manager_transfer_from_error(auth, spender, holder, to, amount, ledger),
        ) == Some(AccError::Unauthorized),
        !t.paused && !auth.contains(holder) ==> first_error(
            t.pause_error(),
            t.manager_transfer_error(auth, holder, to, amount),
        ) == Some(AccError::Unauthorized),
{
}

/// Law: a holder can always move or burn what it holds.  On an unpaused
/// token, a transfer or burn authorized by the holder of an amount between
/// zero and its balance succeeds (whoever the recipient is and whatever it
/// holds), and so does a sale of a positive such amount; the transfer takes
/// exactly the amount from the holder and gives it to the recipient, and the
/// burn or sale takes it from the holder and from the supply.
pub proof fn law_holders_spend_their_balance(
    tok: &MyToken,
    auth: Set<Seq<u8>>,
    from: Seq<u8>,
    to: Seq<u8>,
    amount: i128,
)
    requires
        tok.wf(),
        !tok@.paused,
        auth.contains(from),
        0 <= amount <= tok@.balance(from),
    ensures
        tok@.update_error(Some(from), Some(to), amount) is None,
        tok@.update_error(Some(from), None, amount) is None,
        first_error(tok@.pause_error(), tok@.manager_transfer_error(auth, from, to, amount)) is None,
        first_error(tok@.pause_error(), tok@.manager_burn_error(auth, from, amount)) is None,
        amount > 0 ==> first_error(tok@.pause_error(), tok@.manager_sell_error(auth, from, amount)) is None,
        from != to ==> tok@.updated(Some(from), Some(to), amount).balance(from) == tok@.balance(from) - amount,
        from != to ==> tok@.updated(Some(from), Some(to), amount).balance(to) == tok@.balance(to) + amount,
        tok@.updated(Some(from), Some(to), amount).total_supply == tok@.total_supply,
        tok@.updated(Some(from), None, amount).balance(from) == tok@.balance(from) - amount,
        tok@.updated(Some(from), None, amount).total_supply == tok@.total_supply - amount,
{
    tok.law_supply_is_sum_of_balances(from);
    tok.law_credit_fits(Some(from), to, amount);
}

/// Law: an allowance is spent down and keeps its last ledger.  Spending a
/// positive part of it leaves exactly the rest, under the same last ledger,
/// in every ledger up to that last ledger, so the rest stays spendable until
/// then and no longer.
pub proof fn law_spending_keeps_the_expiry(
    t: TokenModel,
    owner: Seq<u8>,
    spender: Seq<u8>,
    amount: i128,
    ledger: LedgerInfo,
    s: u32,
)
    requires
        amount > 0,
        t.spend_error(owner, spender, amount, ledger) is None,
    ensures
        s <= t.allowance_data(owner, spender, ledger.sequence).live_until_ledger ==> t.spent(
            owner,
            spender,
            amount,
            ledger,
        ).allowance_data(owner, spender, s) == (AllowanceData {
            amount: (t.allowance(owner, spender, ledger.sequence) - amount) as i128,
            live_until_ledger: t.allowance_data(owner, spender, ledger.sequence).live_until_ledger,
        }),
        s > t.allowance_data(owner, spender, ledger.sequence).live_until_ledger ==> t.spent(
            owner,
            spender,
            amount,
            ledger,
        ).allowance(owner, spender, s) == 0,
        t.spent(owner, spender, amount, ledger).balances == t.balances,
{
}

/// Law: what an owner approves, its spender can use.  After an approval of
/// `approved` until ledger `last` (accepted in ledger `ledger`), the spender
/// may, in that ledger, spend any amount up to `approved`; what is left is
/// `approved` less that amount, in every ledger up to `last`.  Where the
/// owner's balance covers it and the token is unpaused, the transfer or burn
/// on the allowance succeeds.
pub proof fn law_approved_allowance_is_spendable(
    t: TokenModel,
    auth: Set<Seq<u8>>,
    owner: Seq<u8>,
    spender: Seq<u8>,
    to: Seq<u8>,
    approved: i128,
    last: u32,
    ledger: LedgerInfo,
    amount: i128,
    s: u32,
)
    requires
        t.set_allowance_error(approved, last, ledger) is None,
        approved > 0,
        0 < amount <= approved,
    ensures
        t.with_allowance(owner, spender, AllowanceData { amount: approved, live_until_ledger: last }).allowance(
            owner,
            spender,
            ledger.sequence,
        ) == approved,
        t.with_allowance(owner, spender, AllowanceData { amount: approved, live_until_ledger: last }).spend_error(
            owner,
            spender,
            amount,
            ledger,
        ) is None,
        s <= last ==> t.with_allowance(
            owner,
            spender,
            AllowanceData { amount: approved, live_until_ledger: last },
        ).spent(owner, spender, amount, ledger).allowance(owner, spender, s) == approved - amount,
        auth.contains(spender) && !t.paused && t.balance(owner) >= amount ==> first_error(
            t.pause_error(),
            t.with_allowance(
                owner,
                spender,
                AllowanceData { amount: approved, live_until_ledger: last },
            ).manager_transfer_from_error(auth, spender, owner, to, amount, ledger),
        ) is None,
        auth.contains(spender) && !t.paused && t.balance(owner) >= amount ==> first_error(
            t.pause_error(),
            t.with_allowance(
                owner,
                spender,
                AllowanceData { amount: approved, live_until_ledger: last },
            ).burn_from_error(auth, spender, owner, amount, ledger),
        ) is None,
{
}

/// Law: a purchase needs the buyer's authorization.  Whatever the state and
/// whatever the token would say, a named or private purchase whose
/// authorization does not include the buyer fails with `Unauthorized` (and,
/// by the purchase's contract, changes neither the marketplace nor the
/// token).
pub proof fn law_purchase_needs_the_buyer(
    m: MarketModel,
    auth: Set<Seq<u8>>,
    buyer: Seq<u8>,
    id: Seq<u8>,
    hash: Seq<u8>,
    token_verdict: Option<MktError>,
)
    requires
        !auth.contains(buyer),
    ensures
        m.buy_error(auth, buyer, id) == Some(MktError::Unauthorized),
        m.buy_private_error(auth, buyer, hash) == Some(MktError::Unauthorized),
        first_market_error(m.buy_error(auth, buyer, id), token_verdict) == Some(MktError::Unauthorized),
        first_market_error(m.buy_private_error(auth, buyer, hash), token_verdict) == Some(
            MktError::Unauthorized,
        ),
{
}

/// Law: a purchase that should go through does.  The buyer authorizes, the
/// prompt is registered and not yet bought by this buyer, the token is
/// unpaused and bound to this marketplace, and the buyer's balance covers
/// the price: then the purchase succeeds, burning exactly the price from the
/// buyer and from the supply.  The same holds of private prompts.
pub proof fn law_purchase_succeeds(
    mkt: &PromptMarketplace,
    tok: &MyToken,
    auth: Set<Seq<u8>>,
    buyer: Seq<u8>,
    id: Seq<u8>,
    hash: Seq<u8>,
)
    requires
        mkt.wf(),
        tok.wf(),
        auth.contains(buyer),
        !tok@.paused,
        tok@.marketplace == Some(mkt@.address),
    ensures
        mkt@.prompts.dom().contains(id) && !mkt@.purchases.contains(pair_key(buyer, id)) && tok@.balance(
            buyer,
        ) >= mkt@.prompts[id].price ==> {
            &&& first_market_error(
                mkt@.buy_error(auth, buyer, id),
                token_error(forwarded_sale_error(tok@, mkt@.as_invoker(), buyer, mkt@.prompts[id].price)),
            ) is None
            &&& tok@.updated(Some(buyer), None, mkt@.prompts[id].price).balance(buyer) == tok@.balance(buyer)
                - mkt@.prompts[id].price
            &&& tok@.updated(Some(buyer), None, mkt@.prompts[id].price).total_supply == tok@.total_supply
                - mkt@.prompts[id].price
        },
        mkt@.private_prompts.dom().contains(hash) && !mkt@.private_purchases.contains(pair_key(buyer, hash))
            && tok@.balance(buyer) >= mkt@.private_prompts[hash].price ==> first_market_error(
            mkt@.buy_private_error(auth, buyer, hash),
            token_error(
                forwarded_sale_error(tok@, mkt@.as_invoker(), buyer, mkt@.private_prompts[hash].price),
            ),
        ) is None,
{
    mkt.law_stored_prices_are_positive();
    tok.law_supply_is_sum_of_balances(buyer);
    if mkt@.prompts.dom().contains(id) {
        assert(mkt@.prompts[id].price > 0);
    }
    if mkt@.private_prompts.dom().contains(hash) {
        assert(mkt@.private_prompts[hash].price > 0);
    }
}

/// Law: the administrator's operations go through when their own
/// conditions hold: registering an unregistered id at a positive price,
/// repricing a registered prompt to a positive price, removing, revoking a
/// grant that exists, and re-minting a positive amount (which the token
/// accepts while unpaused, bound to this marketplace, owned, and with room
/// in the supply).
pub proof fn law_admin_operations_succeed(
    m: MarketModel,
    t: TokenModel,
    auth: Set<Seq<u8>>,
    id: Seq<u8>,
    price: i128,
    buyer: Seq<u8>,
    hash: Seq<u8>,
    to: Seq<u8>,
    amount: i128,
)
    requires
        auth.contains(m.admin),
    ensures
        price > 0 && !m.prompts.dom().contains(id) ==> m.register_error(auth, id, price) is None,
        price > 0 && !m.private_prompts.dom().contains(hash) ==> m.register_private_error(auth, hash, price)
            is None,
        price > 0 && m.prompts.dom().contains(id) ==> m.update_price_error(auth, id, price) is None,
        m.admin_error(auth) is None,
        m.private_purchases.contains(pair_key(buyer, hash)) ==> m.revoke_error(auth, buyer, hash) is None,
        amount > 0 && !t.paused && t.marketplace == Some(m.address) && t.owner is Some && t.total_supply
            + amount <= i128::MAX ==> first_market_error(
            m.remint_error(auth, amount),
            token_error(forwarded_mint_error(t, m.as_invoker(), to, amount)),
        ) is None,
{
}

/// Law: the owner's operations on the token go through when their own
/// conditions hold: minting a positive amount that fits in the supply while
/// unpaused, binding a first marketplace that is a deployed Wasm contract
/// other than the token, and pausing an unpaused token.
pub proof fn law_owner_operations_succeed(
    t: TokenModel,
    auth: Set<Seq<u8>>,
    to: Seq<u8>,
    amount: i128,
    candidate: Seq<u8>,
)
    requires
        t.owner matches Some(o) && auth.contains(o),
    ensures
        !t.paused && amount > 0 && t.total_supply + amount <= i128::MAX ==> first_error(
            t.gate_error(auth),
            t.manager_mint_error(to, amount),
        ) is None,
        t.marketplace is None && candidate != t.address ==> first_error(
            t.owner_error(auth),
            t.bind_error(candidate, Some(Executable::Wasm)),
        ) is None,
        !t.paused ==> first_error(t.owner_error(auth), t.pause_error()) is None,
{
}

/// Law: each refusal of the token comes for its reason, over all inputs.
/// Minting or selling a non-positive amount fails with `InvalidAmount`
/// (also on the forwarded paths, once the bound marketplace authorized);
/// minting beyond the largest supply fails with `Overflow`; a holder moving
/// more than it holds fails with `InsufficientBalance`, and a negative amount
/// with `NegativeAmount`; a spender going beyond its allowance fails with
/// `AllowanceExceeded`; the owner gate refuses everyone but the owner; a
/// marketplace binding refuses the token itself and whatever is not a
/// deployed Wasm contract.
pub proof fn law_token_refusals(
    t: TokenModel,
    auth: Set<Seq<u8>>,
    holder: Seq<u8>,
    spender: Seq<u8>,
    to: Seq<u8>,
    amount: i128,
    ledger: LedgerInfo,
    executable: Option<Executable>,
)
    ensures
        amount <= 0 ==> t.manager_mint_error(to, amount) == Some(AccError::InvalidAmount),
        amount <= 0 ==> t.manager_sell_error(auth, holder, amount) == Some(AccError::InvalidAmount),
        amount <= 0 && t.forwarding_error(auth) is None ==> t.manager_sell_forwarded_error(auth, holder, amount)
            == Some(AccError::InvalidAmount),
        amount <= 0 && t.forwarding_error(auth) is None ==> t.manager_mint_forwarded_error(auth, to, amount)
            == Some(AccError::InvalidAmount),
        amount > 0 && t.total_supply + amount > i128::MAX ==> t.manager_mint_error(to, amount) == Some(
            AccError::Overflow,
        ),
        auth.contains(holder) && amount > t.balance(holder) && amount >= 0 ==> t.manager_transfer_error(
            auth,
            holder,
            to,
            amount,
        ) == Some(AccError::InsufficientBalance),
        auth.contains(holder) && amount > t.balance(holder) && amount >= 0 ==> t.manager_burn_error(
            auth,
            holder,
            amount,
        ) == Some(AccError::InsufficientBalance),
        auth.contains(holder) && amount > t.balance(holder) && amount > 0 ==> t.manager_sell_error(
            auth,
            holder,
            amount,
        ) == Some(AccError::InsufficientBalance),
        auth.contains(holder) && amount < 0 ==> t.manager_transfer_error(auth, holder, to, amount) == Some(
            AccError::NegativeAmount,
        ),
        auth.contains(spender) && amount >= 0 && t.allowance(holder, spender, ledger.sequence) < amount
            ==> t.manager_transfer_from_error(auth, spender, holder, to, amount, ledger) == Some(
            AccError::AllowanceExceeded,
        ),
        auth.contains(spender) && amount >= 0 && t.allowance(holder, spender, ledger.sequence) < amount
            ==> t.burn_from_error(auth, spender, holder, amount, ledger) == Some(AccError::AllowanceExceeded),
        t.owner matches Some(o) && !auth.contains(o) ==> t.owner_error(auth) == Some(AccError::Unauthorized),
        !t.paused && (t.owner matches Some(o) && !auth.contains(o)) ==> t.gate_error(auth) == Some(
            AccError::Unauthorized,
        ),
        t.marketplace is None ==> t.bind_error(t.address, executable) == Some(AccError::InvalidAddress),
        t.marketplace is None && to != t.address && executable != Some(Executable::Wasm) ==> t.bind_error(
            to,
            executable,
        ) == Some(AccError::MarketplaceNotContract),
{
}

/// Law: an approval reads back as approved until its last ledger, and as
/// nothing after it; approving replaces only that owner's allowance to that
/// spender.  An approval is refused for a negative amount, for a last ledger
/// beyond what an entry can live until, and, for a positive amount, for a
/// last ledger already past; clearing (amount zero) is accepted whenever the
/// last ledger is within reach.
pub proof fn law_approval_reads_back(
    t: TokenModel,
    owner: Seq<u8>,
    spender: Seq<u8>,
    other_owner: Seq<u8>,
    other_spender: Seq<u8>,
    approved: i128,
    last: u32,
    s: u32,
    ledger: LedgerInfo,
)
    ensures
        s <= last ==> t.with_allowance(owner, spender, AllowanceData { amount: approved, live_until_ledger: last })
            .allowance(owner, spender, s) == approved,
        s > last ==> t.with_allowance(owner, spender, AllowanceData { amount: approved, live_until_ledger: last })
            .allowance(owner, spender, s) == 0,
        (other_owner, other_spender) != (owner, spender) ==> t.with_allowance(
            owner,
            spender,
            AllowanceData { amount: approved, live_until_ledger: last },
        ).allowance(other_owner, other_spender, s) == t.allowance(other_owner, other_spender, s),
        approved < 0 ==> t.set_allowance_error(approved, last, ledger) == Some(AccError::NegativeAmount),
        approved >= 0 && last > ledger.max_live_until_ledger ==> t.set_allowance_error(approved, last, ledger)
            == Some(AccError::InvalidLiveUntilLedger),
        approved > 0 && last < ledger.sequence ==> t.set_allowance_error(approved, last, ledger) == Some(
            AccError::InvalidLiveUntilLedger,
        ),
        approved == 0 && last <= ledger.max_live_until_ledger ==> t.set_allowance_error(approved, last, ledger)
            is None,
        approved > 0 && ledger.sequence <= last <= ledger.max_live_until_ledger ==> t.set_allowance_error(
            approved,
            last,
            ledger,
        ) is None,
{
}

/// Law: ownership offers and renunciations are refused for their reasons:
/// an offer with a last ledger already past or beyond reach fails with
/// `InvalidLiveUntilLedger`; renouncing while an offer is still open fails
/// with `TransferInProgress`, and once the offer's last ledger has passed it
/// goes through.
pub proof fn law_ownership_refusals(
    t: TokenModel,
    auth: Set<Seq<u8>>,
    new_owner: Seq<u8>,
    last: u32,
    ledger: LedgerInfo,
    pending: PendingOwnerView,
)
    requires
        t.owner matches Some(o) && auth.contains(o),
    ensures
        last > 0 && (last < ledger.sequence || last > ledger.max_live_until_ledger)
            ==> t.transfer_ownership_error(auth, new_owner, last, ledger) == Some(
            AccError::InvalidLiveUntilLedger,
        ),
        last > 0 && ledger.sequence <= last <= ledger.max_live_until_ledger ==> t.transfer_ownership_error(
            auth,
            new_owner,
            last,
            ledger,
        ) is None,
        ledger.sequence <= pending.live_until_ledger ==> t.with_pending_owner(Some(pending)).renounce_ownership_error(
            auth,
            ledger,
        ) == Some(AccError::TransferInProgress),
        ledger.sequence > pending.live_until_ledger ==> t.with_pending_owner(Some(pending)).renounce_ownership_error(
            auth,
            ledger,
        ) is None,
        t.pending_owner is None ==> t.renounce_ownership_error(auth, ledger) is None,
{
}

/// Law: each refusal of the marketplace comes for its reason, over all
/// inputs.  With the administrator's authorization: a non-positive price
/// fails with `PriceMustBePositive`; registering an id (or hash) already
/// registered fails with `AlreadyRegistered`; repricing an unregistered
/// prompt fails with `PromptNotFound`; revoking a grant that does not exist
/// fails with `AccessNotFound`; re-minting a non-positive amount fails with
/// `AmountMustBePositive`.  With the buyer's authorization: buying an
/// unregistered prompt fails with `PromptNotFound`, buying one already
/// bought with `AlreadyPurchased`, and buying a registered one not yet
/// bought passes the marketplace's checks.
pub proof fn law_market_refusals(
    m: MarketModel,
    auth: Set<Seq<u8>>,
    id: Seq<u8>,
    hash: Seq<u8>,
    buyer: Seq<u8>,
    price: i128,
    amount: i128,
)
    ensures
        auth.contains(m.admin) && price <= 0 ==> m.register_error(auth, id, price) == Some(
            MktError::PriceMustBePositive,
        ),
        auth.contains(m.admin) && price <= 0 ==> m.register_private_error(auth, hash, price) == Some(
            MktError::PriceMustBePositive,
        ),
        auth.contains(m.admin) && price <= 0 ==> m.update_price_error(auth, id, price) == Some(
            MktError::PriceMustBePositive,
        ),
        auth.contains(m.admin) && price > 0 && m.prompts.dom().contains(id) ==> m.register_error(auth, id, price)
            == Some(MktError::AlreadyRegistered),
        auth.contains(m.admin) && price > 0 && m.private_prompts.dom().contains(hash) ==> m.register_private_error(
            auth,
            hash,
            price,
        ) == Some(MktError::AlreadyRegistered),
        auth.contains(m.admin) && price > 0 && !m.prompts.dom().contains(id) ==> m.update_price_error(
            auth,
            id,
            price,
        ) == Some(MktError::PromptNotFound),
        auth.contains(m.admin) && !m.private_purchases.contains(pair_key(buyer, hash)) ==> m.revoke_error(
            auth,
            buyer,
            hash,
        ) == Some(MktError::AccessNotFound),
        auth.contains(m.admin) && amount <= 0 ==> m.remint_error(auth, amount) == Some(
            MktError::AmountMustBePositive,
        ),
        auth.contains(buyer) && !m.prompts.dom().contains(id) ==> m.buy_error(auth, buyer, id) == Some(
            MktError::PromptNotFound,
        ),
        auth.contains(buyer) && !m.private_prompts.dom().contains(hash) ==> m.buy_private_error(auth, buyer, hash)
            == Some(MktError::PromptNotFound),
        auth.contains(buyer) && m.prompts.dom().contains(id) && m.purchases.contains(pair_key(buyer, id))
            ==> m.buy_error(auth, buyer, id) == Some(MktError::AlreadyPurchased),
        auth.contains(buyer) && m.prompts.dom().contains(id) && !m.purchases.contains(pair_key(buyer, id))
            ==> m.buy_error(auth, buyer, id) is None,
        auth.contains(buyer) && m.private_prompts.dom().contains(hash) && !m.private_purchases.contains(
            pair_key(buyer, hash),
        ) ==> m.buy_private_error(auth, buyer, hash) is None,
{
}

/// Law: the private-access prototype grants each (buyer, hash) once, and
/// only to a buyer who authorized: without the buyer's authorization a
/// purchase fails with `Unauthorized`; a second one fails with
/// `AlreadyPurchased`; a first one goes through, and the grant is then held.
pub proof fn law_access_granted_once(
    grants: Set<(Seq<u8>, Seq<u8>)>,
    auth: Set<Seq<u8>>,
    buyer: Seq<u8>,
    hash: Seq<u8>,
)
    ensures
        !auth.contains(buyer) ==> access_rule(auth, buyer, grants.contains(pair_key(buyer, hash))) == Some(
            AccessError::Unauthorized,
        ),
        auth.contains(buyer) && grants.contains(pair_key(buyer, hash)) ==> access_rule(
            auth,
            buyer,
            grants.contains(pair_key(buyer, hash)),
        ) == Some(AccessError::AlreadyPurchased),
        auth.contains(buyer) && !grants.contains(pair_key(buyer, hash)) ==> access_rule(
            auth,
            buyer,
            grants.contains(pair_key(buyer, hash)),
        ) is None,
        access_rule(
            auth,
            buyer,
            grants.insert(pair_key(buyer, hash)).contains(pair_key(buyer, hash)),
        ) is Some,
{
}

} // verus!
