//! The prompt marketplace: an administrator registers prompts (by name, or
//! privately by an opaque hash) with a price; a buyer buys a prompt once,
//! burning its price through the token's forwarded sale; the administrator
//! may re-mint tokens and revoke private access.
use vstd::prelude::*;
use crate::address::{Addr, Auth};
use crate::keymap::{
    by_single_view, copy_bytes, lemma_by_single_view_empty, lemma_by_single_view_insert,
    lemma_by_single_view_remove, pair_key, single_key, Key, KeyMap,
};
use crate::token::{first_error, AccError, MintEvent, MyToken, SellEvent, TokenModel};

verus! {

/// Why a marketplace operation was refused.
#[derive(Clone, Copy, PartialEq, Eq, Structural, Debug)]
pub enum MktError {
    PromptNotFound,
    AlreadyPurchased,
    PriceMustBePositive,
    Unauthorized,
    AlreadyRegistered,
    /// Revoking a private access that was never granted.
    AccessNotFound,
    /// Re-minting an amount that is not positive.
    AmountMustBePositive,
    /// The token refused the forwarded sale or mint.
    Token(AccError),
}

/// A registered prompt: its price in tokens, its creator, and where its
/// content lives.
pub struct Prompt {
    pub price: i128,
    pub owner: Addr,
    pub content_uri: Vec<u8>,
}

pub struct PromptView {
    pub price: i128,
    pub owner: Seq<u8>,
    pub content_uri: Seq<u8>,
}

impl View for Prompt {
    type V = PromptView;

    open spec fn view(&self) -> PromptView {
        PromptView { price: self.price, owner: self.owner@, content_uri: self.content_uri@ }
    }
}

/// A prompt registered only under an opaque hash commitment.
pub struct PrivatePrompt {
    pub price: i128,
    pub owner: Addr,
}

pub struct PrivatePromptView {
    pub price: i128,
    pub owner: Seq<u8>,
}

impl View for PrivatePrompt {
    type V = PrivatePromptView;

    open spec fn view(&self) -> PrivatePromptView {
        PrivatePromptView { price: self.price, owner: self.owner@ }
    }
}

/// An administrator registered a prompt.
pub struct PromptRegistered {
    pub admin: Addr,
    pub prompt_id: Vec<u8>,
    pub price: i128,
    pub owner: Addr,
    pub content_uri: Vec<u8>,
}

/// An administrator changed a prompt's price.
pub struct PromptPriceUpdated {
    pub admin: Addr,
    pub prompt_id: Vec<u8>,
    pub new_price: i128,
}

/// An administrator removed a prompt.
pub struct PromptRemoved {
    pub admin: Addr,
    pub prompt_id: Vec<u8>,
}

/// A buyer bought a prompt; its price was burned.
pub struct PromptPurchased {
    pub buyer: Addr,
    pub prompt_id: Vec<u8>,
    pub price: i128,
}

/// An administrator put tokens back into circulation.
pub struct TokensReminted {
    pub admin: Addr,
    pub to: Addr,
    pub amount: i128,
}

/// An administrator registered a private prompt.
pub struct PrivatePromptRegistered {
    pub admin: Addr,
    pub prompt_hash: Vec<u8>,
    pub price: i128,
    pub owner: Addr,
}

/// A buyer bought a private prompt; its price was burned.
pub struct PrivatePromptPurchased {
    pub buyer: Addr,
    pub prompt_hash: Vec<u8>,
    pub price: i128,
}

/// An administrator invalidated a private access grant.
pub struct PrivateAccessRevoked {
    pub admin: Addr,
    pub buyer: Addr,
    pub prompt_hash: Vec<u8>,
}

/// Only the administrator may act.
pub open spec fn admin_rule(auth: Set<Seq<u8>>, admin: Seq<u8>) -> Option<MktError> {
    if auth.contains(admin) {
        None
    } else {
        Some(MktError::Unauthorized)
    }
}

/// Registration: by the administrator, at a positive price, of an entry
/// not yet registered.
pub open spec fn register_rule(auth: Set<Seq<u8>>, admin: Seq<u8>, price: i128, registered: bool) -> Option<
    MktError,
> {
    if admin_rule(auth, admin) is Some {
        admin_rule(auth, admin)
    } else if price <= 0 {
        Some(MktError::PriceMustBePositive)
    } else if registered {
        Some(MktError::AlreadyRegistered)
    } else {
        None
    }
}

/// A price change: by the administrator, to a positive price, of a
/// registered prompt.
pub open spec fn update_price_rule(auth: Set<Seq<u8>>, admin: Seq<u8>, price: i128, registered: bool) -> Option<
    MktError,
> {
    if admin_rule(auth, admin) is Some {
        admin_rule(auth, admin)
    } else if price <= 0 {
        Some(MktError::PriceMustBePositive)
    } else if !registered {
        Some(MktError::PromptNotFound)
    } else {
        None
    }
}

/// A purchase: authorized by the buyer, of a registered entry, not bought
/// by this buyer before.
pub open spec fn buy_rule(auth: Set<Seq<u8>>, buyer: Seq<u8>, registered: bool, purchased: bool) -> Option<
    MktError,
> {
    if !auth.contains(buyer) {
        Some(MktError::Unauthorized)
    } else if !registered {
        Some(MktError::PromptNotFound)
    } else if purchased {
        Some(MktError::AlreadyPurchased)
    } else {
        None
    }
}

/// A revocation: by the administrator, of a grant that exists.
pub open spec fn revoke_rule(auth: Set<Seq<u8>>, admin: Seq<u8>, granted: bool) -> Option<MktError> {
    if admin_rule(auth, admin) is Some {
        admin_rule(auth, admin)
    } else if !granted {
        Some(MktError::AccessNotFound)
    } else {
        None
    }
}

/// A re-mint: by the administrator, of a positive amount.
pub open spec fn remint_rule(auth: Set<Seq<u8>>, admin: Seq<u8>, amount: i128) -> Option<MktError> {
    if admin_rule(auth, admin) is Some {
        admin_rule(auth, admin)
    } else if amount <= 0 {
        Some(MktError::AmountMustBePositive)
    } else {
        None
    }
}

/// A rule's verdict as a result.
pub open spec fn verdict(e: Option<MktError>) -> Result<(), MktError> {
    match e {
        Some(x) => Err(x),
        None => Ok(()),
    }
}

/// The marketplace's rules on the values its storage holds.  Each takes
/// what the contract reads and says whether the operation may go ahead.
pub struct MarketRules;

impl MarketRules {
    pub fn check_admin(auth: &Auth, admin: &Addr) -> (r: Result<(), MktError>)
        ensures
            r == verdict(admin_rule(auth@, admin@)),
    {
        if auth.authorizes(admin) {
            Ok(())
        } else {
            Err(MktError::Unauthorized)
        }
    }

    pub fn check_register(auth: &Auth, admin: &Addr, price: i128, registered: bool) -> (r: Result<(), MktError>)
        ensures
            r == verdict(register_rule(auth@, admin@, price, registered)),
    {
        Self::check_admin(auth, admin)?;
        if price <= 0 {
            return Err(MktError::PriceMustBePositive);
        }
        if registered {
            return Err(MktError::AlreadyRegistered);
        }
        Ok(())
    }

    pub fn check_update_price(auth: &Auth, admin: &Addr, price: i128, registered: bool) -> (r: Result<(), MktError>)
        ensures
            r == verdict(update_price_rule(auth@, admin@, price, registered)),
    {
        Self::check_admin(auth, admin)?;
        if price <= 0 {
            return Err(MktError::PriceMustBePositive);
        }
        if !registered {
            return Err(MktError::PromptNotFound);
        }
        Ok(())
    }

    pub fn check_buy(auth: &Auth, buyer: &Addr, registered: bool, purchased: bool) -> (r: Result<(), MktError>)
        ensures
            r == verdict(buy_rule(auth@, buyer@, registered, purchased)),
    {
        if !auth.authorizes(buyer) {
            return Err(MktError::Unauthorized);
        }
        if !registered {
            return Err(MktError::PromptNotFound);
        }
        if purchased {
            return Err(MktError::AlreadyPurchased);
        }
        Ok(())
    }

    pub fn check_revoke(auth: &Auth, admin: &Addr, granted: bool) -> (r: Result<(), MktError>)
        ensures
            r == verdict(revoke_rule(auth@, admin@, granted)),
    {
        Self::check_admin(auth, admin)?;
        if !granted {
            return Err(MktError::AccessNotFound);
        }
        Ok(())
    }

    pub fn check_remint(auth: &Auth, admin: &Addr, amount: i128) -> (r: Result<(), MktError>)
        ensures
            r == verdict(remint_rule(auth@, admin@, amount)),
    {
        Self::check_admin(auth, admin)?;
        if amount <= 0 {
            return Err(MktError::AmountMustBePositive);
        }
        Ok(())
    }
}

/// The state of the marketplace contract.
pub struct MarketModel {
    /// The marketplace contract's own address.
    pub address: Seq<u8>,
    pub admin: Seq<u8>,
    /// The token that purchases burn and re-mints create.
    pub token: Seq<u8>,
    /// Prompts by id.
    pub prompts: Map<Seq<u8>, PromptView>,
    /// Purchases, as (buyer, prompt id).
    pub purchases: Set<(Seq<u8>, Seq<u8>)>,
    /// Private prompts by hash.
    pub private_prompts: Map<Seq<u8>, PrivatePromptView>,
    /// Private access grants, as (buyer, prompt hash).
    pub private_purchases: Set<(Seq<u8>, Seq<u8>)>,
}

impl MarketModel {
    /// Every stored price, of a named or a private prompt, is positive.
    pub open spec fn prices_positive(self) -> bool {
        &&& forall|id: Seq<u8>| #[trigger] self.prompts.dom().contains(id) ==> self.prompts[id].price > 0
        &&& forall|h: Seq<u8>| #[trigger] self.private_prompts.dom().contains(h) ==> self.private_prompts[h].price
            > 0
    }

    /// The state with prompt `id` registered as `p`.
    pub open spec fn with_prompt(self, id: Seq<u8>, p: PromptView) -> MarketModel {
        MarketModel { prompts: self.prompts.insert(id, p), ..self }
    }

    /// The state without prompt `id`.
    pub open spec fn without_prompt(self, id: Seq<u8>) -> MarketModel {
        MarketModel { prompts: self.prompts.remove(id), ..self }
    }

    /// The state with private prompt `hash` registered as `p`.
    pub open spec fn with_private_prompt(self, hash: Seq<u8>, p: PrivatePromptView) -> MarketModel {
        MarketModel { private_prompts: self.private_prompts.insert(hash, p), ..self }
    }

    /// The state where `buyer` has bought prompt `id`.
    pub open spec fn with_purchase(self, buyer: Seq<u8>, id: Seq<u8>) -> MarketModel {
        MarketModel { purchases: self.purchases.insert(pair_key(buyer, id)), ..self }
    }

    /// The state where `buyer` holds access to private prompt `hash`.
    pub open spec fn with_private_purchase(self, buyer: Seq<u8>, hash: Seq<u8>) -> MarketModel {
        MarketModel { private_purchases: self.private_purchases.insert(pair_key(buyer, hash)), ..self }
    }

    /// The state where `buyer`'s access to private prompt `hash` is revoked.
    pub open spec fn without_private_purchase(self, buyer: Seq<u8>, hash: Seq<u8>) -> MarketModel {
        MarketModel { private_purchases: self.private_purchases.remove(pair_key(buyer, hash)), ..self }
    }

    /// The administrator gate.
    pub open spec fn admin_error(self, auth: Set<Seq<u8>>) -> Option<MktError> {
        admin_rule(auth, self.admin)
    }

    pub open spec fn register_error(self, auth: Set<Seq<u8>>, id: Seq<u8>, price: i128) -> Option<MktError> {
        register_rule(auth, self.admin, price, self.prompts.dom().contains(id))
    }

    pub open spec fn update_price_error(self, auth: Set<Seq<u8>>, id: Seq<u8>, price: i128) -> Option<MktError> {
        update_price_rule(auth, self.admin, price, self.prompts.dom().contains(id))
    }

    pub open spec fn register_private_error(self, auth: Set<Seq<u8>>, hash: Seq<u8>, price: i128) -> Option<
        MktError,
    > {
        register_rule(auth, self.admin, price, self.private_prompts.dom().contains(hash))
    }

    /// The marketplace's own checks before a purchase.
    pub open spec fn buy_error(self, auth: Set<Seq<u8>>, buyer: Seq<u8>, id: Seq<u8>) -> Option<MktError> {
        buy_rule(auth, buyer, self.prompts.dom().contains(id), self.purchases.contains(pair_key(buyer, id)))
    }

    pub open spec fn buy_private_error(self, auth: Set<Seq<u8>>, buyer: Seq<u8>, hash: Seq<u8>) -> Option<
        MktError,
    > {
        buy_rule(
            auth,
            buyer,
            self.private_prompts.dom().contains(hash),
            self.private_purchases.contains(pair_key(buyer, hash)),
        )
    }

    pub open spec fn revoke_error(self, auth: Set<Seq<u8>>, buyer: Seq<u8>, hash: Seq<u8>) -> Option<MktError> {
        revoke_rule(auth, self.admin, self.private_purchases.contains(pair_key(buyer, hash)))
    }

    pub open spec fn remint_error(self, auth: Set<Seq<u8>>, amount: i128) -> Option<MktError> {
        remint_rule(auth, self.admin, amount)
    }

    /// The authorization that the marketplace lends to the token contract it
    /// invokes: its own, as the invoking contract.
    pub open spec fn as_invoker(self) -> Set<Seq<u8>> {
        Set::empty().insert(self.address)
    }
}

/// The first of two checks that fails, if any.
pub open spec fn first_market_error(a: Option<MktError>, b: Option<MktError>) -> Option<MktError> {
    if a is Some {
        a
    } else {
        b
    }
}

/// A token refusal, as the marketplace reports it.
pub open spec fn token_error(e: Option<AccError>) -> Option<MktError> {
    match e {
        Some(x) => Some(MktError::Token(x)),
        None => None,
    }
}

/// The token's verdict on a sale forwarded by `invoker`.
pub open spec fn forwarded_sale_error(t: TokenModel, invoker: Set<Seq<u8>>, seller: Seq<u8>, amount: i128) -> Option<
    AccError,
> {
    first_error(t.pause_error(), t.manager_sell_forwarded_error(invoker, seller, amount))
}

/// The token's verdict on a mint forwarded by `invoker`.
pub open spec fn forwarded_mint_error(t: TokenModel, invoker: Set<Seq<u8>>, to: Seq<u8>, amount: i128) -> Option<
    AccError,
> {
    first_error(t.pause_error(), t.manager_mint_forwarded_error(invoker, to, amount))
}

/// The marketplace contract, with its storage.
pub struct PromptMarketplace {
    address: Addr,
    admin: Addr,
    token: Addr,
    prompts: KeyMap<Prompt>,
    purchases: KeyMap<()>,
    private_prompts: KeyMap<PrivatePrompt>,
    private_purchases: KeyMap<()>,
}

impl View for PromptMarketplace {
    type V = MarketModel;

    closed spec fn view(&self) -> MarketModel {
        MarketModel {
            address: self.address@,
            admin: self.admin@,
            token: self.token@,
            prompts: by_single_view(self.prompts@),
            purchases: self.purchases@.dom(),
            private_prompts: by_single_view(self.private_prompts@),
            private_purchases: self.private_purchases@.dom(),
        }
    }
}

impl PromptMarketplace {
    /// The storage maps are consistent, and every stored price is positive.
    pub closed spec fn wf(&self) -> bool {
        &&& self.prompts.wf()
        &&& self.purchases.wf()
        &&& self.private_prompts.wf()
        &&& self.private_purchases.wf()
        &&& self@.prices_positive()
    }

    /// Law: in every state the marketplace can reach, every stored price,
    /// named or private, is positive.
    pub proof fn law_stored_prices_are_positive(&self)
        requires
            self.wf(),
        ensures
            self@.prices_positive(),
    {
    }

    /// Deploys the marketplace at `address`, administered by `admin` and
    /// paying with `token`.
    pub fn new(address: Addr, admin: Addr, token: Addr) -> (m: PromptMarketplace)
        ensures
            m.wf(),
            m@.address == address@,
            m@.admin == admin@,
            m@.token == token@,
            m@.prompts == Map::<Seq<u8>, PromptView>::empty(),
            m@.purchases == Set::<(Seq<u8>, Seq<u8>)>::empty(),
            m@.private_prompts == Map::<Seq<u8>, PrivatePromptView>::empty(),
            m@.private_purchases == Set::<(Seq<u8>, Seq<u8>)>::empty(),
    {
        let m = PromptMarketplace {
            address,
            admin,
            token,
            prompts: KeyMap::new(),
            purchases: KeyMap::new(),
            private_prompts: KeyMap::new(),
            private_purchases: KeyMap::new(),
        };
        proof {
            lemma_by_single_view_empty::<Prompt>();
            lemma_by_single_view_empty::<PrivatePrompt>();
            assert(m.purchases@.dom() =~= Set::<(Seq<u8>, Seq<u8>)>::empty());
            assert(m.private_purchases@.dom() =~= Set::<(Seq<u8>, Seq<u8>)>::empty());
        }
        m
    }

    /// Admin-only: registers a new prompt with a positive price.
    pub fn register_prompt(
        &mut self,
        auth: &Auth,
        prompt_id: &[u8],
        price: i128,
        owner: &Addr,
        content_uri: &[u8],
    ) -> (r: Result<PromptRegistered, MktError>)
        requires
            old(self).wf(),
        ensures
            final(self).wf(),
            match old(self)@.register_error(auth@, prompt_id@, price) {
                Some(e) => r == Err::<PromptRegistered, MktError>(e) && final(self)@ == old(self)@,
                None => r matches Ok(ev) && final(self)@ == old(self)@.with_prompt(
                    prompt_id@,
                    PromptView { price, owner: owner@, content_uri: content_uri@ },
                ) && ev.admin@ == old(self)@.admin && ev.prompt_id@ == prompt_id@ && ev.price == price
                    && ev.owner@ == owner@ && ev.content_uri@ == content_uri@,
            },
    {
        let key = Key::single(prompt_id);
        let registered = self.prompts.contains_key(&key);
        MarketRules::check_register(auth, &self.admin, price, registered)?;
        let ghost pre = *self;
        let prompt = Prompt { price, owner: owner.duplicate(), content_uri: copy_bytes(content_uri) };
        self.prompts.insert(key, prompt);
        proof {
            lemma_by_single_view_insert(pre.prompts@, prompt_id@, prompt);
            assert(self@ =~= (MarketModel {
                prompts: pre@.prompts.insert(
                    prompt_id@,
                    PromptView { price, owner: owner@, content_uri: content_uri@ },
                ),
                ..pre@
            }));
        }
        Ok(
            PromptRegistered {
                admin: self.admin.duplicate(),
                prompt_id: copy_bytes(prompt_id),
                price,
                owner: owner.duplicate(),
                content_uri: copy_bytes(content_uri),
            },
        )
    }

    /// Admin-only: sets a registered prompt's price to a positive value.
    pub fn update_price(&mut self, auth: &Auth, prompt_id: &[u8], new_price: i128) -> (r: Result<
        PromptPriceUpdated,
        MktError,
    >)
        requires
            old(self).wf(),
        ensures
            final(self).wf(),
            match old(self)@.update_price_error(auth@, prompt_id@, new_price) {
                Some(e) => r == Err::<PromptPriceUpdated, MktError>(e) && final(self)@ == old(self)@,
                None => r matches Ok(ev) && final(self)@ == old(self)@.with_prompt(
                    prompt_id@,
                    PromptView { price: new_price, ..old(self)@.prompts[prompt_id@] },
                ) && ev.admin@ == old(self)@.admin && ev.prompt_id@ == prompt_id@ && ev.new_price
                    == new_price,
            },
    {
        let key = Key::single(prompt_id);
        let registered = self.prompts.contains_key(&key);
        MarketRules::check_update_price(auth, &self.admin, new_price, registered)?;
        let updated = match self.prompts.get(&key) {
            Some(p) => Prompt {
                price: new_price,
                owner: p.owner.duplicate(),
                content_uri: copy_bytes(p.content_uri.as_slice()),
            },
            None => {
                return Err(MktError::PromptNotFound);
            },
        };
        let ghost pre = *self;
        self.prompts.insert(key, updated);
        proof {
            lemma_by_single_view_insert(pre.prompts@, prompt_id@, updated);
            assert(self@ =~= (MarketModel {
                prompts: pre@.prompts.insert(
                    prompt_id@,
                    PromptView { price: new_price, ..pre@.prompts[prompt_id@] },
                ),
                ..pre@
            }));
        }
        Ok(PromptPriceUpdated { admin: self.admin.duplicate(), prompt_id: copy_bytes(prompt_id), new_price })
    }

    /// Admin-only: removes a prompt; removing an absent one changes nothing.
    /// Purchases already made are kept.
    pub fn remove_prompt(&mut self, auth: &Auth, prompt_id: &[u8]) -> (r: Result<PromptRemoved, MktError>)
        requires
            old(self).wf(),
        ensures
            final(self).wf(),
            match old(self)@.admin_error(auth@) {
                Some(e) => r == Err::<PromptRemoved, MktError>(e) && final(self)@ == old(self)@,
                None => r matches Ok(ev) && final(self)@ == old(self)@.without_prompt(prompt_id@) && ev.admin@ == old(self)@.admin && ev.prompt_id@ == prompt_id@,
            },
    {
        MarketRules::check_admin(auth, &self.admin)?;
        let ghost pre = *self;
        self.prompts.remove(&Key::single(prompt_id));
        proof {
            lemma_by_single_view_remove(pre.prompts@, prompt_id@);
            assert(self@ =~= (MarketModel { prompts: pre@.prompts.remove(prompt_id@), ..pre@ }));
        }
        Ok(PromptRemoved { admin: self.admin.duplicate(), prompt_id: copy_bytes(prompt_id) })
    }

    /// Admin-only: registers a new private prompt, known only by its hash,
    /// with a positive price.
    pub fn register_private_prompt(&mut self, auth: &Auth, prompt_hash: &[u8], price: i128, owner: &Addr) -> (r:
        Result<PrivatePromptRegistered, MktError>)
        requires
            old(self).wf(),
        ensures
            final(self).wf(),
            match old(self)@.register_private_error(auth@, prompt_hash@, price) {
                Some(e) => r == Err::<PrivatePromptRegistered, MktError>(e) && final(self)@ == old(self)@,
                None => r matches Ok(ev) && final(self)@ == old(self)@.with_private_prompt(
                    prompt_hash@,
                    PrivatePromptView { price, owner: owner@ },
                ) && ev.admin@ == old(self)@.admin && ev.prompt_hash@ == prompt_hash@ && ev.price == price
                    && ev.owner@ == owner@,
            },
    {
        let key = Key::single(prompt_hash);
        let registered = self.private_prompts.contains_key(&key);
        MarketRules::check_register(auth, &self.admin, price, registered)?;
        let ghost pre = *self;
        let prompt = PrivatePrompt { price, owner: owner.duplicate() };
        self.private_prompts.insert(key, prompt);
        proof {
            lemma_by_single_view_insert(pre.private_prompts@, prompt_hash@, prompt);
            assert(self@ =~= (MarketModel {
                private_prompts: pre@.private_prompts.insert(
                    prompt_hash@,
                    PrivatePromptView { price, owner: owner@ },
                ),
                ..pre@
            }));
        }
        Ok(
            PrivatePromptRegistered {
                admin: self.admin.duplicate(),
                prompt_hash: copy_bytes(prompt_hash),
                price,
                owner: owner.duplicate(),
            },
        )
    }

    /// The marketplace's checks before a purchase of `prompt_id` by
    /// `buyer`; on success, the price to burn.
    fn prepare_buy_prompt(&self, auth: &Auth, buyer: &Addr, prompt_id: &[u8]) -> (r: Result<i128, MktError>)
        requires
            self.wf(),
        ensures
            match self@.buy_error(auth@, buyer@, prompt_id@) {
                Some(e) => r == Err::<i128, MktError>(e),
                None => r == Ok::<i128, MktError>(self@.prompts[prompt_id@].price),
            },
    {
        let (registered, price) = match self.prompts.get(&Key::single(prompt_id)) {
            Some(p) => (true, p.price),
            None => (false, 0),
        };
        let purchased = self.purchases.contains_key(&Key::pair(buyer.bytes.as_slice(), prompt_id));
        MarketRules::check_buy(auth, buyer, registered, purchased)?;
        Ok(price)
    }

    /// Records the purchase of `prompt_id` by `buyer` once its price has
    /// been burned.
    fn complete_buy_prompt(&mut self, buyer: &Addr, prompt_id: &[u8], price: i128) -> (ev: PromptPurchased)
        requires
            old(self).wf(),
        ensures
            final(self).wf(),
            final(self)@ == old(self)@.with_purchase(buyer@, prompt_id@),
            ev.buyer@ == buyer@,
            ev.prompt_id@ == prompt_id@,
            ev.price == price,
    {
        let ghost pre = *self;
        self.purchases.insert(Key::pair(buyer.bytes.as_slice(), prompt_id), ());
        assert(self@ =~= (MarketModel {
            purchases: pre@.purchases.insert(pair_key(buyer@, prompt_id@)),
            ..pre@
        }));
        PromptPurchased { buyer: buyer.duplicate(), prompt_id: copy_bytes(prompt_id), price }
    }

    /// `buyer` buys `prompt_id`: its price is burned from the buyer's
    /// balance through the token's forwarded sale, then the purchase is
    /// recorded.  If the token refuses, neither contract changes.
    pub fn buy_prompt(&mut self, token: &mut MyToken, auth: &Auth, buyer: &Addr, prompt_id: &[u8]) -> (r: Result<
        (SellEvent, PromptPurchased),
        MktError,
    >)
        requires
            old(self).wf(),
            old(token).wf(),
            old(token)@.address == old(self)@.token,
        ensures
            final(self).wf(),
            final(token).wf(),
            match first_market_error(
                old(self)@.buy_error(auth@, buyer@, prompt_id@),
                token_error(
                    forwarded_sale_error(
                        old(token)@,
                        old(self)@.as_invoker(),
                        buyer@,
                        old(self)@.prompts[prompt_id@].price,
                    ),
                ),
            ) {
                Some(e) => r == Err::<(SellEvent, PromptPurchased), MktError>(e) && final(self)@ == old(
                    self,
                )@ && final(token)@ == old(token)@,
                None => r matches Ok((sell, ev)) && final(token)@ == old(token)@.updated(
                    Some(buyer@),
                    None,
                    old(self)@.prompts[prompt_id@].price,
                ) && final(self)@ == old(self)@.with_purchase(buyer@, prompt_id@) && sell.seller@ == buyer@ && sell.amount == old(self)@.prompts[prompt_id@].price
                    && ev.buyer@ == buyer@ && ev.prompt_id@ == prompt_id@ && ev.price == old(
                    self,
                )@.prompts[prompt_id@].price,
            },
    {
        let price = match self.prepare_buy_prompt(auth, buyer, prompt_id) {
            Ok(p) => p,
            Err(e) => {
                return Err(e);
            },
        };
        let sell = match token.sell_forwarded(&Auth::signed_by(&self.address), buyer, price) {
            Ok(s) => s,
            Err(e) => {
                return Err(MktError::Token(e));
            },
        };
        let ev = self.complete_buy_prompt(buyer, prompt_id, price);
        Ok((sell, ev))
    }

    /// The marketplace's checks before a purchase of a private prompt; on
    /// success, the price to burn.
    fn prepare_buy_private_prompt(&self, auth: &Auth, buyer: &Addr, prompt_hash: &[u8]) -> (r: Result<
        i128,
        MktError,
    >)
        requires
            self.wf(),
        ensures
            match self@.buy_private_error(auth@, buyer@, prompt_hash@) {
                Some(e) => r == Err::<i128, MktError>(e),
                None => r == Ok::<i128, MktError>(self@.private_prompts[prompt_hash@].price),
            },
    {
        let (registered, price) = match self.private_prompts.get(&Key::single(prompt_hash)) {
            Some(p) => (true, p.price),
            None => (false, 0),
        };
        let purchased = self.private_purchases.contains_key(&Key::pair(buyer.bytes.as_slice(), prompt_hash));
        MarketRules::check_buy(auth, buyer, registered, purchased)?;
        Ok(price)
    }

    /// Records the private access of `buyer` to `prompt_hash` once its price
    /// has been burned.
    fn complete_buy_private_prompt(&mut self, buyer: &Addr, prompt_hash: &[u8], price: i128) -> (ev:
        PrivatePromptPurchased)
        requires
            old(self).wf(),
        ensures
            final(self).wf(),
            final(self)@ == old(self)@.with_private_purchase(buyer@, prompt_hash@),
            ev.buyer@ == buyer@,
            ev.prompt_hash@ == prompt_hash@,
            ev.price == price,
    {
        let ghost pre = *self;
        self.private_purchases.insert(Key::pair(buyer.bytes.as_slice(), prompt_hash), ());
        assert(self@ =~= (MarketModel {
            private_purchases: pre@.private_purchases.insert(pair_key(buyer@, prompt_hash@)),
            ..pre@
        }));
        PrivatePromptPurchased { buyer: buyer.duplicate(), prompt_hash: copy_bytes(prompt_hash), price }
    }

    /// `buyer` buys the private prompt `prompt_hash`, as `buy_prompt` does
    /// for a named one.
    pub fn buy_private_prompt(&mut self, token: &mut MyToken, auth: &Auth, buyer: &Addr, prompt_hash: &[u8]) -> (r:
        Result<(SellEvent, PrivatePromptPurchased), MktError>)
        requires
            old(self).wf(),
            old(token).wf(),
            old(token)@.address == old(self)@.token,
        ensures
            final(self).wf(),
            final(token).wf(),
            match first_market_error(
                old(self)@.buy_private_error(auth@, buyer@, prompt_hash@),
                token_error(
                    forwarded_sale_error(
                        old(token)@,
                        old(self)@.as_invoker(),
                        buyer@,
                        old(self)@.private_prompts[prompt_hash@].price,
                    ),
                ),
            ) {
                Some(e) => r == Err::<(SellEvent, PrivatePromptPurchased), MktError>(e) && final(self)@ == old(
                    self,
                )@ && final(token)@ == old(token)@,
                None => r matches Ok((sell, ev)) && final(token)@ == old(token)@.updated(
                    Some(buyer@),
                    None,
                    old(self)@.private_prompts[prompt_hash@].price,
                ) && final(self)@ == old(self)@.with_private_purchase(buyer@, prompt_hash@) && sell.seller@ == buyer@ && sell.amount == old(self)@.private_prompts[prompt_hash@].price
                    && ev.buyer@ == buyer@ && ev.prompt_hash@ == prompt_hash@ && ev.price == old(
                    self,
                )@.private_prompts[prompt_hash@].price,
            },
    {
        let price = match self.prepare_buy_private_prompt(auth, buyer, prompt_hash) {
            Ok(p) => p,
            Err(e) => {
                return Err(e);
            },
        };
        let sell = match token.sell_forwarded(&Auth::signed_by(&self.address), buyer, price) {
            Ok(s) => s,
            Err(e) => {
                return Err(MktError::Token(e));
            },
        };
        let ev = self.complete_buy_private_prompt(buyer, prompt_hash, price);
        Ok((sell, ev))
    }

    /// Admin-only: invalidates a private access grant that exists.
    pub fn revoke_private_access(&mut self, auth: &Auth, buyer: &Addr, prompt_hash: &[u8]) -> (r: Result<
        PrivateAccessRevoked,
        MktError,
    >)
        requires
            old(self).wf(),
        ensures
            final(self).wf(),
            match old(self)@.revoke_error(auth@, buyer@, prompt_hash@) {
                Some(e) => r == Err::<PrivateAccessRevoked, MktError>(e) && final(self)@ == old(self)@,
                None => r matches Ok(ev) && final(self)@ == old(self)@.without_private_purchase(buyer@, prompt_hash@) && ev.admin@ == old(self)@.admin && ev.buyer@ == buyer@ && ev.prompt_hash@ == prompt_hash@,
            },
    {
        let key = Key::pair(buyer.bytes.as_slice(), prompt_hash);
        let granted = self.private_purchases.contains_key(&key);
        MarketRules::check_revoke(auth, &self.admin, granted)?;
        let ghost pre = *self;
        self.private_purchases.remove(&key);
        assert(self@ =~= (MarketModel {
            private_purchases: pre@.private_purchases.remove(pair_key(buyer@, prompt_hash@)),
            ..pre@
        }));
        Ok(
            PrivateAccessRevoked {
                admin: self.admin.duplicate(),
                buyer: buyer.duplicate(),
                prompt_hash: copy_bytes(prompt_hash),
            },
        )
    }

    /// The marketplace's checks before a re-mint.
    fn prepare_remint(&self, auth: &Auth, amount: i128) -> (r: Result<(), MktError>)
        ensures
            match self@.remint_error(auth@, amount) {
                Some(e) => r == Err::<(), MktError>(e),
                None => r is Ok,
            },
    {
        MarketRules::check_remint(auth, &self.admin, amount)
    }

    /// The event of a re-mint that the token accepted.
    fn complete_remint(&self, to: &Addr, amount: i128) -> (ev: TokensReminted)
        ensures
            ev.admin@ == self@.admin,
            ev.to@ == to@,
            ev.amount == amount,
    {
        TokensReminted { admin: self.admin.duplicate(), to: to.duplicate(), amount }
    }

    /// Admin-only: mints a positive `amount` to `to` through the token's
    /// forwarded mint.  If the token refuses, it does not change.
    pub fn remint(&self, token: &mut MyToken, auth: &Auth, to: &Addr, amount: i128) -> (r: Result<
        (MintEvent, TokensReminted),
        MktError,
    >)
        requires
            self.wf(),
            old(token).wf(),
            old(token)@.address == self@.token,
        ensures
            final(token).wf(),
            match first_market_error(
                self@.remint_error(auth@, amount),
                token_error(forwarded_mint_error(old(token)@, self@.as_invoker(), to@, amount)),
            ) {
                Some(e) => r == Err::<(MintEvent, TokensReminted), MktError>(e) && final(token)@ == old(
                    token,
                )@,
                None => r matches Ok((mint, ev)) && final(token)@ == old(token)@.updated(
                    None,
                    Some(to@),
                    amount,
                ) && old(token)@.owner == Some(mint.admin@) && mint.to@ == to@ && mint.amount == amount
                    && ev.admin@ == self@.admin && ev.to@ == to@ && ev.amount == amount,
            },
    {
        match self.prepare_remint(auth, amount) {
            Ok(()) => {},
            Err(e) => {
                return Err(e);
            },
        }
        let mint = match token.mint_forwarded(&Auth::signed_by(&self.address), to, amount) {
            Ok(m) => m,
            Err(e) => {
                return Err(MktError::Token(e));
            },
        };
        Ok((mint, self.complete_remint(to, amount)))
    }

    /// Whether `user` bought the private prompt `prompt_hash` (and was not
    /// revoked).
    pub fn has_private_access(&self, user: &Addr, prompt_hash: &[u8]) -> (r: bool)
        requires
            self.wf(),
        ensures
            r == self@.private_purchases.contains(pair_key(user@, prompt_hash@)),
    {
        self.private_purchases.contains_key(&Key::pair(user.bytes.as_slice(), prompt_hash))
    }

    /// Whether `user` bought the prompt `prompt_id`.
    pub fn has_access(&self, user: &Addr, prompt_id: &[u8]) -> (r: bool)
        requires
            self.wf(),
        ensures
            r == self@.purchases.contains(pair_key(user@, prompt_id@)),
    {
        self.purchases.contains_key(&Key::pair(user.bytes.as_slice(), prompt_id))
    }

    /// The price of a registered prompt.
    pub fn get_price(&self, prompt_id: &[u8]) -> (r: Result<i128, MktError>)
        requires
            self.wf(),
        ensures
            if self@.prompts.dom().contains(prompt_id@) {
                r == Ok::<i128, MktError>(self@.prompts[prompt_id@].price)
            } else {
                r == Err::<i128, MktError>(MktError::PromptNotFound)
            },
    {
        match self.prompts.get(&Key::single(prompt_id)) {
            Some(p) => Ok(p.price),
            None => Err(MktError::PromptNotFound),
        }
    }

    /// The content URI of a registered prompt.
    pub fn get_content_uri(&self, prompt_id: &[u8]) -> (r: Result<Vec<u8>, MktError>)
        requires
            self.wf(),
        ensures
            if self@.prompts.dom().contains(prompt_id@) {
                r matches Ok(u) && u@ == self@.prompts[prompt_id@].content_uri
            } else {
                r == Err::<Vec<u8>, MktError>(MktError::PromptNotFound)
            },
    {
        match self.prompts.get(&Key::single(prompt_id)) {
            Some(p) => Ok(copy_bytes(p.content_uri.as_slice())),
            None => Err(MktError::PromptNotFound),
        }
    }

    /// The creator of a registered prompt.
    pub fn get_owner(&self, prompt_id: &[u8]) -> (r: Result<Addr, MktError>)
        requires
            self.wf(),
        ensures
            if self@.prompts.dom().contains(prompt_id@) {
                r matches Ok(a) && a@ == self@.prompts[prompt_id@].owner
            } else {
                r == Err::<Addr, MktError>(MktError::PromptNotFound)
            },
    {
        match self.prompts.get(&Key::single(prompt_id)) {
            Some(p) => Ok(p.owner.duplicate()),
            None => Err(MktError::PromptNotFound),
        }
    }

    /// The token this marketplace pays with.
    pub fn get_token(&self) -> (r: Addr)
        ensures
            r@ == self@.token,
    {
        self.token.duplicate()
    }

    /// The administrator.
    pub fn get_admin(&self) -> (r: Addr)
        ensures
            r@ == self@.admin,
    {
        self.admin.duplicate()
    }

    /// The marketplace contract's own address.
    pub fn address(&self) -> (r: Addr)
        ensures
            r@ == self@.address,
    {
        self.address.duplicate()
    }
}

} // verus!
