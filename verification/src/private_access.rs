//! The private-access prototype: a registry of access grants keyed by a
//! buyer and an opaque prompt hash, each bought at most once.
use vstd::prelude::*;
use crate::address::{Addr, Auth};
use crate::keymap::{pair_key, Key, KeyMap};

verus! {

/// Why the prototype refused a purchase.
#[derive(Clone, Copy, PartialEq, Eq, Structural, Debug)]
pub enum AccessError {
    /// The buyer did not authorize the purchase.
    Unauthorized,
    /// The buyer already holds access to this hash.
    AlreadyPurchased,
}

/// The prototype contract, with its storage of grants.
pub struct PrivateAccessPrototype {
    grants: KeyMap<()>,
}

impl View for PrivateAccessPrototype {
    /// The grants, as (buyer, prompt hash).
    type V = Set<(Seq<u8>, Seq<u8>)>;

    closed spec fn view(&self) -> Set<(Seq<u8>, Seq<u8>)> {
        self.grants@.dom()
    }
}

/// The prototype's rule for a purchase: authorized by the buyer, who does
/// not hold the grant yet.
pub open spec fn access_rule(auth: Set<Seq<u8>>, buyer: Seq<u8>, granted: bool) -> Option<AccessError> {
    if !auth.contains(buyer) {
        Some(AccessError::Unauthorized)
    } else if granted {
        Some(AccessError::AlreadyPurchased)
    } else {
        None
    }
}

impl PrivateAccessPrototype {
    /// Applies `access_rule` to what the contract reads.
    pub fn check_purchase(auth: &Auth, buyer: &Addr, granted: bool) -> (r: Result<(), AccessError>)
        ensures
            r == match access_rule(auth@, buyer@, granted) {
                Some(e) => Err::<(), AccessError>(e),
                None => Ok(()),
            },
    {
        if !auth.authorizes(buyer) {
            return Err(AccessError::Unauthorized);
        }
        if granted {
            return Err(AccessError::AlreadyPurchased);
        }
        Ok(())
    }

    pub closed spec fn wf(&self) -> bool {
        self.grants.wf()
    }

    /// A prototype with no grants.
    pub fn new() -> (p: PrivateAccessPrototype)
        ensures
            p.wf(),
            p@ == Set::<(Seq<u8>, Seq<u8>)>::empty(),
    {
        let p = PrivateAccessPrototype { grants: KeyMap::new() };
        assert(p@ =~= Set::<(Seq<u8>, Seq<u8>)>::empty());
        p
    }

    /// Grants `buyer` access to `prompt_hash`, authorized by the buyer; a
    /// second purchase of the same hash by the same buyer is refused.
    pub fn buy_access(&mut self, auth: &Auth, buyer: &Addr, prompt_hash: &[u8]) -> (r: Result<(), AccessError>)
        requires
            old(self).wf(),
        ensures
            final(self).wf(),
            match access_rule(auth@, buyer@, old(self)@.contains(pair_key(buyer@, prompt_hash@))) {
                Some(e) => r == Err::<(), AccessError>(e) && final(self)@ == old(self)@,
                None => r is Ok && final(self)@ == old(self)@.insert(pair_key(buyer@, prompt_hash@)),
            },
    {
        let key = Key::pair(buyer.bytes.as_slice(), prompt_hash);
        let granted = self.grants.contains_key(&key);
        Self::check_purchase(auth, buyer, granted)?;
        let ghost pre = *self;
        self.grants.insert(key, ());
        assert(self@ =~= pre@.insert(pair_key(buyer@, prompt_hash@)));
        Ok(())
    }

    /// Whether `buyer` holds access to `prompt_hash`.
    pub fn has_access(&self, buyer: &Addr, prompt_hash: &[u8]) -> (r: bool)
        requires
            self.wf(),
        ensures
            r == self@.contains(pair_key(buyer@, prompt_hash@)),
    {
        self.grants.contains_key(&Key::pair(buyer.bytes.as_slice(), prompt_hash))
    }
}

} // verus!
