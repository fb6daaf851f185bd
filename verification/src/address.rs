//! Addresses, the set of addresses that authorized an invocation, and what
//! the ledger reports an address to execute.
use vstd::prelude::*;
use crate::keymap::{bytes_eq, copy_bytes};

verus! {

/// A ledger address (an account or a contract), held as the bytes of its
/// textual `G...` / `C...` form.
pub struct Addr {
    pub bytes: Vec<u8>,
}

impl View for Addr {
    type V = Seq<u8>;

    open spec fn view(&self) -> Seq<u8> {
        self.bytes@
    }
}

impl Addr {
    /// The address whose textual form is `text`.
    pub fn from_bytes(text: &[u8]) -> (a: Addr)
        ensures
            a@ == text@,
    {
        Addr { bytes: copy_bytes(text) }
    }

    /// Whether two addresses are the same address.
    pub fn same(&self, other: &Addr) -> (r: bool)
        ensures
            r == (self@ == other@),
    {
        bytes_eq(self.bytes.as_slice(), other.bytes.as_slice())
    }

    /// A copy of this address.
    pub fn duplicate(&self) -> (a: Addr)
        ensures
            a@ == self@,
    {
        Addr { bytes: copy_bytes(self.bytes.as_slice()) }
    }
}

/// The addresses whose authorization an invocation carries: accounts that
/// signed for it, and the contract that invoked it.
pub struct Auth {
    pub signers: Vec<Addr>,
}

impl View for Auth {
    type V = Set<Seq<u8>>;

    open spec fn view(&self) -> Set<Seq<u8>> {
        Set::new(|a: Seq<u8>| exists|i: int| 0 <= i < self.signers@.len() && #[trigger] self.signers@[i]@ == a)
    }
}

impl Auth {
    /// An invocation that carries no authorization.
    pub fn none() -> (r: Auth)
        ensures
            r@ == Set::<Seq<u8>>::empty(),
    {
        let r = Auth { signers: Vec::new() };
        assert(r@ =~= Set::<Seq<u8>>::empty());
        r
    }

    /// An invocation authorized by `a` alone.
    pub fn signed_by(a: &Addr) -> (r: Auth)
        ensures
            r@ == Set::<Seq<u8>>::empty().insert(a@),
    {
        let mut signers: Vec<Addr> = Vec::new();
        signers.push(a.duplicate());
        let r = Auth { signers };
        assert(r.signers@[0]@ == a@);
        assert(r@ =~= Set::<Seq<u8>>::empty().insert(a@));
        r
    }

    /// `require_auth`: whether `a` authorized the invocation.
    pub fn authorizes(&self, a: &Addr) -> (r: bool)
        ensures
            r == self@.contains(a@),
    {
        let mut i: usize = 0;
        while i < self.signers.len()
            invariant
                0 <= i <= self.signers@.len(),
                forall|j: int| 0 <= j < i ==> #[trigger] self.signers@[j]@ != a@,
            decreases self.signers.len() - i,
        {
            if self.signers[i].same(a) {
                assert(self.signers@[i as int]@ == a@);
                return true;
            }
            i = i + 1;
        }
        false
    }
}

/// What the ledger reports that an address executes.
#[derive(Clone, Copy, PartialEq, Eq, Structural, Debug)]
pub enum Executable {
    /// A contract deployed from Wasm code.
    Wasm,
    /// The built-in contract of a Stellar asset.
    StellarAsset,
    /// An account.
    Account,
}

/// The ledger numbers that allowances are checked against.
#[derive(Clone, Copy, PartialEq, Eq, Structural, Debug)]
pub struct LedgerInfo {
    /// The number of the current ledger.
    pub sequence: u32,
    /// The highest ledger number that a temporary entry can live until.
    pub max_live_until_ledger: u32,
}

} // verus!
