//! Argument types of the token metadata program's update instructions:
//! the three-way toggles an update carries for its optional sub-records,
//! and the use-authority record read back from account data.

use vstd::prelude::*;

use vstd::bytes::spec_u64_from_le_bytes;

verus! {

/// How many times an asset can be used, as the update argument carries
/// it.
#[derive(Clone, Copy, PartialEq, Eq, Structural, Debug)]
pub enum UseMethod {
    Burn,
    Multiple,
    Single,
}

/// The use counters of an asset.
#[derive(Clone, Copy, PartialEq, Eq, Structural, Debug)]
pub struct Uses {
    pub use_method: UseMethod,
    pub remaining: u64,
    pub total: u64,
}

/// An update's three-way choice for the asset's use counters: keep them,
/// clear them, or set new ones.
#[derive(Clone, Copy, PartialEq, Eq, Structural, Debug)]
pub enum UsesToggle {
    Keep,
    Clear,
    Apply(Uses),
}

impl UsesToggle {
    /// The toggle changes something: it clears or sets.
    pub fn is_some(&self) -> (r: bool)
        ensures
            r == !(*self is Keep),
    {
        matches!(self, UsesToggle::Clear | UsesToggle::Apply(_))
    }

    /// The toggle keeps the current value.
    pub fn is_none(&self) -> (r: bool)
        ensures
            r == (*self is Keep),
    {
        matches!(self, UsesToggle::Keep)
    }

    /// The toggle clears the value.
    pub fn is_clear(&self) -> (r: bool)
        ensures
            r == (*self is Clear),
    {
        matches!(self, UsesToggle::Clear)
    }

    /// The toggle sets a new value.
    pub fn is_set(&self) -> (r: bool)
        ensures
            r == (*self is Apply),
    {
        matches!(self, UsesToggle::Apply(_))
    }

    /// The value a clearing or setting toggle leaves behind.
    ///
    /// A keeping toggle carries no value and is excluded: this crate's
    /// verified functions do not panic.
    pub fn to_option(self) -> (r: Option<Uses>)
        requires
            !(self is Keep),
        ensures
            self matches UsesToggle::Apply(v) ==> r == Some(v),
            self is Clear ==> r is None,
    {
        match self {
            UsesToggle::Apply(value) => Some(value),
            UsesToggle::Clear => None,
            UsesToggle::Keep => unreached(),
        }
    }
}

/// How large a collection is.
#[derive(Clone, Copy, PartialEq, Eq, Structural, Debug)]
pub struct CollectionDetails {
    pub size: u64,
}

/// An update's three-way choice for the collection details.
#[derive(Clone, Copy, PartialEq, Eq, Structural, Debug)]
pub enum CollectionDetailsToggle {
    Keep,
    Clear,
    Apply(CollectionDetails),
}

impl CollectionDetailsToggle {
    /// The toggle changes something: it clears or sets.
    pub fn is_some(&self) -> (r: bool)
        ensures
            r == !(*self is Keep),
    {
        matches!(self, CollectionDetailsToggle::Clear | CollectionDetailsToggle::Apply(_))
    }

    /// The toggle keeps the current value.
    pub fn is_none(&self) -> (r: bool)
        ensures
            r == (*self is Keep),
    {
        matches!(self, CollectionDetailsToggle::Keep)
    }

    /// The toggle clears the value.
    pub fn is_clear(&self) -> (r: bool)
        ensures
            r == (*self is Clear),
    {
        matches!(self, CollectionDetailsToggle::Clear)
    }

    /// The toggle sets a new value.
    pub fn is_set(&self) -> (r: bool)
        ensures
            r == (*self is Apply),
    {
        matches!(self, CollectionDetailsToggle::Apply(_))
    }

    /// The value a clearing or setting toggle leaves behind; a keeping
    /// toggle carries none and is excluded: this crate's verified
    /// functions do not panic.
    pub fn to_option(self) -> (r: Option<CollectionDetails>)
        requires
            !(self is Keep),
        ensures
            self matches CollectionDetailsToggle::Apply(v) ==> r == Some(v),
            self is Clear ==> r is None,
    {
        match self {
            CollectionDetailsToggle::Apply(value) => Some(value),
            CollectionDetailsToggle::Clear => None,
            CollectionDetailsToggle::Keep => unreached(),
        }
    }
}

/// The kind byte that marks a use-authority record in account data.
pub const USE_AUTHORITY_RECORD_KEY: u8 = 8;

/// The exact size of a use-authority record's account data: the kind
/// byte, the eight-byte allowance, the bump seed, and eight bytes of
/// padding.
pub const USE_AUTHORITY_RECORD_SIZE: usize = 18;

/// The record that tracks how often a delegated authority may use an
/// asset: a record kind byte, a bump seed, and the remaining allowance.
#[derive(Clone, Copy, PartialEq, Eq, Structural, Debug)]
pub struct UseAuthorityRecord {
    pub key: u8,
    pub allowed_uses: u64,
    pub bump: u8,
}

impl UseAuthorityRecord {
    /// Reads a record from its account bytes: the account must be exactly
    /// the record's size and carry the use-authority kind byte; then the
    /// kind byte is followed by the eight-byte allowance and the bump
    /// seed.
    pub fn from_bytes(b: &[u8]) -> (r: Result<Self, &'static str>)
        ensures
            r is Ok <==> (b@.len() == 18 && b@[0] == 8),
            r matches Ok(v) ==> {
                &&& v.key == b@[0]
                &&& v.allowed_uses == spec_u64_from_le_bytes(b@.subrange(1, 9))
                &&& v.bump == b@[9]
            },
    {
        if b.len() != USE_AUTHORITY_RECORD_SIZE || b[0] != USE_AUTHORITY_RECORD_KEY {
            return Err("Failed to read use authority record.");
        }
        let allowed = vstd::bytes::u64_from_le_bytes(vstd::slice::slice_subrange(b, 1, 9));
        Ok(UseAuthorityRecord { key: b[0], allowed_uses: allowed, bump: b[9] })
    }

    /// Whether the record was written before bump seeds were stored: a
    /// use-authority record whose stored bump is zero.
    pub fn bump_empty(&self) -> (r: bool)
        ensures
            r == (self.bump == 0 && self.key == 8),
    {
        self.bump == 0 && self.key == USE_AUTHORITY_RECORD_KEY
    }
}

/// How many prints an asset allows.
#[derive(Clone, Copy, PartialEq, Eq, Structural, Debug)]
pub enum PrintSupply {
    /// The asset does not have any prints.
    Zero,
    /// The asset has a limited amount of prints.
    Limited(u64),
    /// The asset has an unlimited amount of prints.
    Unlimited,
}

impl PrintSupply {
    /// The print allowance as a count, none for an unlimited supply.
    pub fn to_option(&self) -> (r: Option<u64>)
        ensures
            *self is Zero ==> r == Some(0u64),
            (*self) matches PrintSupply::Limited(supply) ==> r == Some(supply),
            *self is Unlimited ==> r is None,
    {
        match self {
            PrintSupply::Zero => Some(0),
            PrintSupply::Limited(supply) => Some(*supply),
            PrintSupply::Unlimited => None,
        }
    }
}

/// The seeds of a derived address, as an authorization payload carries
/// them.
#[derive(Clone, PartialEq, Debug)]
pub struct SeedsVec {
    pub seeds: Vec<Vec<u8>>,
}

impl SeedsVec {
    /// Wraps a seed list.
    pub fn new(seeds: Vec<Vec<u8>>) -> (r: Self)
        ensures
            r.seeds@ == seeds@,
    {
        SeedsVec { seeds }
    }
}

/// A merkle proof carried in an authorization payload.
#[derive(Clone, PartialEq, Debug)]
pub struct ProofInfo {
    pub proof: Vec<Vec<u8>>,
}

impl ProofInfo {
    /// Wraps a proof path.
    pub fn new(proof: Vec<Vec<u8>>) -> (r: Self)
        ensures
            r.proof@ == proof@,
    {
        ProofInfo { proof }
    }
}

} // verus!
