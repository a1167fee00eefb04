//! Identifiers of assets and venues, asset pairs and swap paths.

use vstd::prelude::*;

verus! {

/// A 20-byte identifier of an asset or of a venue.
#[derive(Clone, Copy, Debug, PartialEq, Eq, Hash)]
pub struct Address {
    pub bytes: [u8; 20],
}

impl View for Address {
    type V = Seq<u8>;

    open spec fn view(&self) -> Seq<u8> {
        self.bytes@
    }
}

impl Address {
    pub fn from_bytes(bytes: [u8; 20]) -> (address: Address)
        ensures
            address@ == bytes@,
            address.bytes == bytes,
    {
        Address { bytes }
    }

    /// Whether two identifiers hold the same bytes.
    pub fn same_as(&self, other: &Address) -> (same: bool)
        ensures
            same == (self@ == other@),
            same == (*self == *other),
    {
        let mut i: usize = 0;
        while i < 20
            invariant
                i <= 20,
                forall|j: int| 0 <= j < i ==> self.bytes@[j] == other.bytes@[j],
            decreases 20 - i,
        {
            if self.bytes[i] != other.bytes[i] {
                return false;
            }
            i += 1;
        }
        assert(self.bytes =~= other.bytes);
        true
    }
}

/// Two distinct assets: the one a cycle starts from and returns to, and the
/// one it passes through.
#[derive(Clone, Copy, Debug, PartialEq, Eq)]
pub struct AssetPair {
    base: Address,
    quote: Address,
}

impl AssetPair {
    #[verifier::type_invariant]
    spec fn distinct(self) -> bool {
        self.base@ != self.quote@
    }

    /// The asset a cycle starts from and returns to.
    pub closed spec fn base_id(self) -> Address {
        self.base
    }

    /// The asset a cycle passes through.
    pub closed spec fn quote_id(self) -> Address {
        self.quote
    }

    /// Pairs two assets; there is no pair of an asset with itself.
    pub fn new(base: Address, quote: Address) -> (pair: Option<AssetPair>)
        ensures
            pair is Some <==> base@ != quote@,
            pair matches Some(p) ==> p.base_id() == base && p.quote_id() == quote,
    {
        if base.same_as(&quote) {
            None
        } else {
            Some(AssetPair { base, quote })
        }
    }

    pub fn base(&self) -> (id: Address)
        ensures
            id == self.base_id(),
            id@ != self.quote_id()@,
    {
        proof {
            use_type_invariant(self);
        }
        self.base
    }

    pub fn quote(&self) -> (id: Address)
        ensures
            id == self.quote_id(),
            id@ != self.base_id()@,
    {
        proof {
            use_type_invariant(self);
        }
        self.quote
    }
}

/// An ordered chain of conversions, named by the assets it passes: at least a
/// source and a destination.
#[derive(Debug, PartialEq, Eq)]
pub struct SwapPath {
    hops: Vec<Address>,
}

impl View for SwapPath {
    type V = Seq<Address>;

    closed spec fn view(&self) -> Seq<Address> {
        self.hops@
    }
}

impl Clone for SwapPath {
    fn clone(&self) -> (copy: SwapPath)
        ensures
            copy@ == self@,
    {
        proof {
            use_type_invariant(self);
        }
        let mut hops: Vec<Address> = Vec::new();
        let mut i: usize = 0;
        while i < self.hops.len()
            invariant
                i <= self.hops@.len(),
                hops@ == self.hops@.take(i as int),
            decreases self.hops@.len() - i,
        {
            hops.push(self.hops[i]);
            i += 1;
        }
        SwapPath { hops }
    }
}

impl SwapPath {
    #[verifier::type_invariant]
    spec fn long_enough(self) -> bool {
        self.hops@.len() >= 2
    }

    /// A path over the given assets, if there are at least two of them.
    pub fn new(hops: Vec<Address>) -> (path: Option<SwapPath>)
        ensures
            path is Some <==> hops@.len() >= 2,
            path matches Some(p) ==> p@ == hops@,
    {
        if hops.len() >= 2 {
            Some(SwapPath { hops })
        } else {
            None
        }
    }

    /// The path of a single conversion.
    pub fn direct(source: Address, destination: Address) -> (path: SwapPath)
        ensures
            path@ == seq![source, destination],
    {
        let mut hops: Vec<Address> = Vec::new();
        hops.push(source);
        hops.push(destination);
        SwapPath { hops }
    }

    /// The assets of the path, in order.
    pub fn hops(&self) -> (hops: &Vec<Address>)
        ensures
            hops@ == self@,
            hops@.len() >= 2,
    {
        proof {
            use_type_invariant(self);
        }
        &self.hops
    }
}

} // verus!
