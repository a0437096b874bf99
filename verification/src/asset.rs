use vstd::prelude::*;

verus! {

/// Identifies one of the two pool assets: either a native coin,
/// identified by its denomination, or a contract token, identified by
/// the token contract's address.
#[derive(Clone, Debug)]
pub enum AssetInfo {
    NativeToken { denom: String },
    Token { contract_addr: String },
}

impl AssetInfo {
    /// The characters of the identifier (denomination or address).
    pub open spec fn spec_id(&self) -> Seq<char> {
        match self {
            AssetInfo::NativeToken { denom } => denom@,
            AssetInfo::Token { contract_addr } => contract_addr@,
        }
    }

    pub open spec fn spec_is_native(&self) -> bool {
        match self {
            AssetInfo::NativeToken { .. } => true,
            AssetInfo::Token { .. } => false,
        }
    }

    /// Two descriptions name the same asset when they are of the same
    /// kind and carry the same identifier.
    pub open spec fn same_as(&self, other: &AssetInfo) -> bool {
        self.spec_is_native() == other.spec_is_native() && self.spec_id() == other.spec_id()
    }

    /// Whether `self` and `other` name the same asset.
    pub fn equal(&self, other: &AssetInfo) -> (r: bool)
        ensures
            r == self.same_as(other),
    {
        match (self, other) {
            (AssetInfo::NativeToken { denom: a }, AssetInfo::NativeToken { denom: b }) => *a == *b,
            (AssetInfo::Token { contract_addr: a }, AssetInfo::Token { contract_addr: b }) => {
                *a == *b
            },
            _ => false,
        }
    }

    /// A copy whose equality with the original is known to the
    /// verifier (unlike the derived `clone`).
    pub fn duplicate(&self) -> (r: AssetInfo)
        ensures
            r == *self,
    {
        match self {
            AssetInfo::NativeToken { denom } => AssetInfo::NativeToken { denom: denom.clone() },
            AssetInfo::Token { contract_addr } => AssetInfo::Token {
                contract_addr: contract_addr.clone(),
            },
        }
    }
}

impl PartialEq for AssetInfo {
    fn eq(&self, other: &AssetInfo) -> (r: bool) {
        self.equal(other)
    }
}

impl vstd::std_specs::cmp::PartialEqSpecImpl for AssetInfo {
    open spec fn obeys_eq_spec() -> bool {
        true
    }

    open spec fn eq_spec(&self, other: &AssetInfo) -> bool {
        self.same_as(other)
    }
}

} // verus!
