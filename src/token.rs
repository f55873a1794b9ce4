use vstd::prelude::*;

verus! {

/// Strkey of the placeholder account that the absence record names as its creator.
pub const PLACEHOLDER_CREATOR: &'static str = "GAAAAAAAAAAAAAAAAAAAAAAAAAAAAAAAAAAAAAAAAAAAAAAAAAAAAWHF";

/// Name carried by the absence record.
pub const NOT_FOUND_NAME: &'static str = "Not_Found";

/// Symbol carried by the absence record.
pub const NOT_FOUND_SYMBOL: &'static str = "N/A";

/// Metadata of one registered token.
///
/// `creator` is the account that registered the token, written as its strkey.
#[derive(Clone, Debug)]
pub struct TokenInfo {
    pub token_id: u64,
    pub name: String,
    pub symbol: String,
    pub total_supply: i128,
    pub creator: String,
    pub created_at: u64,
}

/// Storage key under which a token record is kept, by its id.
#[derive(Clone, Copy, Debug, PartialEq, Eq, Structural)]
pub enum TokenBook {
    Token(u64),
}

/// Why a registry operation was refused. A refused operation changes nothing.
#[derive(Clone, Copy, Debug, PartialEq, Eq, Structural)]
pub enum RegistryError {
    /// The supply given is zero or negative.
    InvalidSupply,
    /// No token is registered under the id given.
    NotFound,
    /// The caller is not the account that created the token.
    NotCreator,
}

/// The record that a lookup of an absent id yields: id 0, which no token has.
pub open spec fn is_absence_record(r: TokenInfo) -> bool {
    &&& r.token_id == 0
    &&& r.name@ == NOT_FOUND_NAME@
    &&& r.symbol@ == NOT_FOUND_SYMBOL@
    &&& r.total_supply == 0
    &&& r.creator@ == PLACEHOLDER_CREATOR@
    &&& r.created_at == 0
}

impl TokenBook {
    /// The id that this key names.
    pub fn token_id(&self) -> (r: u64)
        ensures
            *self == TokenBook::Token(r),
    {
        match self {
            TokenBook::Token(id) => *id,
        }
    }
}

impl TokenInfo {
    /// The record that stands for an absent token.
    pub fn absence_record() -> (r: TokenInfo)
        ensures
            is_absence_record(r),
    {
        TokenInfo {
            token_id: 0,
            name: NOT_FOUND_NAME.to_owned(),
            symbol: NOT_FOUND_SYMBOL.to_owned(),
            total_supply: 0,
            creator: PLACEHOLDER_CREATOR.to_owned(),
            created_at: 0,
        }
    }

    /// A field-by-field copy of the record.
    pub fn duplicate(&self) -> (r: TokenInfo)
        ensures
            r == *self,
    {
        TokenInfo {
            token_id: self.token_id,
            name: self.name.clone(),
            symbol: self.symbol.clone(),
            total_supply: self.total_supply,
            creator: self.creator.clone(),
            created_at: self.created_at,
        }
    }

    /// The key under which this record is stored.
    pub fn key(&self) -> (r: TokenBook)
        ensures
            r == TokenBook::Token(self.token_id),
    {
        TokenBook::Token(self.token_id)
    }
}

} // verus!
