use vstd::prelude::*;

use std::collections::HashMap;

use crate::token::{is_absence_record, RegistryError, TokenInfo};

verus! {

broadcast use vstd::std_specs::hash::group_hash_axioms;

/// What a registry holds: the last id handed out, how many tokens were
/// registered, and the records by id.
pub struct RegistryView {
    pub next_id: u64,
    pub total_count: u64,
    pub tokens: Map<u64, TokenInfo>,
}

impl RegistryView {
    /// The registry before any token is registered.
    pub open spec fn empty() -> RegistryView {
        RegistryView { next_id: 0, total_count: 0, tokens: Map::empty() }
    }

    /// Every record sits under its own id, in `1..=next_id`, with a positive
    /// supply; the count of registrations equals the last id handed out.
    pub open spec fn wf(self) -> bool {
        &&& self.total_count == self.next_id
        &&& forall|k: u64| #[trigger]
            self.tokens.contains_key(k) ==> {
                &&& 1 <= k <= self.next_id
                &&& self.tokens[k].token_id == k
                &&& self.tokens[k].total_supply > 0
            }
    }

    /// The record that the next registration stores.
    pub open spec fn new_record(
        self,
        creator: String,
        name: String,
        symbol: String,
        total_supply: i128,
        created_at: u64,
    ) -> TokenInfo {
        TokenInfo {
            token_id: (self.next_id + 1) as u64,
            name,
            symbol,
            total_supply,
            creator,
            created_at,
        }
    }

    /// The registry after `record` is registered under a fresh id.
    pub open spec fn created(self, record: TokenInfo) -> RegistryView {
        RegistryView {
            next_id: (self.next_id + 1) as u64,
            total_count: (self.total_count + 1) as u64,
            tokens: self.tokens.insert(record.token_id, record),
        }
    }

    /// The registry after the supply of token `id` is set to `total_supply`.
    pub open spec fn with_supply(self, id: u64, total_supply: i128) -> RegistryView {
        RegistryView {
            tokens: self.tokens.insert(id, TokenInfo { total_supply, ..self.tokens[id] }),
            ..self
        }
    }
}

/// Registering a record under the id after the last one, with a positive
/// supply, keeps a well-formed registry well-formed.
pub proof fn lemma_created_wf(s: RegistryView, record: TokenInfo)
    requires
        s.wf(),
        s.next_id < u64::MAX,
        record.token_id == s.next_id + 1,
        record.total_supply > 0,
    ensures
        s.created(record).wf(),
{
    let t = s.created(record);
    assert forall|k: u64| #[trigger] t.tokens.contains_key(k) implies {
        &&& 1 <= k <= t.next_id
        &&& t.tokens[k].token_id == k
        &&& t.tokens[k].total_supply > 0
    } by {
        if k != record.token_id {
            assert(s.tokens.contains_key(k));
        }
    }
}

/// The token registry: an id counter, a count of registrations, and the
/// token records keyed by id.
pub struct BasicTokenCreator {
    next_id: u64,
    total_count: u64,
    records: HashMap<u64, TokenInfo>,
}

impl View for BasicTokenCreator {
    type V = RegistryView;

    closed spec fn view(&self) -> RegistryView {
        RegistryView {
            next_id: self.next_id,
            total_count: self.total_count,
            tokens: self.records@,
        }
    }
}

impl BasicTokenCreator {
    /// The registry invariant, over the abstract state.
    pub open spec fn wf(&self) -> bool {
        self@.wf()
    }

    /// An empty registry.
    pub fn new() -> (r: BasicTokenCreator)
        ensures
            r.wf(),
            r@ == RegistryView::empty(),
    {
        let r = BasicTokenCreator { next_id: 0, total_count: 0, records: HashMap::new() };
        assert(r@.tokens =~= Map::empty());
        r
    }

    /// A registry with the counters as persisted and no records loaded yet.
    /// Counters that disagree do not describe a registry.
    pub fn from_counters(next_id: u64, total_count: u64) -> (r: Option<BasicTokenCreator>)
        ensures
            r is Some <==> next_id == total_count,
            r matches Some(reg) ==> reg.wf() && reg@ == (RegistryView {
                next_id,
                total_count,
                tokens: Map::empty(),
            }),
    {
        if next_id != total_count {
            return None;
        }
        let r = BasicTokenCreator { next_id, total_count, records: HashMap::new() };
        assert(r@.tokens =~= Map::empty());
        Some(r)
    }

    /// Loads a persisted record into the registry. A record whose id lies
    /// outside `1..=next_id`, or whose supply is not positive, is refused and
    /// nothing changes.
    pub fn restore_token(&mut self, info: TokenInfo) -> (r: bool)
        requires
            old(self).wf(),
        ensures
            final(self).wf(),
            r == (1 <= info.token_id <= old(self)@.next_id && info.total_supply > 0),
            r ==> final(self)@ == (RegistryView {
                tokens: old(self)@.tokens.insert(info.token_id, info),
                ..old(self)@
            }),
            !r ==> final(self)@ == old(self)@,
    {
        if info.token_id == 0 || info.token_id > self.next_id || info.total_supply <= 0 {
            return false;
        }
        let ghost before = self@;
        self.records.insert(info.token_id, info);
        assert forall|k: u64| #[trigger] self@.tokens.contains_key(k) implies {
            &&& 1 <= k <= self@.next_id
            &&& self@.tokens[k].token_id == k
            &&& self@.tokens[k].total_supply > 0
        } by {
            if k != info.token_id {
                assert(before.tokens.contains_key(k));
            }
        }
        true
    }

    /// Registers a token created by `creator` at time `created_at` and returns
    /// its id, one past the last id handed out. A supply that is not positive
    /// is refused.
    pub fn create_token(
        &mut self,
        creator: String,
        name: String,
        symbol: String,
        total_supply: i128,
        created_at: u64,
    ) -> (r: Result<u64, RegistryError>)
        requires
            old(self).wf(),
            old(self)@.next_id < u64::MAX,
        ensures
            final(self).wf(),
            total_supply <= 0 ==> r == Err::<u64, RegistryError>(RegistryError::InvalidSupply)
                && final(self)@ == old(self)@,
            total_supply > 0 ==> r == Ok::<u64, RegistryError>((old(self)@.next_id + 1) as u64)
                && final(self)@ == old(self)@.created(
                old(self)@.new_record(creator, name, symbol, total_supply, created_at),
            ),
    {
        if total_supply <= 0 {
            return Err(RegistryError::InvalidSupply);
        }
        let token_id = self.next_id + 1;
        let record = TokenInfo {
            token_id,
            name,
            symbol,
            total_supply,
            creator,
            created_at,
        };
        proof {
            lemma_created_wf(self@, record);
        }
        self.records.insert(token_id, record);
        self.next_id = token_id;
        self.total_count = self.total_count + 1;
        Ok(token_id)
    }

    /// The record of token `token_id`, or the absence record where no token
    /// has that id.
    pub fn get_token_info(&self, token_id: u64) -> (r: TokenInfo)
        ensures
            self@.tokens.contains_key(token_id) ==> r == self@.tokens[token_id],
            !self@.tokens.contains_key(token_id) ==> is_absence_record(r),
    {
        match self.records.get(&token_id) {
            Some(info) => info.duplicate(),
            None => TokenInfo::absence_record(),
        }
    }

    /// How many tokens were registered.
    pub fn get_total_tokens(&self) -> (r: u64)
        ensures
            r == self@.total_count,
    {
        self.total_count
    }

    /// Sets the supply of token `token_id` on behalf of `creator`. Refused,
    /// in this order, where the new supply is not positive, where no token has
    /// that id, and where `creator` did not create it.
    pub fn update_supply(
        &mut self,
        token_id: u64,
        creator: String,
        new_supply: i128,
    ) -> (r: Result<(), RegistryError>)
        requires
            old(self).wf(),
        ensures
            final(self).wf(),
            new_supply <= 0 ==> r == Err::<(), RegistryError>(RegistryError::InvalidSupply),
            new_supply > 0 && !old(self)@.tokens.contains_key(token_id) ==> r == Err::<
                (),
                RegistryError,
            >(RegistryError::NotFound),
            new_supply > 0 && old(self)@.tokens.contains_key(token_id)
                && old(self)@.tokens[token_id].creator@ != creator@ ==> r == Err::<
                (),
                RegistryError,
            >(RegistryError::NotCreator),
            new_supply > 0 && old(self)@.tokens.contains_key(token_id)
                && old(self)@.tokens[token_id].creator@ == creator@ ==> r == Ok::<
                (),
                RegistryError,
            >(()),
            r is Ok ==> final(self)@ == old(self)@.with_supply(token_id, new_supply),
            r is Err ==> final(self)@ == old(self)@,
    {
        if new_supply <= 0 {
            return Err(RegistryError::InvalidSupply);
        }
        let mut info = self.get_token_info(token_id);
        if info.token_id == 0 {
            return Err(RegistryError::NotFound);
        }
        if info.creator != creator {
            return Err(RegistryError::NotCreator);
        }
        info.total_supply = new_supply;
        self.records.insert(token_id, info);
        assert(self@.tokens =~= old(self)@.with_supply(token_id, new_supply).tokens);
        Ok(())
    }
}

} // verus!
