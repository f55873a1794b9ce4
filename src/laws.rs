use vstd::prelude::*;

use crate::registry::{lemma_created_wf, RegistryView};
use crate::token::TokenInfo;

verus! {

/// The registry after each request `(creator, name, symbol, supply, time)` of
/// `reqs` is registered in turn, starting from `s`.
pub open spec fn register_all(s: RegistryView, reqs: Seq<(String, String, String, i128, u64)>) -> RegistryView
    decreases reqs.len(),
{
    if reqs.len() == 0 {
        s
    } else {
        let prev = register_all(s, reqs.drop_last());
        let q = reqs.last();
        prev.created(prev.new_record(q.0, q.1, q.2, q.3, q.4))
    }
}

/// After `n` registrations from an empty registry, the last id handed out and
/// the count are both `n`, and the ids in use are exactly `1..=n`.
pub proof fn lemma_register_all_counts(reqs: Seq<(String, String, String, i128, u64)>)
    requires
        reqs.len() < u64::MAX,
        forall|i: int| 0 <= i < reqs.len() ==> (#[trigger] reqs[i]).3 > 0,
    ensures
        register_all(RegistryView::empty(), reqs).wf(),
        register_all(RegistryView::empty(), reqs).next_id == reqs.len(),
        register_all(RegistryView::empty(), reqs).total_count == reqs.len(),
        forall|k: u64|
            #[trigger] register_all(RegistryView::empty(), reqs).tokens.contains_key(k) <==> 1 <= k
                <= reqs.len(),
    decreases reqs.len(),
{
    if reqs.len() > 0 {
        let init = reqs.drop_last();
        assert forall|i: int| 0 <= i < init.len() implies (#[trigger] init[i]).3 > 0 by {
            assert(init[i] == reqs[i]);
        }
        lemma_register_all_counts(init);
        let prev = register_all(RegistryView::empty(), init);
        let q = reqs.last();
        assert(q.3 > 0);
        lemma_created_wf(prev, prev.new_record(q.0, q.1, q.2, q.3, q.4));
    }
}

/// Registrations from an empty registry hand out the ids 1, 2, 3, ... in
/// order, with no gap and no repeat: the registration at position `i` takes
/// id `i + 1`. Afterwards the count of registrations equals both their number
/// and the last id handed out.
pub proof fn lemma_ids_count_up(reqs: Seq<(String, String, String, i128, u64)>)
    requires
        reqs.len() < u64::MAX,
        forall|i: int| 0 <= i < reqs.len() ==> (#[trigger] reqs[i]).3 > 0,
    ensures
        forall|i: int|
            0 <= i < reqs.len() ==> #[trigger] register_all(RegistryView::empty(), reqs.take(i)).next_id
                + 1 == i + 1,
        register_all(RegistryView::empty(), reqs).total_count == reqs.len(),
        register_all(RegistryView::empty(), reqs).next_id == reqs.len(),
{
    lemma_register_all_counts(reqs);
    assert forall|i: int| 0 <= i < reqs.len() implies #[trigger] register_all(
        RegistryView::empty(),
        reqs.take(i),
    ).next_id + 1 == i + 1 by {
        let pre = reqs.take(i);
        assert forall|j: int| 0 <= j < pre.len() implies (#[trigger] pre[j]).3 > 0 by {
            assert(pre[j] == reqs[j]);
        }
        lemma_register_all_counts(pre);
    }
}

/// A token read back after its registration is the record that was given:
/// its id, name, symbol, supply, creator and time of creation.
pub proof fn lemma_read_your_write(
    s: RegistryView,
    creator: String,
    name: String,
    symbol: String,
    total_supply: i128,
    created_at: u64,
)
    requires
        s.wf(),
        s.next_id < u64::MAX,
        total_supply > 0,
    ensures
        ({
            let id = (s.next_id + 1) as u64;
            let t = s.created(s.new_record(creator, name, symbol, total_supply, created_at));
            &&& t.tokens.contains_key(id)
            &&& t.tokens[id] == (TokenInfo {
                token_id: id,
                name,
                symbol,
                total_supply,
                creator,
                created_at,
            })
        }),
{
}

/// Setting the supply of a registered token changes its supply alone: its id,
/// name, symbol, creator and time of creation stay, as do all other tokens,
/// the last id and the count.
pub proof fn lemma_update_changes_supply_only(s: RegistryView, id: u64, total_supply: i128)
    requires
        s.wf(),
        s.tokens.contains_key(id),
        total_supply > 0,
    ensures
        ({
            let t = s.with_supply(id, total_supply);
            &&& t.wf()
            &&& t.next_id == s.next_id
            &&& t.total_count == s.total_count
            &&& t.tokens.contains_key(id)
            &&& t.tokens[id].total_supply == total_supply
            &&& t.tokens[id].token_id == s.tokens[id].token_id
            &&& t.tokens[id].name == s.tokens[id].name
            &&& t.tokens[id].symbol == s.tokens[id].symbol
            &&& t.tokens[id].creator == s.tokens[id].creator
            &&& t.tokens[id].created_at == s.tokens[id].created_at
            &&& forall|k: u64| k != id ==> #[trigger] t.tokens.contains_key(k) == s.tokens.contains_key(k)
                && t.tokens[k] == s.tokens[k]
        }),
{
    let t = s.with_supply(id, total_supply);
    assert forall|k: u64| #[trigger] t.tokens.contains_key(k) implies {
        &&& 1 <= k <= t.next_id
        &&& t.tokens[k].token_id == k
        &&& t.tokens[k].total_supply > 0
    } by {
        assert(s.tokens.contains_key(k));
    }
}

} // verus!
