use vstd::prelude::*;
use crate::state::{distinct, AccountState, Clock, SessionKey, UserAccount};

verus! {

impl AccountState {
    /// Removal of every record that is revoked or expired. The records that
    /// are still valid stay, in their order.
    pub open spec fn prune(self, clock: Clock) -> AccountState {
        AccountState {
            session_keys: self.session_keys.filter(|key: SessionKey| key.valid(clock)),
            ..self
        }
    }

    /// Pruning keeps the account's invariant.
    pub proof fn lemma_prune_preserves_wf(self, clock: Clock)
        requires
            self.wf(),
        ensures
            self.prune(clock).wf(),
    {
        let pred = |key: SessionKey| key.valid(clock);
        self.session_keys.lemma_filter_len(pred);
        lemma_filter_keeps_distinct(self.session_keys, pred);
    }
}

/// Dropping records never makes two identities meet.
proof fn lemma_filter_keeps_distinct(keys: Seq<SessionKey>, pred: spec_fn(SessionKey) -> bool)
    requires
        distinct(keys),
    ensures
        distinct(keys.filter(pred)),
    decreases keys.len(),
{
    reveal(Seq::filter);
    if keys.len() > 0 {
        let rest = keys.drop_last();
        let last = keys.last();
        let kept = rest.filter(pred);
        assert(distinct(rest)) by {
            assert forall|i: int, j: int| 0 <= i < j < rest.len() implies (#[trigger] rest[i]).pubkey
                != (#[trigger] rest[j]).pubkey by {
                assert(rest[i] == keys[i] && rest[j] == keys[j]);
            }
        }
        lemma_filter_keeps_distinct(rest, pred);
        if pred(last) {
            let out = kept.push(last);
            assert forall|i: int, j: int| 0 <= i < j < out.len() implies (#[trigger] out[i]).pubkey
                != (#[trigger] out[j]).pubkey by {
                if j == kept.len() {
                    assert(kept.contains(kept[i]));
                    rest.lemma_filter_contains_rev(pred, kept[i]);
                    let k = choose|k: int| 0 <= k < rest.len() && rest[k] == kept[i];
                    assert(keys[k] == kept[i]);
                    assert(keys[keys.len() - 1] == last);
                } else {
                    assert(out[i] == kept[i] && out[j] == kept[j]);
                }
            }
        }
    }
}

/// Clean up expired or revoked session keys to save space. Returns the
/// number of records removed.
pub fn handler(user_account: &mut UserAccount, clock: &Clock) -> (removed: usize)
    ensures
        final(user_account)@ == old(user_account)@.prune(*clock),
        removed == old(user_account)@.session_keys.len() - final(user_account)@.session_keys.len(),
        old(user_account)@.wf() ==> final(user_account)@.wf(),
{
    let ghost pred = |key: SessionKey| key.valid(*clock);
    let initial_count = user_account.session_keys.len();
    let mut kept: Vec<SessionKey> = Vec::new();
    let mut i: usize = 0;
    proof {
        reveal(Seq::filter);
        assert(user_account.session_keys@.take(0) =~= Seq::<SessionKey>::empty());
    }
    while i < initial_count
        invariant
            i <= initial_count,
            initial_count == user_account.session_keys.len(),
            *user_account == *old(user_account),
            pred == (|key: SessionKey| key.valid(*clock)),
            kept@ == user_account.session_keys@.take(i as int).filter(pred),
        decreases initial_count - i,
    {
        let key = user_account.session_keys[i];
        proof {
            let seen = user_account.session_keys@.take(i as int);
            seen.lemma_filter_push(key, pred);
            assert(user_account.session_keys@.take(i + 1) =~= seen.push(key));
        }
        if key.is_valid(clock) {
            kept.push(key);
        }
        i += 1;
    }
    proof {
        assert(user_account.session_keys@.take(initial_count as int) =~= user_account.session_keys@);
        user_account.session_keys@.lemma_filter_len(pred);
        if user_account@.wf() {
            user_account@.lemma_prune_preserves_wf(*clock);
        }
    }
    user_account.session_keys = kept;
    initial_count - user_account.session_keys.len()
}

} // verus!
