use std::collections::HashMap;
use vstd::prelude::*;

verus! {

broadcast use vstd::std_specs::hash::group_hash_axioms;

/// A 160-bit value (an address or a public key hash), as its first four
/// bytes and its last sixteen bytes, big-endian.
#[derive(Clone, Copy, Debug, PartialEq, Eq, Structural)]
pub struct Hash160 {
    pub head: u32,
    pub tail: u128,
}

/// A ledger account: its address, nonce, public key hash and a balance per
/// token.
#[derive(Clone, Debug)]
pub struct Account {
    pub address: Hash160,
    pub nonce: u32,
    pub pub_key_hash: Hash160,
    pub balances: HashMap<u16, u128>,
}

/// The mathematical value of an `Account`.
pub struct AccountModel {
    pub address: Hash160,
    pub nonce: u32,
    pub pub_key_hash: Hash160,
    pub balances: Map<u16, u128>,
}

impl View for Account {
    type V = AccountModel;

    open spec fn view(&self) -> AccountModel {
        AccountModel {
            address: self.address,
            nonce: self.nonce,
            pub_key_hash: self.pub_key_hash,
            balances: self.balances@,
        }
    }
}

/// One account mutation of a state diff.
#[derive(Clone, Copy, Debug, PartialEq, Eq, Structural)]
pub enum AccountUpdate {
    Create { address: Hash160, nonce: u32 },
    Delete { address: Hash160, nonce: u32 },
    UpdateBalance { old_nonce: u32, new_nonce: u32, token: u16, old_balance: u128, new_balance: u128 },
    ChangePubKeyHash {
        old_pub_key_hash: Hash160,
        new_pub_key_hash: Hash160,
        old_nonce: u32,
        new_nonce: u32,
    },
}

/// Account mapping as a map of account models.
pub open spec fn accounts_model(m: Map<u32, Account>) -> Map<u32, AccountModel> {
    m.map_values(|a: Account| a@)
}

/// What one update makes of an account slot (`None`: no account).
/// A creation fills an empty slot and leaves an existing account as it is;
/// any other update of an empty slot leaves it empty.
pub open spec fn update_account(a: Option<AccountModel>, u: AccountUpdate) -> Option<AccountModel> {
    match a {
        Some(acc) => match u {
            AccountUpdate::Delete { .. } => None,
            AccountUpdate::UpdateBalance { new_nonce, token, new_balance, .. } => Some(
                AccountModel {
                    nonce: new_nonce,
                    balances: acc.balances.insert(token, new_balance),
                    ..acc
                },
            ),
            AccountUpdate::ChangePubKeyHash { new_pub_key_hash, new_nonce, .. } => Some(
                AccountModel { nonce: new_nonce, pub_key_hash: new_pub_key_hash, ..acc },
            ),
            AccountUpdate::Create { .. } => Some(acc),
        },
        None => match u {
            AccountUpdate::Create { address, nonce } => Some(
                AccountModel {
                    address,
                    nonce,
                    pub_key_hash: Hash160 { head: 0, tail: 0 },
                    balances: Map::empty(),
                },
            ),
            _ => None,
        },
    }
}

/// The mapping after one update of account `id`.
pub open spec fn apply_update_to(
    m: Map<u32, AccountModel>,
    id: u32,
    u: AccountUpdate,
) -> Map<u32, AccountModel> {
    let slot = if m.contains_key(id) {
        Some(m[id])
    } else {
        None
    };
    match update_account(slot, u) {
        Some(a) => m.insert(id, a),
        None => m.remove(id),
    }
}

/// The mapping after a state diff, whose updates apply in order.
pub open spec fn apply_diff(m: Map<u32, AccountModel>, d: Seq<(u32, AccountUpdate)>) -> Map<
    u32,
    AccountModel,
>
    decreases d.len(),
{
    if d.len() == 0 {
        m
    } else {
        apply_update_to(apply_diff(m, d.drop_last()), d.last().0, d.last().1)
    }
}

/// Applies one update to an account slot.
pub fn apply_update(a: Option<Account>, u: AccountUpdate) -> (r: Option<Account>)
    ensures
        match r {
            Some(acc) => update_account(
                match a {
                    Some(x) => Some(x@),
                    None => None,
                },
                u,
            ) == Some(acc@),
            None => update_account(
                match a {
                    Some(x) => Some(x@),
                    None => None,
                },
                u,
            ) is None,
        },
{
    match a {
        Some(mut acc) => match u {
            AccountUpdate::Delete { .. } => None,
            AccountUpdate::UpdateBalance { new_nonce, token, new_balance, .. } => {
                acc.balances.insert(token, new_balance);
                acc.nonce = new_nonce;
                Some(acc)
            },
            AccountUpdate::ChangePubKeyHash { new_pub_key_hash, new_nonce, .. } => {
                acc.pub_key_hash = new_pub_key_hash;
                acc.nonce = new_nonce;
                Some(acc)
            },
            AccountUpdate::Create { .. } => Some(acc),
        },
        None => match u {
            AccountUpdate::Create { address, nonce } => Some(
                Account { address, nonce, pub_key_hash: Hash160 { head: 0, tail: 0 }, balances: HashMap::new() },
            ),
            _ => None,
        },
    }
}

/// Applies the updates of a state diff, in order, to an account mapping.
pub fn apply_updates(accounts: &mut HashMap<u32, Account>, updates: Vec<(u32, AccountUpdate)>)
    ensures
        accounts_model(final(accounts)@) == apply_diff(accounts_model(old(accounts)@), updates@),
{
    let ghost m0 = accounts_model(accounts@);
    let mut i: usize = 0;
    while i < updates.len()
        invariant
            i <= updates.len(),
            accounts_model(accounts@) == apply_diff(m0, updates@.take(i as int)),
        decreases updates.len() - i,
    {
        let (id, u) = updates[i];
        let ghost before = accounts_model(accounts@);
        let slot = accounts.remove(&id);
        let next = apply_update(slot, u);
        match next {
            Some(acc) => {
                accounts.insert(id, acc);
            },
            None => {},
        }
        proof {
            assert(updates@.take(i + 1).drop_last() =~= updates@.take(i as int));
            assert(accounts_model(accounts@) =~= apply_update_to(before, id, u));
        }
        i = i + 1;
    }
    proof {
        assert(updates@.take(i as int) =~= updates@);
    }
}

/// Applying two consecutive diffs one after the other gives the mapping that
/// applying their concatenation at once gives: a cache advanced by diffs
/// holds what a full load at the final height holds.
pub proof fn lemma_apply_diff_concat(
    m: Map<u32, AccountModel>,
    d1: Seq<(u32, AccountUpdate)>,
    d2: Seq<(u32, AccountUpdate)>,
)
    ensures
        apply_diff(apply_diff(m, d1), d2) == apply_diff(m, d1 + d2),
    decreases d2.len(),
{
    if d2.len() == 0 {
        assert(d1 + d2 =~= d1);
    } else {
        lemma_apply_diff_concat(m, d1, d2.drop_last());
        assert((d1 + d2).drop_last() =~= d1 + d2.drop_last());
        assert((d1 + d2).last() == d2.last());
    }
}

/// A cache that holds the load at one height and is then advanced by the
/// diff up to a later height holds what a full load at that later height
/// holds, wherever storage's loads are the genesis mapping with all updates
/// up to their height applied.
pub proof fn lemma_cache_matches_reload(
    genesis: Map<u32, AccountModel>,
    before: Seq<(u32, AccountUpdate)>,
    diff: Seq<(u32, AccountUpdate)>,
    cached: Map<u32, AccountModel>,
    reload: Map<u32, AccountModel>,
)
    requires
        cached == apply_diff(genesis, before),
        reload == apply_diff(genesis, before + diff),
    ensures
        apply_diff(cached, diff) == reload,
{
    lemma_apply_diff_concat(genesis, before, diff);
}

/// What the cache asks of storage to reach a block height.
#[derive(Clone, Copy, Debug, PartialEq, Eq, Structural)]
pub enum StateRequest {
    /// Load the whole committed account mapping as of `height`.
    LoadCommitted { height: u32 },
    /// Load the updates between the cached height `from` and `to`.
    LoadDiff { from: u32, to: u32 },
}

/// The last reconstructed account mapping and the height it belongs to;
/// empty until the first load.
pub struct AccountStateCache {
    state: Option<(u32, HashMap<u32, Account>)>,
}

impl AccountStateCache {
    pub closed spec fn height(&self) -> Option<u32> {
        match self.state {
            Some((h, _)) => Some(h),
            None => None,
        }
    }

    /// The cached mapping (empty while the cache is empty).
    pub closed spec fn model(&self) -> Map<u32, AccountModel> {
        match self.state {
            Some((_, m)) => accounts_model(m@),
            None => Map::empty(),
        }
    }

    pub fn new() -> (r: Self)
        ensures
            r.height() is None,
    {
        AccountStateCache { state: None }
    }

    pub fn is_initialized(&self) -> (r: bool)
        ensures
            r == self.height() is Some,
    {
        self.state.is_some()
    }

    /// The cached height, if the cache holds a mapping.
    pub fn block(&self) -> (r: Option<u32>)
        ensures
            r == self.height(),
    {
        match &self.state {
            Some((h, _)) => Some(*h),
            None => None,
        }
    }

    /// The cached mapping, if there is one.
    pub fn accounts(&self) -> (r: Option<&HashMap<u32, Account>>)
        ensures
            r is Some == self.height() is Some,
            r matches Some(m) ==> accounts_model(m@) == self.model(),
    {
        match &self.state {
            Some((_, m)) => Some(m),
            None => None,
        }
    }

    /// What storage must provide to bring the cache to `new_block`: a full
    /// load while the cache is empty, a diff from the cached height after.
    pub fn next_request(&self, new_block: u32) -> (r: StateRequest)
        ensures
            match self.height() {
                None => r == (StateRequest::LoadCommitted { height: new_block }),
                Some(h) => r == (StateRequest::LoadDiff { from: h, to: new_block }),
            },
    {
        match &self.state {
            None => StateRequest::LoadCommitted { height: new_block },
            Some((h, _)) => StateRequest::LoadDiff { from: *h, to: new_block },
        }
    }

    /// Stores the result of the first, full load.
    pub fn on_committed_state(&mut self, block: u32, accounts: HashMap<u32, Account>)
        requires
            old(self).height() is None,
        ensures
            final(self).height() == Some(block),
            final(self).model() == accounts_model(accounts@),
    {
        self.state = Some((block, accounts));
    }

    /// Advances the cache with the diff storage returned for `new_block`:
    /// with a diff the mapping becomes the cached one with its updates
    /// applied, at `new_block`; without one the cache stays as it is.
    pub fn on_state_diff(&mut self, new_block: u32, diff: Option<(u32, Vec<(u32, AccountUpdate)>)>)
        requires
            old(self).height() matches Some(h) && h <= new_block,
        ensures
            match diff {
                Some((_, d)) => {
                    &&& final(self).height() == Some(new_block)
                    &&& final(self).model() == apply_diff(old(self).model(), d@)
                },
                None => final(self).height() == old(self).height() && final(self).model()
                    == old(self).model(),
            },
    {
        match diff {
            Some((_, d)) => {
                let mut next = match &self.state {
                    Some((_, m)) => m.clone(),
                    None => HashMap::new(),
                };
                apply_updates(&mut next, d);
                self.state = Some((new_block, next));
            },
            None => {},
        }
    }
}

} // verus!
