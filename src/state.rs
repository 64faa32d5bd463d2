//! The three records the escrow keeps: its configuration, the pending
//! withdrawal request, and the ledger of pushed token balances.
use vstd::prelude::*;

verus! {

/// The escrow's policy record, fixed at instantiation except for the two
/// addresses, which the override authority may change unless frozen.
#[derive(Debug, Clone, PartialEq, Eq)]
pub struct Config {
    pub enable_cw20_receive: bool,
    pub set_withdraw_as_immutable: bool,
    pub set_override_as_immutable: bool,
    pub withdraw_address: String,
    pub override_address: String,
    pub withdraw_delay_in_days: u64,
    pub native_denom: String,
}

/// A pending withdrawal request: claimable strictly after `ready_at`
/// (nanoseconds since the epoch), for `amount` of the asset named by
/// `denom_or_address` (a native denom or a token contract address).
#[derive(Debug, Clone, PartialEq, Eq)]
pub struct Withdrawal {
    pub ready_at: u64,
    pub denom_or_address: String,
    pub amount: u128,
}

/// The map that a sequence of (address, balance) entries denotes, a later
/// entry for an address standing over an earlier one.
pub open spec fn entries_map(s: Seq<(String, u128)>) -> Map<Seq<char>, u128>
    decreases s.len(),
{
    if s.len() == 0 {
        Map::empty()
    } else {
        entries_map(s.drop_last()).insert(s.last().0@, s.last().1)
    }
}

/// No address occurs in two entries.
pub open spec fn keys_unique(s: Seq<(String, u128)>) -> bool {
    forall|i: int, j: int| 0 <= i < j < s.len() ==> s[i].0@ != s[j].0@
}

proof fn lemma_entries_map_has(s: Seq<(String, u128)>, i: int)
    requires
        keys_unique(s),
        0 <= i < s.len(),
    ensures
        entries_map(s).contains_key(s[i].0@),
        entries_map(s)[s[i].0@] == s[i].1,
    decreases s.len(),
{
    if i < s.len() - 1 {
        lemma_entries_map_has(s.drop_last(), i);
    }
}

proof fn lemma_entries_map_lacks(s: Seq<(String, u128)>, k: Seq<char>)
    requires
        forall|i: int| 0 <= i < s.len() ==> s[i].0@ != k,
    ensures
        !entries_map(s).contains_key(k),
    decreases s.len(),
{
    if s.len() > 0 {
        lemma_entries_map_lacks(s.drop_last(), k);
    }
}

proof fn lemma_entries_map_update(s: Seq<(String, u128)>, i: int, v: u128)
    requires
        keys_unique(s),
        0 <= i < s.len(),
    ensures
        entries_map(s.update(i, (s[i].0, v))) == entries_map(s).insert(s[i].0@, v),
    decreases s.len(),
{
    let t = s.update(i, (s[i].0, v));
    if i == s.len() - 1 {
        assert(t.drop_last() =~= s.drop_last());
        assert(entries_map(t) =~= entries_map(s).insert(s[i].0@, v));
    } else {
        assert(t.drop_last() =~= s.drop_last().update(i, (s[i].0, v)));
        lemma_entries_map_update(s.drop_last(), i, v);
        assert(entries_map(t) =~= entries_map(s).insert(s[i].0@, v));
    }
}

/// Token balances held in custody, keyed by the token contract's address.
pub struct Balances {
    entries: Vec<(String, u128)>,
}

impl View for Balances {
    type V = Map<Seq<char>, u128>;

    closed spec fn view(&self) -> Map<Seq<char>, u128> {
        entries_map(self.entries@)
    }
}

impl Balances {
    pub closed spec fn wf(&self) -> bool {
        keys_unique(self.entries@)
    }

    /// A ledger with no entries.
    pub fn new() -> (r: Self)
        ensures
            r.wf(),
            r@ == Map::<Seq<char>, u128>::empty(),
    {
        Balances { entries: Vec::new() }
    }

    fn position(&self, address: &String) -> (r: Option<usize>)
        requires
            self.wf(),
        ensures
            match r {
                Some(i) => i < self.entries@.len() && self.entries@[i as int].0@ == address@,
                None => forall|i: int|
                    0 <= i < self.entries@.len() ==> self.entries@[i].0@ != address@,
            },
    {
        let mut i: usize = 0;
        while i < self.entries.len()
            invariant
                i <= self.entries@.len(),
                forall|j: int| 0 <= j < i ==> self.entries@[j].0@ != address@,
            decreases self.entries@.len() - i,
        {
            if self.entries[i].0 == *address {
                return Some(i);
            }
            i = i + 1;
        }
        None
    }

    /// The balance recorded for `address`, if it has an entry.
    pub fn get(&self, address: &String) -> (r: Option<u128>)
        requires
            self.wf(),
        ensures
            r == (if self@.contains_key(address@) {
                Some(self@[address@])
            } else {
                None::<u128>
            }),
    {
        match self.position(address) {
            Some(i) => {
                proof {
                    lemma_entries_map_has(self.entries@, i as int);
                }
                Some(self.entries[i].1)
            },
            None => {
                proof {
                    lemma_entries_map_lacks(self.entries@, address@);
                }
                None
            },
        }
    }

    /// Records `amount` as the balance of `address`, creating its entry if
    /// there is none.
    pub fn set(&mut self, address: String, amount: u128)
        requires
            old(self).wf(),
        ensures
            final(self).wf(),
            final(self)@ == old(self)@.insert(address@, amount),
    {
        match self.position(&address) {
            Some(i) => {
                proof {
                    lemma_entries_map_update(self.entries@, i as int, amount);
                }
                let key = self.entries[i].0.clone();
                self.entries.set(i, (key, amount));
            },
            None => {
                let ghost before = self.entries@;
                self.entries.push((address, amount));
                proof {
                    assert(self.entries@.drop_last() =~= before);
                }
            },
        }
    }
}

/// What the escrow holds: its configuration, the pending request if any,
/// and the ledger of received token balances.
pub struct State {
    pub config: Config,
    pub withdrawal: Option<Withdrawal>,
    pub cw20_balances: Balances,
}

/// The escrow's state as a value: the ledger seen as a map.
pub struct EscrowModel {
    pub config: Config,
    pub withdrawal: Option<Withdrawal>,
    pub balances: Map<Seq<char>, u128>,
}

impl View for State {
    type V = EscrowModel;

    open spec fn view(&self) -> EscrowModel {
        EscrowModel {
            config: self.config,
            withdrawal: self.withdrawal,
            balances: self.cw20_balances@,
        }
    }
}

impl State {
    pub open spec fn wf(&self) -> bool {
        self.cw20_balances.wf()
    }
}

} // verus!
