//! Simulation request model: a builder for one transaction simulation with
//! per-account state overrides (balance, code, storage slots), and an ordered
//! bundle of such requests whose sequence order is part of the contract.

use vstd::prelude::*;
use crate::codec::wei_hex;
use crate::codec::encode_wei;
use crate::text::str_eq;

verus! {

/// One overridden storage slot of one account.
#[derive(Debug, Clone)]
pub struct StorageEntry {
    pub slot: String,
    pub value: String,
}

/// The mapping written by a list of storage overrides; a later entry for the
/// same slot wins.
pub open spec fn storage_map_of(s: Seq<StorageEntry>) -> Map<Seq<char>, Seq<char>>
    decreases s.len(),
{
    if s.len() == 0 {
        Map::empty()
    } else {
        storage_map_of(s.drop_last()).insert(s.last().slot@, s.last().value@)
    }
}

proof fn lemma_storage_map_contains(s: Seq<StorageEntry>, k: Seq<char>)
    ensures
        storage_map_of(s).contains_key(k) <==> exists|i: int|
            0 <= i < s.len() && (#[trigger] s[i]).slot@ == k,
    decreases s.len(),
{
    if s.len() > 0 {
        lemma_storage_map_contains(s.drop_last(), k);
        if exists|i: int| 0 <= i < s.len() && (#[trigger] s[i]).slot@ == k {
            let i = choose|i: int| 0 <= i < s.len() && (#[trigger] s[i]).slot@ == k;
            if i < s.len() - 1 {
                assert(s.drop_last()[i] == s[i]);
                assert(exists|j: int|
                    0 <= j < s.drop_last().len() && (#[trigger] s.drop_last()[j]).slot@ == k);
            }
        }
        if storage_map_of(s).contains_key(k) && s.last().slot@ != k {
            assert(storage_map_of(s.drop_last()).contains_key(k));
            let j = choose|j: int|
                0 <= j < s.drop_last().len() && (#[trigger] s.drop_last()[j]).slot@ == k;
            assert(s[j].slot@ == k);
        }
    }
}

proof fn lemma_storage_map_last_match(s: Seq<StorageEntry>, k: Seq<char>, i: int)
    requires
        0 <= i < s.len(),
        s[i].slot@ == k,
        forall|j: int| i < j < s.len() ==> (#[trigger] s[j]).slot@ != k,
    ensures
        storage_map_of(s).contains_key(k),
        storage_map_of(s)[k] == s[i].value@,
    decreases s.len(),
{
    if i == s.len() - 1 {
    } else {
        assert(s.drop_last()[i] == s[i]);
        lemma_storage_map_last_match(s.drop_last(), k, i);
        assert(s.last().slot@ != k);
    }
}

/// What one account's override says, as a mathematical value.
pub ghost struct AccountModel {
    pub balance: Option<Seq<char>>,
    pub code: Option<Seq<char>>,
    pub storage: Map<Seq<char>, Seq<char>>,
}

/// The override with a balance set on top of `acc`.
pub open spec fn with_balance(acc: AccountModel, b: Seq<char>) -> AccountModel {
    AccountModel { balance: Some(b), code: acc.code, storage: acc.storage }
}

/// The override with replacement code set on top of `acc`.
pub open spec fn with_code(acc: AccountModel, c: Seq<char>) -> AccountModel {
    AccountModel { balance: acc.balance, code: Some(c), storage: acc.storage }
}

/// The override with one more storage slot written on top of `acc`.
pub open spec fn with_storage_slot(acc: AccountModel, slot: Seq<char>, value: Seq<char>) -> AccountModel {
    AccountModel { balance: acc.balance, code: acc.code, storage: acc.storage.insert(slot, value) }
}

/// The accumulated override of one account: balance, code, and storage slots
/// may each be set independently; unset parts leave the account untouched.
#[derive(Debug, Clone)]
pub struct AccountOverride {
    pub balance: Option<String>,
    pub code: Option<String>,
    pub storage: Vec<StorageEntry>,
}

impl AccountOverride {
    /// The override that touches nothing.
    pub open spec fn empty_model() -> AccountModel {
        AccountModel { balance: None, code: None, storage: Map::empty() }
    }

    pub open spec fn model(&self) -> AccountModel {
        AccountModel {
            balance: match self.balance {
                Some(b) => Some(b@),
                None => None,
            },
            code: match self.code {
                Some(c) => Some(c@),
                None => None,
            },
            storage: storage_map_of(self.storage@),
        }
    }

    /// The value this override writes to a storage slot, if any; when a slot
    /// was written more than once the last write wins.
    pub fn storage_value(&self, slot: &str) -> (r: Option<&String>)
        ensures
            match r {
                Some(v) => self.model().storage.contains_key(slot@) && v@ == self.model().storage[slot@],
                None => !self.model().storage.contains_key(slot@),
            },
    {
        let n = self.storage.len();
        let mut i = n;
        while i > 0
            invariant
                i <= n,
                n == self.storage@.len(),
                forall|j: int| i <= j < n ==> (#[trigger] self.storage@[j]).slot@ != slot@,
            decreases i,
        {
            i = i - 1;
            if str_eq(self.storage[i].slot.as_str(), slot) {
                proof {
                    lemma_storage_map_last_match(self.storage@, slot@, i as int);
                }
                return Some(&self.storage[i].value);
            }
        }
        proof {
            lemma_storage_map_contains(self.storage@, slot@);
        }
        None
    }
}

/// One address with its accumulated override.
#[derive(Debug, Clone)]
pub struct AccountEntry {
    pub address: String,
    pub account: AccountOverride,
}

/// The mapping written by a list of per-address overrides; a later entry for
/// the same address wins.
pub open spec fn account_map_of(s: Seq<AccountEntry>) -> Map<Seq<char>, AccountModel>
    decreases s.len(),
{
    if s.len() == 0 {
        Map::empty()
    } else {
        account_map_of(s.drop_last()).insert(s.last().address@, s.last().account.model())
    }
}

/// Address keys are pairwise distinct, so each address has one entry.
pub open spec fn account_keys_distinct(s: Seq<AccountEntry>) -> bool {
    forall|i: int, j: int|
        0 <= i < j < s.len() ==> (#[trigger] s[i]).address@ != (#[trigger] s[j]).address@
}

proof fn lemma_account_map_contains(s: Seq<AccountEntry>, k: Seq<char>)
    ensures
        account_map_of(s).contains_key(k) <==> exists|i: int|
            0 <= i < s.len() && (#[trigger] s[i]).address@ == k,
    decreases s.len(),
{
    if s.len() > 0 {
        lemma_account_map_contains(s.drop_last(), k);
        if exists|i: int| 0 <= i < s.len() && (#[trigger] s[i]).address@ == k {
            let i = choose|i: int| 0 <= i < s.len() && (#[trigger] s[i]).address@ == k;
            if i < s.len() - 1 {
                assert(s.drop_last()[i] == s[i]);
                assert(exists|j: int|
                    0 <= j < s.drop_last().len() && (#[trigger] s.drop_last()[j]).address@ == k);
            }
        }
        if account_map_of(s).contains_key(k) && s.last().address@ != k {
            assert(account_map_of(s.drop_last()).contains_key(k));
            let j = choose|j: int|
                0 <= j < s.drop_last().len() && (#[trigger] s.drop_last()[j]).address@ == k;
            assert(s[j].address@ == k);
        }
    }
}

proof fn lemma_account_map_last_match(s: Seq<AccountEntry>, k: Seq<char>, i: int)
    requires
        0 <= i < s.len(),
        s[i].address@ == k,
        forall|j: int| i < j < s.len() ==> (#[trigger] s[j]).address@ != k,
    ensures
        account_map_of(s).contains_key(k),
        account_map_of(s)[k] == s[i].account.model(),
    decreases s.len(),
{
    if i == s.len() - 1 {
    } else {
        assert(s.drop_last()[i] == s[i]);
        lemma_account_map_last_match(s.drop_last(), k, i);
        assert(s.last().address@ != k);
    }
}

proof fn lemma_account_map_update(s: Seq<AccountEntry>, i: int, e: AccountEntry)
    requires
        account_keys_distinct(s),
        0 <= i < s.len(),
        e.address@ == s[i].address@,
    ensures
        account_map_of(s.update(i, e)) == account_map_of(s).insert(e.address@, e.account.model()),
        account_keys_distinct(s.update(i, e)),
    decreases s.len(),
{
    let t = s.update(i, e);
    assert(account_keys_distinct(t)) by {
        assert(forall|p: int, q: int|
            0 <= p < q < t.len() ==> (#[trigger] t[p]).address@ != (#[trigger] t[q]).address@) by {
            assert(forall|p: int| 0 <= p < t.len() ==> (#[trigger] t[p]).address@ == s[p].address@);
        }
    }
    if i == s.len() - 1 {
        assert(t.drop_last() =~= s.drop_last());
        assert(t.last() == e);
        assert(account_map_of(t) =~= account_map_of(s).insert(e.address@, e.account.model()));
    } else {
        assert(t.drop_last() =~= s.drop_last().update(i, e));
        assert(t.last() == s.last());
        assert(forall|p: int, q: int|
            0 <= p < q < s.drop_last().len() ==> (#[trigger] s.drop_last()[p]).address@ != (
            #[trigger] s.drop_last()[q]).address@) by {
            assert(forall|p: int|
                0 <= p < s.drop_last().len() ==> (#[trigger] s.drop_last()[p]) == s[p]);
        }
        assert(s.drop_last()[i] == s[i]);
        lemma_account_map_update(s.drop_last(), i, e);
        assert(s.last().address@ != e.address@);
        assert(account_map_of(t) =~= account_map_of(s).insert(e.address@, e.account.model()));
    }
}

/// The per-address override with address `a` in `m`, or the override that
/// touches nothing when `a` has none yet.
pub open spec fn override_at(m: Map<Seq<char>, AccountModel>, a: Seq<char>) -> AccountModel {
    if m.contains_key(a) {
        m[a]
    } else {
        AccountOverride::empty_model()
    }
}

/// The state overrides of one simulation request, keyed by the address string
/// exactly as the caller gave it: two spellings of one address in different
/// letter cases stay two distinct entries.
#[derive(Debug, Clone)]
pub struct StateOverrides {
    pub entries: Vec<AccountEntry>,
}

impl StateOverrides {
    /// Each address holds at most one entry; override calls accumulate into
    /// it rather than adding a second one.
    pub open spec fn wf(&self) -> bool {
        account_keys_distinct(self.entries@)
    }

    pub open spec fn model(&self) -> Map<Seq<char>, AccountModel> {
        account_map_of(self.entries@)
    }

    /// No address overridden.
    pub fn new() -> (r: Self)
        ensures
            r.wf(),
            r.model() == Map::<Seq<char>, AccountModel>::empty(),
    {
        StateOverrides { entries: Vec::new() }
    }

    /// Whether any override was recorded for `address` (letter case exact).
    pub fn contains_key(&self, address: &str) -> (r: bool)
        ensures
            r == self.model().contains_key(address@),
    {
        proof {
            lemma_account_map_contains(self.entries@, address@);
        }
        let n = self.entries.len();
        for i in 0..n
            invariant
                n == self.entries@.len(),
                forall|j: int| 0 <= j < i ==> (#[trigger] self.entries@[j]).address@ != address@,
        {
            if str_eq(self.entries[i].address.as_str(), address) {
                proof {
                    lemma_account_map_contains(self.entries@, address@);
                    assert(exists|j: int|
                        0 <= j < self.entries@.len() && (#[trigger] self.entries@[j]).address@
                            == address@);
                }
                return true;
            }
        }
        false
    }

    /// The override recorded for `address`, if any.
    pub fn get(&self, address: &str) -> (r: Option<&AccountOverride>)
        ensures
            match r {
                Some(a) => self.model().contains_key(address@) && a.model()
                    == self.model().index(address@),
                None => !self.model().contains_key(address@),
            },
    {
        let n = self.entries.len();
        let mut i = n;
        while i > 0
            invariant
                i <= n,
                n == self.entries@.len(),
                forall|j: int| i <= j < n ==> (#[trigger] self.entries@[j]).address@ != address@,
            decreases i,
        {
            i = i - 1;
            if str_eq(self.entries[i].address.as_str(), address) {
                proof {
                    lemma_account_map_last_match(self.entries@, address@, i as int);
                }
                return Some(&self.entries[i].account);
            }
        }
        proof {
            lemma_account_map_contains(self.entries@, address@);
        }
        None
    }

    fn find_index(&self, address: &str) -> (r: Option<usize>)
        ensures
            match r {
                Some(i) => i < self.entries@.len() && self.entries@[i as int].address@ == address@,
                None => forall|j: int|
                    0 <= j < self.entries@.len() ==> (#[trigger] self.entries@[j]).address@
                        != address@,
            },
    {
        let n = self.entries.len();
        for i in 0..n
            invariant
                n == self.entries@.len(),
                forall|j: int| 0 <= j < i ==> (#[trigger] self.entries@[j]).address@ != address@,
        {
            if str_eq(self.entries[i].address.as_str(), address) {
                return Some(i);
            }
        }
        None
    }

    fn upsert_balance(&mut self, address: &str, balance: String)
        requires
            old(self).wf(),
        ensures
            final(self).wf(),
            final(self).model() == old(self).model().insert(
                address@,
                with_balance(override_at(old(self).model(), address@), balance@),
            ),
    {
        proof {
            lemma_account_map_contains(old(self).entries@, address@);
        }
        match self.find_index(address) {
            Some(i) => {
                proof {
                    lemma_account_map_last_match(self.entries@, address@, i as int);
                }
                let e = &mut self.entries[i];
                e.account.balance = Some(balance);
                proof {
                    lemma_account_map_update(
                        old(self).entries@,
                        i as int,
                        self.entries@[i as int],
                    );
                }
            },
            None => {
                let entry = AccountEntry {
                    address: address.to_owned(),
                    account: AccountOverride { balance: Some(balance), code: None, storage: Vec::new() },
                };
                self.entries.push(entry);
                proof {
                    assert(self.entries@.drop_last() =~= old(self).entries@);
                    assert(account_keys_distinct(self.entries@)) by {
                        assert(forall|p: int|
                            0 <= p < old(self).entries@.len() ==> (#[trigger] self.entries@[p])
                                == old(self).entries@[p]);
                    }
                    assert(final(self).model() =~= old(self).model().insert(
                        address@,
                        with_balance(override_at(old(self).model(), address@), balance@),
                    ));
                }
            },
        }
    }

    fn upsert_code(&mut self, address: &str, code: String)
        requires
            old(self).wf(),
        ensures
            final(self).wf(),
            final(self).model() == old(self).model().insert(
                address@,
                with_code(override_at(old(self).model(), address@), code@),
            ),
    {
        proof {
            lemma_account_map_contains(old(self).entries@, address@);
        }
        match self.find_index(address) {
            Some(i) => {
                proof {
                    lemma_account_map_last_match(self.entries@, address@, i as int);
                }
                let e = &mut self.entries[i];
                e.account.code = Some(code);
                proof {
                    lemma_account_map_update(
                        old(self).entries@,
                        i as int,
                        self.entries@[i as int],
                    );
                }
            },
            None => {
                let entry = AccountEntry {
                    address: address.to_owned(),
                    account: AccountOverride { balance: None, code: Some(code), storage: Vec::new() },
                };
                self.entries.push(entry);
                proof {
                    assert(self.entries@.drop_last() =~= old(self).entries@);
                    assert(account_keys_distinct(self.entries@)) by {
                        assert(forall|p: int|
                            0 <= p < old(self).entries@.len() ==> (#[trigger] self.entries@[p])
                                == old(self).entries@[p]);
                    }
                    assert(final(self).model() =~= old(self).model().insert(
                        address@,
                        with_code(override_at(old(self).model(), address@), code@),
                    ));
                }
            },
        }
    }

    fn upsert_storage(&mut self, address: &str, slot: String, value: String)
        requires
            old(self).wf(),
        ensures
            final(self).wf(),
            final(self).model() == old(self).model().insert(
                address@,
                with_storage_slot(override_at(old(self).model(), address@), slot@, value@),
            ),
    {
        proof {
            lemma_account_map_contains(old(self).entries@, address@);
        }
        match self.find_index(address) {
            Some(i) => {
                proof {
                    lemma_account_map_last_match(self.entries@, address@, i as int);
                }
                let e = &mut self.entries[i];
                e.account.storage.push(StorageEntry { slot, value });
                proof {
                    assert(self.entries@[i as int].account.storage@.drop_last() =~= old(
                        self,
                    ).entries@[i as int].account.storage@);
                    lemma_account_map_update(
                        old(self).entries@,
                        i as int,
                        self.entries@[i as int],
                    );
                }
            },
            None => {
                let ghost slot_v = slot@;
                let ghost value_v = value@;
                let mut storage: Vec<StorageEntry> = Vec::new();
                storage.push(StorageEntry { slot, value });
                proof {
                    assert(storage@.drop_last() =~= Seq::<StorageEntry>::empty());
                    assert(storage_map_of(Seq::<StorageEntry>::empty()) == Map::<
                        Seq<char>,
                        Seq<char>,
                    >::empty());
                    assert(storage@.last().slot@ == slot_v && storage@.last().value@ == value_v);
                    assert(storage_map_of(storage@) =~= Map::<Seq<char>, Seq<char>>::empty().insert(
                        slot_v,
                        value_v,
                    ));
                }
                let entry = AccountEntry {
                    address: address.to_owned(),
                    account: AccountOverride { balance: None, code: None, storage },
                };
                self.entries.push(entry);
                proof {
                    assert(self.entries@.drop_last() =~= old(self).entries@);
                    assert(account_keys_distinct(self.entries@)) by {
                        assert(forall|p: int|
                            0 <= p < old(self).entries@.len() ==> (#[trigger] self.entries@[p])
                                == old(self).entries@[p]);
                    }
                    assert(self.entries@.last().account.model().storage
                        =~= AccountOverride::empty_model().storage.insert(slot_v, value_v));
                    assert(final(self).model() =~= old(self).model().insert(
                        address@,
                        with_storage_slot(
                            override_at(old(self).model(), address@),
                            slot_v,
                            value_v,
                        ),
                    ));
                }
            },
        }
    }
}

/// What one simulation request says, as a mathematical value.
pub ghost struct SimulationModel {
    pub from: Seq<char>,
    pub to: Seq<char>,
    pub input: Seq<char>,
    pub network_id: Seq<char>,
    pub value: Option<Seq<char>>,
    pub gas: Option<u64>,
    pub gas_price: Option<u64>,
    pub block_number: Option<u64>,
    pub save: bool,
    pub state_objects: Option<Map<Seq<char>, AccountModel>>,
}

/// The state-override map of `m`, treating "no overrides yet" as empty.
pub open spec fn state_map_or_empty(m: SimulationModel) -> Map<Seq<char>, AccountModel> {
    match m.state_objects {
        Some(s) => s,
        None => Map::empty(),
    }
}

/// A request to simulate one transaction: sender, recipient and calldata are
/// required; everything else is optional and set through the builder methods.
/// Nothing is validated locally; the service is the authority on addresses,
/// hex strings and amounts.
#[derive(Debug, Clone)]
pub struct SimulationRequest {
    pub from: String,
    pub to: String,
    pub input: String,
    /// Network to simulate on; empty until set, and then sent verbatim.
    pub network_id: String,
    /// Transaction value as a canonical hex wei string.
    pub value: Option<String>,
    pub gas: Option<u64>,
    pub gas_price: Option<u64>,
    pub block_number: Option<u64>,
    pub save: bool,
    pub state_objects: Option<StateOverrides>,
}

impl SimulationRequest {
    pub open spec fn wf(&self) -> bool {
        match self.state_objects {
            Some(so) => so.wf(),
            None => true,
        }
    }

    pub open spec fn model(&self) -> SimulationModel {
        SimulationModel {
            from: self.from@,
            to: self.to@,
            input: self.input@,
            network_id: self.network_id@,
            value: match self.value {
                Some(v) => Some(v@),
                None => None,
            },
            gas: self.gas,
            gas_price: self.gas_price,
            block_number: self.block_number,
            save: self.save,
            state_objects: match self.state_objects {
                Some(so) => Some(so.model()),
                None => None,
            },
        }
    }

    /// A fresh request: no value, no gas, no block number, no overrides, not
    /// saved.
    pub fn new(from: &str, to: &str, input: &str) -> (r: Self)
        ensures
            r.wf(),
            r.model() == (SimulationModel {
                from: from@,
                to: to@,
                input: input@,
                network_id: Seq::<char>::empty(),
                value: None,
                gas: None,
                gas_price: None,
                block_number: None,
                save: false,
                state_objects: None,
            }),
    {
        SimulationRequest {
            from: from.to_owned(),
            to: to.to_owned(),
            input: input.to_owned(),
            network_id: String::new(),
            value: None,
            gas: None,
            gas_price: None,
            block_number: None,
            save: false,
            state_objects: None,
        }
    }

    /// Sets the network to simulate on.
    pub fn network_id(self, network_id: &str) -> (r: Self)
        ensures
            r.wf() == self.wf(),
            r.model() == (SimulationModel { network_id: network_id@, ..self.model() }),
    {
        SimulationRequest { network_id: network_id.to_owned(), ..self }
    }

    /// Sets the transaction value from an integral wei amount, stored as the
    /// canonical hex string.
    pub fn value_wei(self, wei: u128) -> (r: Self)
        ensures
            r.wf() == self.wf(),
            r.model() == (SimulationModel { value: Some(wei_hex(wei as nat)), ..self.model() }),
    {
        let v = encode_wei(wei);
        SimulationRequest { value: Some(v), ..self }
    }

    /// Sets the gas limit.
    pub fn gas(self, gas: u64) -> (r: Self)
        ensures
            r.wf() == self.wf(),
            r.model() == (SimulationModel { gas: Some(gas), ..self.model() }),
    {
        SimulationRequest { gas: Some(gas), ..self }
    }

    /// Sets the gas price for legacy transactions.
    pub fn gas_price(self, gas_price: u64) -> (r: Self)
        ensures
            r.wf() == self.wf(),
            r.model() == (SimulationModel { gas_price: Some(gas_price), ..self.model() }),
    {
        SimulationRequest { gas_price: Some(gas_price), ..self }
    }

    /// Sets the block to simulate at; unset means the latest block.
    pub fn block_number(self, block_number: u64) -> (r: Self)
        ensures
            r.wf() == self.wf(),
            r.model() == (SimulationModel { block_number: Some(block_number), ..self.model() }),
    {
        SimulationRequest { block_number: Some(block_number), ..self }
    }

    /// Sets whether the service keeps the simulation for later retrieval.
    pub fn save(self, save: bool) -> (r: Self)
        ensures
            r.wf() == self.wf(),
            r.model() == (SimulationModel { save: save, ..self.model() }),
    {
        SimulationRequest { save, ..self }
    }

    /// Overrides the balance of `address` for this simulation. The address
    /// string is the key exactly as given; repeated overrides for one address
    /// accumulate into one entry.
    pub fn override_balance(self, address: &str, balance: &str) -> (r: Self)
        requires
            self.wf(),
        ensures
            r.wf(),
            r.model() == (SimulationModel {
                state_objects: Some(
                    state_map_or_empty(self.model()).insert(
                        address@,
                        with_balance(
                            override_at(state_map_or_empty(self.model()), address@),
                            balance@,
                        ),
                    ),
                ),
                ..self.model()
            }),
    {
        let SimulationRequest {
            from,
            to,
            input,
            network_id,
            value,
            gas,
            gas_price,
            block_number,
            save,
            state_objects,
        } = self;
        let mut so = match state_objects {
            Some(s) => s,
            None => StateOverrides::new(),
        };
        so.upsert_balance(address, balance.to_owned());
        SimulationRequest {
            from,
            to,
            input,
            network_id,
            value,
            gas,
            gas_price,
            block_number,
            save,
            state_objects: Some(so),
        }
    }

    /// Overrides the deployed code of `address` for this simulation.
    pub fn override_code(self, address: &str, code: &str) -> (r: Self)
        requires
            self.wf(),
        ensures
            r.wf(),
            r.model() == (SimulationModel {
                state_objects: Some(
                    state_map_or_empty(self.model()).insert(
                        address@,
                        with_code(override_at(state_map_or_empty(self.model()), address@), code@),
                    ),
                ),
                ..self.model()
            }),
    {
        let SimulationRequest {
            from,
            to,
            input,
            network_id,
            value,
            gas,
            gas_price,
            block_number,
            save,
            state_objects,
        } = self;
        let mut so = match state_objects {
            Some(s) => s,
            None => StateOverrides::new(),
        };
        so.upsert_code(address, code.to_owned());
        SimulationRequest {
            from,
            to,
            input,
            network_id,
            value,
            gas,
            gas_price,
            block_number,
            save,
            state_objects: Some(so),
        }
    }

    /// Overrides one storage slot of `address` for this simulation. Distinct
    /// slots accumulate; writing one slot twice keeps the later value.
    pub fn override_storage(self, address: &str, slot: &str, value: &str) -> (r: Self)
        requires
            self.wf(),
        ensures
            r.wf(),
            r.model() == (SimulationModel {
                state_objects: Some(
                    state_map_or_empty(self.model()).insert(
                        address@,
                        with_storage_slot(
                            override_at(state_map_or_empty(self.model()), address@),
                            slot@,
                            value@,
                        ),
                    ),
                ),
                ..self.model()
            }),
    {
        let SimulationRequest {
            from,
            to,
            input,
            network_id,
            value: value_field,
            gas,
            gas_price,
            block_number,
            save,
            state_objects,
        } = self;
        let mut so = match state_objects {
            Some(s) => s,
            None => StateOverrides::new(),
        };
        so.upsert_storage(address, slot.to_owned(), value.to_owned());
        SimulationRequest {
            from,
            to,
            input,
            network_id,
            value: value_field,
            gas,
            gas_price,
            block_number,
            save,
            state_objects: Some(so),
        }
    }
}

/// An ordered bundle of transactions simulated as one atomic sequence: the
/// transaction at index `i` observes the state written by those before it, so
/// the sequence order is part of the contract, never an implementation
/// detail. The client submits the whole sequence in one request and makes no
/// assumption about early termination when one transaction reverts.
#[derive(Debug, Clone)]
pub struct BundleSimulationRequest {
    /// The transactions, in execution order.
    pub simulations: Vec<SimulationRequest>,
    /// Network shared by the whole bundle; empty until set.
    pub network_id: String,
    /// Block shared by the whole bundle; unset means the latest block.
    pub block_number: Option<u64>,
}

impl BundleSimulationRequest {
    pub open spec fn models(&self) -> Seq<SimulationModel> {
        self.simulations@.map(|i: int, r: SimulationRequest| r.model())
    }

    /// A bundle of the given transactions, kept exactly in the given order.
    pub fn new(simulations: Vec<SimulationRequest>) -> (r: Self)
        ensures
            r.simulations@ == simulations@,
            r.models() =~= simulations@.map(|i: int, t: SimulationRequest| t.model()),
            r.network_id@ == Seq::<char>::empty(),
            r.block_number is None,
    {
        BundleSimulationRequest { simulations, network_id: String::new(), block_number: None }
    }

    /// Appends one transaction at the end of the bundle; every transaction
    /// already in the bundle runs before it.
    pub fn add(self, simulation: SimulationRequest) -> (r: Self)
        ensures
            r.simulations@ == self.simulations@.push(simulation),
            r.network_id == self.network_id,
            r.block_number == self.block_number,
    {
        let BundleSimulationRequest { mut simulations, network_id, block_number } = self;
        simulations.push(simulation);
        BundleSimulationRequest { simulations, network_id, block_number }
    }

    /// Sets the network shared by the whole bundle.
    pub fn network_id(self, network_id: &str) -> (r: Self)
        ensures
            r.simulations@ == self.simulations@,
            r.network_id@ == network_id@,
            r.block_number == self.block_number,
    {
        BundleSimulationRequest { network_id: network_id.to_owned(), ..self }
    }

    /// Sets the block shared by the whole bundle.
    pub fn block_number(self, block_number: u64) -> (r: Self)
        ensures
            r.simulations@ == self.simulations@,
            r.network_id == self.network_id,
            r.block_number == Some(block_number),
    {
        BundleSimulationRequest { block_number: Some(block_number), ..self }
    }
}

/// The override map after a sequence of storage-slot writes for one address,
/// applied in order.
pub open spec fn storage_after(
    m0: Map<Seq<char>, Seq<char>>,
    writes: Seq<(Seq<char>, Seq<char>)>,
) -> Map<Seq<char>, Seq<char>>
    decreases writes.len(),
{
    if writes.len() == 0 {
        m0
    } else {
        storage_after(m0, writes.drop_last()).insert(writes.last().0, writes.last().1)
    }
}

/// Law: after any sequence of storage overrides with pairwise distinct slots,
/// the final override entry holds every slot written, with its value — not
/// just the last one.
pub proof fn lemma_storage_overrides_accumulate(
    m0: Map<Seq<char>, Seq<char>>,
    writes: Seq<(Seq<char>, Seq<char>)>,
)
    requires
        forall|i: int, j: int|
            0 <= i < j < writes.len() ==> (#[trigger] writes[i]).0 != (#[trigger] writes[j]).0,
    ensures
        forall|i: int|
            0 <= i < writes.len() ==> storage_after(m0, writes).contains_key(
                (#[trigger] writes[i]).0,
            ) && storage_after(m0, writes)[writes[i].0] == writes[i].1,
    decreases writes.len(),
{
    if writes.len() > 0 {
        assert(forall|p: int, q: int|
            0 <= p < q < writes.drop_last().len() ==> (#[trigger] writes.drop_last()[p]).0 != (
            #[trigger] writes.drop_last()[q]).0) by {
            assert(forall|p: int|
                0 <= p < writes.drop_last().len() ==> (#[trigger] writes.drop_last()[p])
                    == writes[p]);
        }
        lemma_storage_overrides_accumulate(m0, writes.drop_last());
        assert(forall|i: int|
            0 <= i < writes.len() - 1 ==> (#[trigger] writes[i]) == writes.drop_last()[i]);
        assert(forall|i: int| 0 <= i < writes.len() - 1 ==> writes[i].0 != writes.last().0);
    }
}

} // verus!
