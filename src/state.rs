//! An in-memory world state: accounts with balance, nonce and code, and
//! per-account storage slots.
use vstd::prelude::*;
use crate::types::{Address, H256, copy_bytes};

verus! {

/// What the library knows of one account.
pub struct AccountView {
    pub balance: nat,
    pub nonce: nat,
    pub code: Seq<u8>,
}

impl AccountView {
    /// The account that a missing address stands for: no balance, no nonce, no code.
    pub open spec fn empty() -> AccountView {
        AccountView { balance: 0, nonce: 0, code: Seq::empty() }
    }
}

/// Abstract world state: the accounts that exist, and every storage slot written.
pub struct StateView {
    pub accounts: Map<Address, AccountView>,
    pub storage: Map<(Address, H256), H256>,
}

impl StateView {
    pub open spec fn has_account(self, a: Address) -> bool {
        self.accounts.contains_key(a)
    }

    pub open spec fn account(self, a: Address) -> AccountView {
        if self.has_account(a) {
            self.accounts[a]
        } else {
            AccountView::empty()
        }
    }

    pub open spec fn balance(self, a: Address) -> nat {
        self.account(a).balance
    }

    pub open spec fn nonce(self, a: Address) -> nat {
        self.account(a).nonce
    }

    pub open spec fn code(self, a: Address) -> Seq<u8> {
        self.account(a).code
    }

    /// A slot never written reads as zero.
    pub open spec fn storage_at(self, a: Address, key: H256) -> H256 {
        if self.storage.contains_key((a, key)) {
            self.storage[(a, key)]
        } else {
            H256::zero_spec()
        }
    }

    /// The state with account `a` set to `acc` (created if missing).
    pub open spec fn with_account(self, a: Address, acc: AccountView) -> StateView {
        StateView { accounts: self.accounts.insert(a, acc), storage: self.storage }
    }

    pub open spec fn with_balance(self, a: Address, balance: nat) -> StateView {
        self.with_account(a, AccountView { balance, ..self.account(a) })
    }

    pub open spec fn with_nonce(self, a: Address, nonce: nat) -> StateView {
        self.with_account(a, AccountView { nonce, ..self.account(a) })
    }

    pub open spec fn with_code(self, a: Address, code: Seq<u8>) -> StateView {
        self.with_account(a, AccountView { code, ..self.account(a) })
    }

    pub open spec fn with_storage(self, a: Address, key: H256, value: H256) -> StateView {
        StateView { accounts: self.accounts, storage: self.storage.insert((a, key), value) }
    }

    /// Takes `amount` from `from`, then gives it to `to`; both accounts are created if missing.
    pub open spec fn transfer(self, from: Address, to: Address, amount: nat) -> StateView {
        let s = self.with_balance(from, (self.balance(from) - amount) as nat);
        s.with_balance(to, s.balance(to) + amount)
    }
}

struct Account {
    address: Address,
    balance: u128,
    nonce: u64,
    code: Vec<u8>,
}

impl Account {
    spec fn view(&self) -> AccountView {
        AccountView { balance: self.balance as nat, nonce: self.nonce as nat, code: self.code@ }
    }
}

struct Slot {
    address: Address,
    key: H256,
    value: H256,
}

/// World state held in memory. Each address has at most one account record and
/// each (address, key) pair at most one slot record.
pub struct State {
    accounts: Vec<Account>,
    slots: Vec<Slot>,
}

spec fn account_at(accs: Seq<Account>, i: int, a: Address) -> bool {
    0 <= i < accs.len() && accs[i].address == a
}

spec fn slot_at(slots: Seq<Slot>, i: int, p: (Address, H256)) -> bool {
    0 <= i < slots.len() && slots[i].address == p.0 && slots[i].key == p.1
}

spec fn accounts_unique(accs: Seq<Account>) -> bool {
    forall|i: int, j: int|
        0 <= i < accs.len() && 0 <= j < accs.len() && #[trigger] accs[i].address
            == #[trigger] accs[j].address ==> i == j
}

spec fn slots_unique(slots: Seq<Slot>) -> bool {
    forall|i: int, j: int|
        0 <= i < slots.len() && 0 <= j < slots.len() && (#[trigger] slots[i]).address
            == (#[trigger] slots[j]).address && slots[i].key == slots[j].key ==> i == j
}

spec fn accounts_view(accs: Seq<Account>) -> Map<Address, AccountView> {
    Map::new(
        |a: Address| exists|i: int| account_at(accs, i, a),
        |a: Address| accs[choose|i: int| account_at(accs, i, a)].view(),
    )
}

spec fn storage_view(slots: Seq<Slot>) -> Map<(Address, H256), H256> {
    Map::new(
        |p: (Address, H256)| exists|i: int| slot_at(slots, i, p),
        |p: (Address, H256)| slots[choose|i: int| slot_at(slots, i, p)].value,
    )
}

impl View for State {
    type V = StateView;

    closed spec fn view(&self) -> StateView {
        StateView { accounts: accounts_view(self.accounts@), storage: storage_view(self.slots@) }
    }
}

proof fn lemma_account_index(accs: Seq<Account>, i: int)
    requires
        accounts_unique(accs),
        0 <= i < accs.len(),
    ensures
        accounts_view(accs).contains_key(accs[i].address),
        accounts_view(accs)[accs[i].address] == accs[i].view(),
{
    let a = accs[i].address;
    assert(account_at(accs, i, a));
    let j = choose|j: int| account_at(accs, j, a);
    assert(accs[j].address == accs[i].address);
}

proof fn lemma_slot_index(slots: Seq<Slot>, i: int)
    requires
        slots_unique(slots),
        0 <= i < slots.len(),
    ensures
        storage_view(slots).contains_key((slots[i].address, slots[i].key)),
        storage_view(slots)[(slots[i].address, slots[i].key)] == slots[i].value,
{
    let p = (slots[i].address, slots[i].key);
    assert(slot_at(slots, i, p));
    let j = choose|j: int| slot_at(slots, j, p);
    assert(slots[j].address == slots[i].address);
}

/// Replacing record `i` by one with the same address sets that account in the view.
proof fn lemma_account_replace(accs: Seq<Account>, i: int, acc: Account)
    requires
        accounts_unique(accs),
        0 <= i < accs.len(),
        acc.address == accs[i].address,
    ensures
        accounts_unique(accs.update(i, acc)),
        accounts_view(accs.update(i, acc)) == accounts_view(accs).insert(acc.address, acc.view()),
{
    let n = accs.update(i, acc);
    let m = accounts_view(accs).insert(acc.address, acc.view());
    assert forall|x: int, y: int|
        0 <= x < n.len() && 0 <= y < n.len() && #[trigger] n[x].address
            == #[trigger] n[y].address implies x == y by {
        assert(accs[x].address == accs[y].address);
    }
    assert forall|a: Address| #[trigger] accounts_view(n).contains_key(a) == m.contains_key(a) by {
        if accounts_view(n).contains_key(a) {
            let j = choose|j: int| account_at(n, j, a);
            lemma_account_index(accs, j);
        }
        if m.contains_key(a) && a != acc.address {
            let j = choose|j: int| account_at(accs, j, a);
            assert(account_at(n, j, a));
        }
        if a == acc.address {
            assert(account_at(n, i, a));
        }
    }
    assert forall|a: Address| #[trigger] accounts_view(n).contains_key(a) implies accounts_view(
        n,
    )[a] == m[a] by {
        let j = choose|j: int| account_at(n, j, a);
        lemma_account_index(n, j);
        if j != i {
            lemma_account_index(accs, j);
        }
    }
    assert(accounts_view(n) =~= m);
}

/// Appending a record for a new address adds that account to the view.
proof fn lemma_account_push(accs: Seq<Account>, acc: Account)
    requires
        accounts_unique(accs),
        !accounts_view(accs).contains_key(acc.address),
    ensures
        accounts_unique(accs.push(acc)),
        accounts_view(accs.push(acc)) == accounts_view(accs).insert(acc.address, acc.view()),
{
    let n = accs.push(acc);
    let m = accounts_view(accs).insert(acc.address, acc.view());
    assert forall|x: int, y: int|
        0 <= x < n.len() && 0 <= y < n.len() && #[trigger] n[x].address
            == #[trigger] n[y].address implies x == y by {
        if x < accs.len() {
            lemma_account_index(accs, x);
        }
        if y < accs.len() {
            lemma_account_index(accs, y);
        }
    }
    assert forall|a: Address| #[trigger] accounts_view(n).contains_key(a) == m.contains_key(a) by {
        if accounts_view(n).contains_key(a) {
            let j = choose|j: int| account_at(n, j, a);
            if j < accs.len() {
                lemma_account_index(accs, j);
            }
        }
        if m.contains_key(a) && a != acc.address {
            let j = choose|j: int| account_at(accs, j, a);
            assert(account_at(n, j, a));
        }
        if a == acc.address {
            assert(account_at(n, accs.len() as int, a));
        }
    }
    assert forall|a: Address| #[trigger] accounts_view(n).contains_key(a) implies accounts_view(
        n,
    )[a] == m[a] by {
        let j = choose|j: int| account_at(n, j, a);
        lemma_account_index(n, j);
        if j < accs.len() {
            lemma_account_index(accs, j);
        }
    }
    assert(accounts_view(n) =~= m);
}

/// Replacing slot record `i` by one with the same location sets that slot in the view.
proof fn lemma_slot_replace(slots: Seq<Slot>, i: int, slot: Slot)
    requires
        slots_unique(slots),
        0 <= i < slots.len(),
        slot.address == slots[i].address,
        slot.key == slots[i].key,
    ensures
        slots_unique(slots.update(i, slot)),
        storage_view(slots.update(i, slot)) == storage_view(slots).insert(
            (slot.address, slot.key),
            slot.value,
        ),
{
    let n = slots.update(i, slot);
    let q = (slot.address, slot.key);
    let m = storage_view(slots).insert(q, slot.value);
    assert forall|x: int, y: int|
        0 <= x < n.len() && 0 <= y < n.len() && (#[trigger] n[x]).address == (
        #[trigger] n[y]).address && n[x].key == n[y].key implies x == y by {
        assert(slots[x].address == slots[y].address && slots[x].key == slots[y].key);
    }
    assert forall|p: (Address, H256)| #[trigger]
        storage_view(n).contains_key(p) == m.contains_key(p) by {
        if storage_view(n).contains_key(p) {
            let j = choose|j: int| slot_at(n, j, p);
            lemma_slot_index(slots, j);
        }
        if m.contains_key(p) && p != q {
            let j = choose|j: int| slot_at(slots, j, p);
            assert(slot_at(n, j, p));
        }
        if p == q {
            assert(slot_at(n, i, p));
        }
    }
    assert forall|p: (Address, H256)| #[trigger]
        storage_view(n).contains_key(p) implies storage_view(n)[p] == m[p] by {
        let j = choose|j: int| slot_at(n, j, p);
        lemma_slot_index(n, j);
        if j != i {
            lemma_slot_index(slots, j);
        }
    }
    assert(storage_view(n) =~= m);
}

/// Appending a slot record for a new location adds that slot to the view.
proof fn lemma_slot_push(slots: Seq<Slot>, slot: Slot)
    requires
        slots_unique(slots),
        !storage_view(slots).contains_key((slot.address, slot.key)),
    ensures
        slots_unique(slots.push(slot)),
        storage_view(slots.push(slot)) == storage_view(slots).insert(
            (slot.address, slot.key),
            slot.value,
        ),
{
    let n = slots.push(slot);
    let q = (slot.address, slot.key);
    let m = storage_view(slots).insert(q, slot.value);
    assert forall|x: int, y: int|
        0 <= x < n.len() && 0 <= y < n.len() && (#[trigger] n[x]).address == (
        #[trigger] n[y]).address && n[x].key == n[y].key implies x == y by {
        if x < slots.len() {
            lemma_slot_index(slots, x);
        }
        if y < slots.len() {
            lemma_slot_index(slots, y);
        }
    }
    assert forall|p: (Address, H256)| #[trigger]
        storage_view(n).contains_key(p) == m.contains_key(p) by {
        if storage_view(n).contains_key(p) {
            let j = choose|j: int| slot_at(n, j, p);
            if j < slots.len() {
                lemma_slot_index(slots, j);
            }
        }
        if m.contains_key(p) && p != q {
            let j = choose|j: int| slot_at(slots, j, p);
            assert(slot_at(n, j, p));
        }
        if p == q {
            assert(slot_at(n, slots.len() as int, p));
        }
    }
    assert forall|p: (Address, H256)| #[trigger]
        storage_view(n).contains_key(p) implies storage_view(n)[p] == m[p] by {
        let j = choose|j: int| slot_at(n, j, p);
        lemma_slot_index(n, j);
        if j < slots.len() {
            lemma_slot_index(slots, j);
        }
    }
    assert(storage_view(n) =~= m);
}

impl State {
    /// Every address has at most one account record, every location at most one slot record.
    pub closed spec fn wf(&self) -> bool {
        accounts_unique(self.accounts@) && slots_unique(self.slots@)
    }

    /// An empty world: no accounts, no storage.
    pub fn new() -> (r: State)
        ensures
            r.wf(),
            r@.accounts == Map::<Address, AccountView>::empty(),
            r@.storage == Map::<(Address, H256), H256>::empty(),
    {
        let r = State { accounts: Vec::new(), slots: Vec::new() };
        assert(r@.accounts =~= Map::<Address, AccountView>::empty());
        assert(r@.storage =~= Map::<(Address, H256), H256>::empty());
        r
    }

    fn find_account(&self, a: &Address) -> (r: Option<usize>)
        requires
            self.wf(),
        ensures
            match r {
                Some(i) => i < self.accounts@.len() && self.accounts@[i as int].address == *a
                    && self@.has_account(*a) && self@.accounts[*a] == self.accounts@[i as int].view(),
                None => !self@.has_account(*a),
            },
    {
        let mut i: usize = 0;
        while i < self.accounts.len()
            invariant
                self.wf(),
                i <= self.accounts@.len(),
                forall|j: int| 0 <= j < i ==> self.accounts@[j].address != *a,
            decreases self.accounts@.len() - i,
        {
            if self.accounts[i].address == *a {
                proof {
                    lemma_account_index(self.accounts@, i as int);
                }
                return Some(i);
            }
            i = i + 1;
        }
        None
    }

    fn find_slot(&self, a: &Address, key: &H256) -> (r: Option<usize>)
        requires
            self.wf(),
        ensures
            match r {
                Some(i) => i < self.slots@.len() && self.slots@[i as int].address == *a
                    && self.slots@[i as int].key == *key && self@.storage.contains_key((*a, *key))
                    && self@.storage[(*a, *key)] == self.slots@[i as int].value,
                None => !self@.storage.contains_key((*a, *key)),
            },
    {
        let mut i: usize = 0;
        while i < self.slots.len()
            invariant
                self.wf(),
                i <= self.slots@.len(),
                forall|j: int|
                    0 <= j < i ==> !(self.slots@[j].address == *a && self.slots@[j].key == *key),
            decreases self.slots@.len() - i,
        {
            if self.slots[i].address == *a && self.slots[i].key == *key {
                proof {
                    lemma_slot_index(self.slots@, i as int);
                }
                return Some(i);
            }
            i = i + 1;
        }
        None
    }

    /// Finds the record of `a`, adding an empty one if there is none.
    fn require_account(&mut self, a: &Address) -> (i: usize)
        requires
            old(self).wf(),
        ensures
            final(self).wf(),
            final(self)@ == old(self)@.with_account(*a, old(self)@.account(*a)),
            i < final(self).accounts@.len(),
            final(self).accounts@[i as int].address == *a,
    {
        match self.find_account(a) {
            Some(i) => {
                assert(self@.accounts.insert(*a, self@.account(*a)) =~= self@.accounts);
                i
            },
            None => {
                let acc = Account { address: *a, balance: 0, nonce: 0, code: Vec::new() };
                proof {
                    lemma_account_push(self.accounts@, acc);
                    assert(acc.view() =~= AccountView::empty());
                }
                self.accounts.push(acc);
                self.accounts.len() - 1
            },
        }
    }

    pub fn has_account(&self, a: &Address) -> (r: bool)
        requires
            self.wf(),
        ensures
            r == self@.has_account(*a),
    {
        self.find_account(a).is_some()
    }

    pub fn balance(&self, a: &Address) -> (r: u128)
        requires
            self.wf(),
        ensures
            r == self@.balance(*a),
    {
        match self.find_account(a) {
            Some(i) => self.accounts[i].balance,
            None => 0,
        }
    }

    pub fn nonce(&self, a: &Address) -> (r: u64)
        requires
            self.wf(),
        ensures
            r == self@.nonce(*a),
    {
        match self.find_account(a) {
            Some(i) => self.accounts[i].nonce,
            None => 0,
        }
    }

    /// The code of `a`; empty where the account has none or does not exist.
    pub fn code(&self, a: &Address) -> (r: Vec<u8>)
        requires
            self.wf(),
        ensures
            r@ == self@.code(*a),
    {
        match self.find_account(a) {
            Some(i) => copy_bytes(self.accounts[i].code.as_slice()),
            None => Vec::new(),
        }
    }

    pub fn storage_at(&self, a: &Address, key: &H256) -> (r: H256)
        requires
            self.wf(),
        ensures
            r == self@.storage_at(*a, *key),
    {
        match self.find_slot(a, key) {
            Some(i) => self.slots[i].value,
            None => H256::zero(),
        }
    }

    pub fn set_storage(&mut self, a: &Address, key: H256, value: H256)
        requires
            old(self).wf(),
        ensures
            final(self).wf(),
            final(self)@ == old(self)@.with_storage(*a, key, value),
    {
        let slot = Slot { address: *a, key, value };
        match self.find_slot(a, &key) {
            Some(i) => {
                proof {
                    lemma_slot_replace(self.slots@, i as int, slot);
                }
                self.slots.set(i, slot);
            },
            None => {
                proof {
                    lemma_slot_push(self.slots@, slot);
                }
                self.slots.push(slot);
            },
        }
    }

    pub fn set_balance(&mut self, a: &Address, balance: u128)
        requires
            old(self).wf(),
        ensures
            final(self).wf(),
            final(self)@ == old(self)@.with_balance(*a, balance as nat),
    {
        let i = self.require_account(a);
        let ghost mid = self.accounts@;
        let ghost acc = Account { balance, ..self.accounts@[i as int] };
        proof {
            lemma_account_index(mid, i as int);
            lemma_account_replace(mid, i as int, acc);
        }
        self.accounts[i].balance = balance;
        proof {
            assert(self.accounts@ =~= mid.update(i as int, acc));
            assert(self@.accounts =~= old(self)@.with_balance(*a, balance as nat).accounts);
        }
    }

    pub fn inc_nonce(&mut self, a: &Address)
        requires
            old(self).wf(),
            old(self)@.nonce(*a) < u64::MAX,
        ensures
            final(self).wf(),
            final(self)@ == old(self)@.with_nonce(*a, (old(self)@.nonce(*a) + 1) as nat),
    {
        let i = self.require_account(a);
        let ghost mid = self.accounts@;
        proof {
            lemma_account_index(mid, i as int);
        }
        let nonce = self.accounts[i].nonce + 1;
        let ghost acc = Account { nonce, ..self.accounts@[i as int] };
        proof {
            lemma_account_replace(mid, i as int, acc);
        }
        self.accounts[i].nonce = nonce;
        proof {
            assert(self.accounts@ =~= mid.update(i as int, acc));
            assert(self@.accounts =~= old(self)@.with_nonce(
                *a,
                (old(self)@.nonce(*a) + 1) as nat,
            ).accounts);
        }
    }

    /// Installs `code` as the code of `a`, creating the account if missing.
    pub fn init_code(&mut self, a: &Address, code: Vec<u8>)
        requires
            old(self).wf(),
        ensures
            final(self).wf(),
            final(self)@ == old(self)@.with_code(*a, code@),
    {
        let i = self.require_account(a);
        let ghost mid = self.accounts@;
        let ghost acc = Account { code, ..self.accounts@[i as int] };
        proof {
            lemma_account_index(mid, i as int);
            lemma_account_replace(mid, i as int, acc);
        }
        self.accounts[i].code = code;
        proof {
            assert(self.accounts@ =~= mid.update(i as int, acc));
            assert(self@.accounts =~= old(self)@.with_code(*a, code@).accounts);
        }
    }

    pub fn add_balance(&mut self, a: &Address, amount: u128)
        requires
            old(self).wf(),
            old(self)@.balance(*a) + amount <= u128::MAX,
        ensures
            final(self).wf(),
            final(self)@ == old(self)@.with_balance(*a, (old(self)@.balance(*a) + amount) as nat),
    {
        let b = self.balance(a);
        self.set_balance(a, b + amount);
    }

    pub fn sub_balance(&mut self, a: &Address, amount: u128)
        requires
            old(self).wf(),
            old(self)@.balance(*a) >= amount,
        ensures
            final(self).wf(),
            final(self)@ == old(self)@.with_balance(
                *a,
                (old(self)@.balance(*a) - amount) as nat,
            ),
    {
        let b = self.balance(a);
        self.set_balance(a, b - amount);
    }

    /// Moves `amount` from `from` to `to`. With `from == to` the balance comes back whole.
    pub fn transfer_balance(&mut self, from: &Address, to: &Address, amount: u128)
        requires
            old(self).wf(),
            old(self)@.balance(*from) >= amount,
            *from != *to ==> old(self)@.balance(*to) + amount <= u128::MAX,
        ensures
            final(self).wf(),
            final(self)@ == old(self)@.transfer(*from, *to, amount as nat),
    {
        self.sub_balance(from, amount);
        self.add_balance(to, amount);
    }
}

} // verus!
