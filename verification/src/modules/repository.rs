//! A key-value store of governance variables whose values can be scheduled
//! to change at a given time.

use vstd::prelude::*;

use crate::errors::Error;
use crate::types::{Address, Balance};
use crate::u256::U256;

verus! {

/// The value of a record as bytes: the current value, and the next value
/// with its activation time.
pub type RecordView = (Seq<u8>, Option<(Seq<u8>, u64)>);

/// A stored variable: the current value, and an optional future value with
/// the time it becomes active.
#[derive(Debug)]
pub struct Record {
    pub current_value: Vec<u8>,
    pub next_value: Option<(Vec<u8>, u64)>,
}

impl Record {
    /// The bytes the record holds.
    pub open spec fn view(&self) -> RecordView {
        (
            self.current_value@,
            match self.next_value {
                Some((v, t)) => Some((v@, t)),
                None => None,
            },
        )
    }
}

/// The value of a record at a time: the next value once its activation time
/// has passed, the current value before.
pub open spec fn value_at(record: RecordView, now: u64) -> Seq<u8> {
    match record.1 {
        Some((v, t)) => if now > t {
            v
        } else {
            record.0
        },
        None => record.0,
    }
}

/// The record after an update at time `now`, or the error the update fails
/// with.
///
/// Without an activation time the value becomes current at once. With one,
/// the time must not be in the past and the variable must exist; the value
/// becomes the next value, and a next value whose time has passed becomes
/// current.
pub open spec fn updated_record(
    record: Option<RecordView>,
    value: Seq<u8>,
    activation_time: Option<u64>,
    now: u64,
) -> Result<RecordView, Error> {
    match activation_time {
        None => Ok((value, None)),
        Some(t) => if t < now {
            Err(Error::ActivationTimeInPast)
        } else {
            match record {
                None => Err(Error::KeyValueStorageError),
                Some(r) => match r.1 {
                    Some((nv, nt)) => if nt < now {
                        Ok((nv, Some((value, t))))
                    } else {
                        Ok((r.0, Some((value, t))))
                    },
                    None => Ok((r.0, Some((value, t)))),
                },
            }
        },
    }
}

/// Emitted when a variable is updated.
#[derive(Debug)]
pub struct ValueUpdated {
    pub key: String,
    pub value: Vec<u8>,
    pub activation_time: Option<u64>,
}

/// Stores key-value pairs and the list of the keys updated, in order.
#[derive(Debug)]
pub struct Repository {
    pub storage: Vec<(String, Record)>,
    pub keys2: Vec<String>,
}

/// A copy of a byte vector.
pub fn copy_bytes(v: &Vec<u8>) -> (r: Vec<u8>)
    ensures
        r@ == v@,
{
    let mut r: Vec<u8> = Vec::new();
    let mut i: usize = 0;
    while i < v.len()
        invariant
            i <= v@.len(),
            r@ == v@.subrange(0, i as int),
        decreases v@.len() - i,
    {
        r.push(v[i]);
        i += 1;
        assert(r@ =~= v@.subrange(0, i as int));
    }
    assert(r@ =~= v@);
    r
}

impl Record {
    /// A copy of the record.
    pub fn duplicate(&self) -> (r: Record)
        ensures
            r.view() == self.view(),
    {
        let next_value = match &self.next_value {
            Some((v, t)) => Some((copy_bytes(v), *t)),
            None => None,
        };
        Record { current_value: copy_bytes(&self.current_value), next_value }
    }
}

impl Repository {
    /// Each key is stored once.
    pub open spec fn storage_wf(&self) -> bool {
        forall|i: int, j: int|
            0 <= i < j < self.storage@.len() ==> self.storage@[i].0@ != self.storage@[j].0@
    }

    /// Each key is stored once, and the list of keys names each key that
    /// has a record, once.
    pub open spec fn wf(&self) -> bool {
        &&& self.storage_wf()
        &&& forall|i: int| 0 <= i < self.keys2@.len() ==> self.has_key(#[trigger] self.keys2@[i]@)
        &&& forall|i: int, j: int|
            0 <= i < j < self.keys2@.len() ==> self.keys2@[i]@ != self.keys2@[j]@
        &&& forall|k: Seq<char>| #[trigger] self.has_key(k) ==> self.lists_key(k)
    }

    /// The list of keys names the key.
    pub open spec fn lists_key(&self, key: Seq<char>) -> bool {
        exists|j: int| 0 <= j < self.keys2@.len() && self.keys2@[j]@ == key
    }

    /// Whether a key is stored.
    pub open spec fn has_key(&self, key: Seq<char>) -> bool {
        exists|i: int| 0 <= i < self.storage@.len() && self.storage@[i].0@ == key
    }

    /// The record stored under a key, when there is one.
    pub open spec fn record_of(&self, key: Seq<char>) -> Option<RecordView> {
        if self.has_key(key) {
            Some(
                self.storage@[choose|i: int|
                    0 <= i < self.storage@.len() && self.storage@[i].0@ == key].1.view(),
            )
        } else {
            None
        }
    }

    /// An empty repository.
    pub fn new() -> (r: Repository)
        ensures
            r.wf(),
            forall|k: Seq<char>| r.record_of(k) is None,
            r.storage@.len() == 0,
            r.keys2@.len() == 0,
    {
        Repository { storage: Vec::new(), keys2: Vec::new() }
    }

    /// The position of a key.
    fn position(&self, key: &String) -> (r: Option<usize>)
        requires
            self.storage_wf(),
        ensures
            match r {
                Some(i) => i < self.storage@.len() && self.storage@[i as int].0@ == key@
                    && self.record_of(key@) == Some(self.storage@[i as int].1.view()),
                None => !self.has_key(key@) && self.record_of(key@) is None,
            },
    {
        let mut i: usize = 0;
        while i < self.storage.len()
            invariant
                self.storage_wf(),
                i <= self.storage@.len(),
                forall|j: int| 0 <= j < i ==> self.storage@[j].0@ != key@,
            decreases self.storage@.len() - i,
        {
            if self.storage[i].0 == *key {
                proof {
                    let c = choose|j: int|
                        0 <= j < self.storage@.len() && self.storage@[j].0@ == key@;
                    assert(c == i);
                }
                return Some(i);
            }
            i += 1;
        }
        None
    }

    /// Stores a record under a key.
    fn set_record(&mut self, key: &String, record: Record)
        requires
            old(self).storage_wf(),
        ensures
            final(self).storage_wf(),
            final(self).record_of(key@) == Some(record.view()),
            forall|k: Seq<char>| k != key@ ==> final(self).record_of(k) == old(self).record_of(k),
            final(self).keys2@ == old(self).keys2@,
    {
        let ghost before = *self;
        let ghost rv = record.view();
        match self.position(key) {
            Some(i) => {
                let k = self.storage[i].0.clone();
                self.storage.set(i, (k, record));
                proof {
                    assert forall|k: Seq<char>| k != key@ implies self.record_of(k)
                        == before.record_of(k) by {
                        if before.has_key(k) {
                            let c = choose|j: int|
                                0 <= j < before.storage@.len() && before.storage@[j].0@ == k;
                            assert(self.storage@[c].0@ == k);
                        }
                        if self.has_key(k) {
                            let c = choose|j: int|
                                0 <= j < self.storage@.len() && self.storage@[j].0@ == k;
                            assert(before.storage@[c].0@ == k);
                        }
                    }
                    assert(self.storage@[i as int].0@ == key@);
                    let c = choose|j: int|
                        0 <= j < self.storage@.len() && self.storage@[j].0@ == key@;
                    assert(c == i);
                }
            },
            None => {
                self.storage.push((key.clone(), record));
                proof {
                    let n = before.storage@.len() as int;
                    assert(self.storage@[n].0@ == key@);
                    assert forall|k: Seq<char>| k != key@ implies self.record_of(k)
                        == before.record_of(k) by {
                        if before.has_key(k) {
                            let c = choose|j: int|
                                0 <= j < before.storage@.len() && before.storage@[j].0@ == k;
                            assert(self.storage@[c].0@ == k);
                        }
                        if self.has_key(k) {
                            let c = choose|j: int|
                                0 <= j < self.storage@.len() && self.storage@[j].0@ == k;
                            assert(before.storage@[c].0@ == k);
                        }
                    }
                    let c = choose|j: int|
                        0 <= j < self.storage@.len() && self.storage@[j].0@ == key@;
                    assert(c == n);
                }
            },
        }
    }

    /// Updates a variable at time `now`: see [`updated_record`] for the new
    /// record and the errors. A key that had no record is appended to the
    /// list of keys; the update is reported in the returned event.
    pub fn update_at(
        &mut self,
        key: String,
        value: Vec<u8>,
        activation_time: Option<u64>,
        now: u64,
    ) -> (r: Result<ValueUpdated, Error>)
        requires
            old(self).wf(),
        ensures
            final(self).wf(),
            match updated_record(old(self).record_of(key@), value@, activation_time, now) {
                Ok(rec) => {
                    &&& r matches Ok(e) && e.key@ == key@ && e.value@ == value@ && e.activation_time
                        == activation_time
                    &&& final(self).record_of(key@) == Some(rec)
                    &&& forall|k: Seq<char>|
                        k != key@ ==> final(self).record_of(k) == old(self).record_of(k)
                    &&& old(self).record_of(key@) is Some ==> final(self).keys2@ == old(
                        self,
                    ).keys2@
                    &&& old(self).record_of(key@) is None ==> final(self).keys2@.len() == old(
                        self,
                    ).keys2@.len() + 1 && (forall|i: int|
                        0 <= i < old(self).keys2@.len() ==> final(self).keys2@[i] == old(
                            self,
                        ).keys2@[i]) && final(self).keys2@.last()@ == key@
                },
                Err(e) => {
                    &&& r == Err::<ValueUpdated, Error>(e)
                    &&& forall|k: Seq<char>| final(self).record_of(k) == old(self).record_of(k)
                    &&& final(self).keys2@ == old(self).keys2@
                },
            },
    {
        let is_new = self.position(&key).is_none();
        let value_for_event = copy_bytes(&value);
        let new_value: Record = match activation_time {
            None => Record { current_value: value, next_value: None },
            Some(activation_time) => {
                if activation_time < now {
                    return Err(Error::ActivationTimeInPast);
                }
                let record = match self.position(&key) {
                    Some(i) => self.storage[i].1.duplicate(),
                    None => {
                        return Err(Error::KeyValueStorageError);
                    },
                };
                let current_value = record.current_value;
                match record.next_value {
                    None => Record { current_value, next_value: Some((value, activation_time)) },
                    Some((current_next_value, current_activation_time)) => {
                        if current_activation_time < now {
                            Record {
                                current_value: current_next_value,
                                next_value: Some((value, activation_time)),
                            }
                        } else {
                            Record { current_value, next_value: Some((value, activation_time)) }
                        }
                    },
                }
            },
        };
        self.set_record(&key, new_value);
        let ghost recorded = *self;
        if is_new {
            let key_for_list = key.clone();
            self.keys2.push(key_for_list);
        }
        proof {
            assert forall|k: Seq<char>| self.record_of(k) == recorded.record_of(k) by {
                if recorded.has_key(k) {
                    let c = choose|j: int|
                        0 <= j < recorded.storage@.len() && recorded.storage@[j].0@ == k;
                    assert(self.storage@[c].0@ == k);
                }
            }
            assert forall|i: int| 0 <= i < self.keys2@.len() implies self.has_key(
                #[trigger] self.keys2@[i]@,
            ) by {
                let k = self.keys2@[i]@;
                assert(self.record_of(k) is Some);
                if i < old(self).keys2@.len() {
                    assert(old(self).has_key(k));
                    assert(old(self).record_of(k) is Some);
                }
            }
            assert forall|i: int, j: int|
                0 <= i < j < self.keys2@.len() implies self.keys2@[i]@ != self.keys2@[j]@ by {
                if j == old(self).keys2@.len() {
                    assert(old(self).has_key(old(self).keys2@[i]@));
                }
            }
            assert forall|k: Seq<char>| #[trigger] self.has_key(k) implies self.lists_key(k) by {
                assert(self.record_of(k) is Some);
                if k == key@ {
                    if is_new {
                        assert(self.keys2@[self.keys2@.len() - 1]@ == k);
                    } else {
                        assert(old(self).has_key(k));
                        let j = choose|j: int|
                            0 <= j < old(self).keys2@.len() && old(self).keys2@[j]@ == k;
                        assert(self.keys2@[j]@ == k);
                    }
                } else {
                    assert(old(self).record_of(k) is Some);
                    assert(old(self).has_key(k));
                    let j = choose|j: int|
                        0 <= j < old(self).keys2@.len() && old(self).keys2@[j]@ == k;
                    assert(self.keys2@[j]@ == k);
                }
            }
        }
        Ok(ValueUpdated { key, value: value_for_event, activation_time })
    }

    /// The value of a variable at time `now`, when it is stored: see
    /// [`value_at`].
    pub fn get(&self, key: String, now: u64) -> (r: Option<Vec<u8>>)
        requires
            self.wf(),
        ensures
            match self.record_of(key@) {
                Some(rec) => r matches Some(v) && v@ == value_at(rec, now),
                None => r is None,
            },
    {
        match self.position(&key) {
            Some(i) => {
                let record = &self.storage[i].1;
                match &record.next_value {
                    Some((value, activation_time)) => {
                        if now > *activation_time {
                            return Some(copy_bytes(value));
                        }
                    },
                    None => {},
                }
                Some(copy_bytes(&record.current_value))
            },
            None => None,
        }
    }

    /// The whole record of a variable, when it is stored.
    pub fn get_full_value(&self, key: String) -> (r: Option<Record>)
        requires
            self.wf(),
        ensures
            match self.record_of(key@) {
                Some(rec) => r matches Some(v) && v.view() == rec,
                None => r is None,
            },
    {
        match self.position(&key) {
            Some(i) => Some(self.storage[i].1.duplicate()),
            None => None,
        }
    }
}

/// The list of keys names exactly the stored keys, each once, so its
/// length is the number of stored keys; updating a stored key keeps it as
/// it is (see [`Repository::update_at`]).
pub proof fn law_key_list_is_the_stored_keys(repo: Repository, key: Seq<char>)
    requires
        repo.wf(),
    ensures
        repo.has_key(key) <==> repo.lists_key(key),
        forall|i: int, j: int|
            0 <= i < j < repo.keys2@.len() ==> repo.keys2@[i]@ != repo.keys2@[j]@,
{
    if repo.lists_key(key) {
        let j = choose|j: int| 0 <= j < repo.keys2@.len() && repo.keys2@[j]@ == key;
        assert(repo.has_key(repo.keys2@[j]@));
    }
}

/// A value written without an activation time is read back at any time.
pub proof fn law_read_after_write(record: Option<RecordView>, value: Seq<u8>, now: u64, later: u64)
    ensures
        updated_record(record, value, None, now) matches Ok(r) && value_at(r, later) == value,
{
}

/// A scheduled value is read once its activation time has passed; until
/// then, from the time of the update on, the variable reads as it read at
/// the time of the update.
pub proof fn law_scheduled_write(
    record: Option<RecordView>,
    value: Seq<u8>,
    activation_time: u64,
    now: u64,
    later: u64,
)
    requires
        updated_record(record, value, Some(activation_time), now) is Ok,
        now <= later,
    ensures
        updated_record(record, value, Some(activation_time), now) matches Ok(r) && {
            &&& later > activation_time ==> value_at(r, later) == value
            &&& later <= activation_time ==> value_at(r, later) == value_at(record->0, now)
        },
{
}


/// The `n` bytes of a number, least significant first.
pub open spec fn le_bytes(v: nat, n: nat) -> Seq<u8>
    decreases n,
{
    if n == 0 {
        Seq::empty()
    } else {
        seq![(v % 256) as u8] + le_bytes(v / 256, (n - 1) as nat)
    }
}

/// `256` raised to `n`.
pub open spec fn pow256(n: nat) -> nat
    decreases n,
{
    if n == 0 {
        1
    } else {
        256 * pow256((n - 1) as nat)
    }
}

/// The number a sequence of bytes stands for, least significant first.
pub open spec fn le_value(bytes: Seq<u8>) -> nat
    decreases bytes.len(),
{
    if bytes.len() == 0 {
        0
    } else {
        bytes[0] as nat + 256 * le_value(bytes.drop_first())
    }
}

/// `n` bytes are written, and they give the number back when it fits.
proof fn lemma_le_round_trip(v: nat, n: nat)
    ensures
        le_bytes(v, n).len() == n,
        v < pow256(n) ==> le_value(le_bytes(v, n)) == v,
    decreases n,
{
    if n > 0 {
        let rest = (n - 1) as nat;
        lemma_le_round_trip(v / 256, rest);
        assert(le_bytes(v, n).drop_first() =~= le_bytes(v / 256, rest));
        if v < pow256(n) {
            let p = pow256(rest);
            assert(v / 256 < p) by (nonlinear_arith)
                requires
                    v < 256 * p,
            ;
        }
    }
}

/// Eight bytes hold every `u64`.
proof fn lemma_u64_fits(v: u64)
    ensures
        (v as nat) < pow256(8),
{
    reveal_with_fuel(pow256, 9);
}

/// The word at a given offset of two equal stored balances is the same.
proof fn lemma_word_read_back(x: u64, y: u64, sa: Seq<u8>, sb: Seq<u8>, at: int, a: Balance, b: Balance)
    requires
        sa == balance_bytes(a),
        sb == balance_bytes(b),
        sa == sb,
        (at == 0 && x == a.w0 && y == b.w0) || (at == 8 && x == a.w1 && y == b.w1) || (at == 16
            && x == a.w2 && y == b.w2) || (at == 24 && x == a.w3 && y == b.w3),
    ensures
        x == y,
{
    lemma_le_round_trip(a.w0 as nat, 8);
    lemma_le_round_trip(a.w1 as nat, 8);
    lemma_le_round_trip(a.w2 as nat, 8);
    lemma_le_round_trip(a.w3 as nat, 8);
    lemma_le_round_trip(b.w0 as nat, 8);
    lemma_le_round_trip(b.w1 as nat, 8);
    lemma_le_round_trip(b.w2 as nat, 8);
    lemma_le_round_trip(b.w3 as nat, 8);
    lemma_u64_fits(x);
    lemma_u64_fits(y);
    assert(sa.subrange(at, at + 8) =~= le_bytes(x as nat, 8));
    assert(sb.subrange(at, at + 8) =~= le_bytes(y as nat, 8));
}

/// Each stored form names one value only, so what the repository stores
/// is what a configuration reads back: a number, a flag, a balance and an
/// address are each determined by their bytes.
pub proof fn law_stored_forms_are_unambiguous(
    x: u64,
    y: u64,
    p: bool,
    q: bool,
    a: Balance,
    b: Balance,
    s: Address,
    t: Address,
)
    ensures
        le_bytes(x as nat, 8) == le_bytes(y as nat, 8) ==> x == y,
        bool_bytes(p) == bool_bytes(q) ==> p == q,
        balance_bytes(a) == balance_bytes(b) ==> a == b,
        address_bytes(s) == address_bytes(t) ==> s == t,
{
    lemma_u64_fits(x);
    lemma_u64_fits(y);
    lemma_le_round_trip(x as nat, 8);
    lemma_le_round_trip(y as nat, 8);
    if bool_bytes(p) == bool_bytes(q) {
        assert(bool_bytes(p)[0] == bool_bytes(q)[0]);
    }
    if balance_bytes(a) == balance_bytes(b) {
        lemma_word_read_back(a.w0, b.w0, balance_bytes(a), balance_bytes(b), 0, a, b);
        lemma_word_read_back(a.w1, b.w1, balance_bytes(a), balance_bytes(b), 8, a, b);
        lemma_word_read_back(a.w2, b.w2, balance_bytes(a), balance_bytes(b), 16, a, b);
        lemma_word_read_back(a.w3, b.w3, balance_bytes(a), balance_bytes(b), 24, a, b);
    }
    if address_bytes(s) == address_bytes(t) {
        lemma_u64_fits(s.id);
        lemma_u64_fits(t.id);
        lemma_le_round_trip(s.id as nat, 8);
        lemma_le_round_trip(t.id as nat, 8);
        assert(le_bytes(s.id as nat, 8) =~= le_bytes(t.id as nat, 8)) by {
            assert forall|i: int| 0 <= i < 8 implies le_bytes(s.id as nat, 8)[i] == le_bytes(
                t.id as nat,
                8,
            )[i] by {
                assert(address_bytes(s)[7 - i] == address_bytes(t)[7 - i]);
            }
        }
    }
}

/// The stored form of a balance: its four words, least significant first,
/// each as eight bytes, least significant first.
pub open spec fn balance_bytes(b: Balance) -> Seq<u8> {
    le_bytes(b.w0 as nat, 8) + le_bytes(b.w1 as nat, 8) + le_bytes(b.w2 as nat, 8) + le_bytes(
        b.w3 as nat,
        8,
    )
}

/// The stored form of a flag: one byte, 1 or 0.
pub open spec fn bool_bytes(b: bool) -> Seq<u8> {
    if b {
        seq![1u8]
    } else {
        seq![0u8]
    }
}

/// The stored form of an address: its eight bytes, most significant first.
pub open spec fn address_bytes(a: Address) -> Seq<u8> {
    le_bytes(a.id as nat, 8).reverse()
}

/// Serializes a `u64` with the framework's `OdraType::serialize`, which
/// writes the number with borsh; trusted to give the eight bytes of the
/// number, least significant first.
#[verifier::external_body]
fn encode_u64(v: u64) -> (r: Vec<u8>)
    ensures
        r@ == le_bytes(v as nat, 8),
{
    odra::types::OdraType::serialize(&v).unwrap()
}

/// Serializes a flag with the framework's `OdraType::serialize` (borsh);
/// trusted to give one byte, 1 for `true` and 0 for `false`.
#[verifier::external_body]
fn encode_bool(v: bool) -> (r: Vec<u8>)
    ensures
        r@ == bool_bytes(v),
{
    odra::types::OdraType::serialize(&v).unwrap()
}

/// Serializes a balance with the framework's `OdraType::serialize`, which
/// writes the four words of its `U256` with borsh; trusted to give the words
/// in order, each as eight bytes, least significant first.
#[verifier::external_body]
fn encode_balance(v: Balance) -> (r: Vec<u8>)
    ensures
        r@ == balance_bytes(v),
{
    odra::types::OdraType::serialize(&odra::types::U256(v.words())).unwrap()
}

/// Serializes an address with the framework's `OdraType::serialize`, which
/// writes its eight bytes with borsh; trusted to give them as they are. The
/// framework refuses the address made of zero bytes.
#[verifier::external_body]
fn encode_address(a: Address) -> (r: Vec<u8>)
    requires
        a.id != 0,
    ensures
        r@ == address_bytes(a),
{
    let address = odra::types::Address::try_from(&a.id.to_be_bytes()).unwrap();
    odra::types::OdraType::serialize(&address).unwrap()
}

/// The key and the bytes of each entry of a list of variables.
pub open spec fn items_view(items: Seq<(String, Vec<u8>)>) -> Seq<(Seq<char>, Seq<u8>)> {
    Seq::new(items.len(), |i: int| (items[i].0@, items[i].1@))
}

/// The initial values of the governance variables, as stored: ratios in
/// per-mils, times in seconds.
pub open spec fn default_items() -> Seq<(Seq<char>, Seq<u8>)> {
    seq![
        ("PostJobDOSFee"@, balance_bytes(U256 { w0: 10000, w1: 0, w2: 0, w3: 0 })),
        ("InternalAuctionTime"@, le_bytes(604800, 8)),
        ("PublicAuctionTime"@, le_bytes(864000, 8)),
        ("DefaultPolicingRate"@, balance_bytes(U256 { w0: 300, w1: 0, w2: 0, w3: 0 })),
        ("ReputationConversionRate"@, balance_bytes(U256 { w0: 100, w1: 0, w2: 0, w3: 0 })),
        ("ForumKYCRequired"@, bool_bytes(true)),
        ("BidEscrowInformalQuorumRatio"@, balance_bytes(U256 { w0: 500, w1: 0, w2: 0, w3: 0 })),
        ("BidEscrowFormalQuorumRatio"@, balance_bytes(U256 { w0: 500, w1: 0, w2: 0, w3: 0 })),
        ("InformalQuorumRatio"@, balance_bytes(U256 { w0: 500, w1: 0, w2: 0, w3: 0 })),
        ("FormalQuorumRatio"@, balance_bytes(U256 { w0: 500, w1: 0, w2: 0, w3: 0 })),
        ("BidEscrowInformalVotingTime"@, le_bytes(432000, 8)),
        ("BidEscrowFormalVotingTime"@, le_bytes(432000, 8)),
        ("InformalVotingTime"@, le_bytes(432000, 8)),
        ("FormalVotingTime"@, le_bytes(432000, 8)),
        ("InformalStakeReputation"@, bool_bytes(true)),
        ("TimeBetweenInformalAndFormalVoting"@, le_bytes(86400, 8)),
        ("VABidAcceptanceTimeout"@, le_bytes(172800, 8)),
        ("VACanBidOnPublicAuction"@, bool_bytes(false)),
        ("DistributePaymentToNonVoters"@, bool_bytes(false)),
        ("DefaultReputationSlash"@, balance_bytes(U256 { w0: 100, w1: 0, w2: 0, w3: 0 })),
        ("VotingClearnessDelta"@, balance_bytes(U256 { w0: 8000, w1: 0, w2: 0, w3: 0 })),
        ("VotingStartAfterJobWorkerSubmission"@, le_bytes(259200, 8)),
        ("BidEscrowPaymentRatio"@, balance_bytes(U256 { w0: 100, w1: 0, w2: 0, w3: 0 })),
    ]
}

/// A list of variables and their stored values.
#[derive(Debug)]
pub struct RepositoryDefaults {
    pub items: Vec<(String, Vec<u8>)>,
}

impl RepositoryDefaults {
    /// Appends a variable.
    pub fn push(&mut self, key: &str, value: Vec<u8>)
        ensures
            items_view(final(self).items@) == items_view(old(self).items@).push((key@, value@)),
    {
        self.items.push((key.to_owned(), value));
        assert(items_view(self.items@) =~= items_view(old(self).items@).push((key@, value@)));
    }

    /// The variables, in the order they were pushed.
    pub fn items(self) -> (r: Vec<(String, Vec<u8>)>)
        ensures
            r@ == self.items@,
    {
        self.items
    }

    fn push_balance(&mut self, key: &str, value: u64)
        ensures
            items_view(final(self).items@) == items_view(old(self).items@).push(
                (key@, balance_bytes(U256 { w0: value, w1: 0, w2: 0, w3: 0 })),
            ),
    {
        let b = U256::from_u64(value);
        assert(b == U256 { w0: value, w1: 0, w2: 0, w3: 0 });
        self.push(key, encode_balance(b));
    }

    fn push_u64(&mut self, key: &str, value: u64)
        ensures
            items_view(final(self).items@) == items_view(old(self).items@).push(
                (key@, le_bytes(value as nat, 8)),
            ),
    {
        self.push(key, encode_u64(value));
    }

    fn push_bool(&mut self, key: &str, value: bool)
        ensures
            items_view(final(self).items@) == items_view(old(self).items@).push(
                (key@, bool_bytes(value)),
            ),
    {
        self.push(key, encode_bool(value));
    }
}

impl Default for RepositoryDefaults {
    /// The initial values of the governance variables.
    fn default() -> (r: RepositoryDefaults)
        ensures
            items_view(r.items@) == default_items(),
    {
        let mut items = RepositoryDefaults { items: Vec::new() };
        items.push_balance("PostJobDOSFee", 10000);
        items.push_u64("InternalAuctionTime", 604800);
        items.push_u64("PublicAuctionTime", 864000);
        items.push_balance("DefaultPolicingRate", 300);
        items.push_balance("ReputationConversionRate", 100);
        items.push_bool("ForumKYCRequired", true);
        items.push_balance("BidEscrowInformalQuorumRatio", 500);
        items.push_balance("BidEscrowFormalQuorumRatio", 500);
        items.push_balance("InformalQuorumRatio", 500);
        items.push_balance("FormalQuorumRatio", 500);
        items.push_u64("BidEscrowInformalVotingTime", 432000);
        items.push_u64("BidEscrowFormalVotingTime", 432000);
        items.push_u64("InformalVotingTime", 432000);
        items.push_u64("FormalVotingTime", 432000);
        items.push_bool("InformalStakeReputation", true);
        items.push_u64("TimeBetweenInformalAndFormalVoting", 86400);
        items.push_u64("VABidAcceptanceTimeout", 172800);
        items.push_bool("VACanBidOnPublicAuction", false);
        items.push_bool("DistributePaymentToNonVoters", false);
        items.push_balance("DefaultReputationSlash", 100);
        items.push_balance("VotingClearnessDelta", 8000);
        items.push_u64("VotingStartAfterJobWorkerSubmission", 259200);
        items.push_balance("BidEscrowPaymentRatio", 100);
        assert(items_view(items.items@) =~= default_items());
        items
    }
}

/// The record a list of immediate updates leaves under a key: the last
/// value written to it.
pub open spec fn written_record(items: Seq<(Seq<char>, Seq<u8>)>, key: Seq<char>) -> Option<
    RecordView,
>
    decreases items.len(),
{
    if items.len() == 0 {
        None
    } else if items.last().0 == key {
        Some((items.last().1, None))
    } else {
        written_record(items.drop_last(), key)
    }
}

impl Repository {
    /// Stores the initial values of the governance variables, then the
    /// addresses of the fiat conversion rate contract, of the DAO's wallet
    /// and of the voting id generator. Returns the update events, in order.
    pub fn init(
        &mut self,
        fiat_conversion: Address,
        bid_escrow_wallet: Address,
        voting_ids: Address,
    ) -> (r: Vec<ValueUpdated>)
        requires
            old(self).wf(),
            forall|k: Seq<char>| old(self).record_of(k) is None,
            fiat_conversion.id != 0,
            bid_escrow_wallet.id != 0,
            voting_ids.id != 0,
        ensures
            final(self).wf(),
            forall|k: Seq<char>|
                final(self).record_of(k) == written_record(
                    default_items() + seq![
                        ("FiatConversionRateAddress"@, address_bytes(fiat_conversion)),
                        ("BidEscrowWalletAddress"@, address_bytes(bid_escrow_wallet)),
                        ("VotingIdsAddress"@, address_bytes(voting_ids)),
                    ],
                    k,
                ),
            r@.len() == default_items().len() + 3,
    {
        let mut config = RepositoryDefaults::default();
        config.push("FiatConversionRateAddress", encode_address(fiat_conversion));
        config.push("BidEscrowWalletAddress", encode_address(bid_escrow_wallet));
        config.push("VotingIdsAddress", encode_address(voting_ids));
        let ghost all = items_view(config.items@);
        assert(all =~= default_items() + seq![
            ("FiatConversionRateAddress"@, address_bytes(fiat_conversion)),
            ("BidEscrowWalletAddress"@, address_bytes(bid_escrow_wallet)),
            ("VotingIdsAddress"@, address_bytes(voting_ids)),
        ]);
        let items = config.items();
        let mut events: Vec<ValueUpdated> = Vec::new();
        let mut i: usize = 0;
        while i < items.len()
            invariant
                self.wf(),
                i <= items@.len(),
                all == items_view(items@),
                events@.len() == i,
                forall|k: Seq<char>|
                    self.record_of(k) == written_record(all.subrange(0, i as int), k),
            decreases items@.len() - i,
        {
            let key = items[i].0.clone();
            let value = copy_bytes(&items[i].1);
            let ghost before = *self;
            // An immediate update does not read the time.
            let event = self.update_at(key, value, None, 0).unwrap();
            proof {
                assert(all.subrange(0, i + 1).drop_last() =~= all.subrange(0, i as int));
                assert forall|k: Seq<char>| self.record_of(k) == written_record(
                    all.subrange(0, i + 1),
                    k,
                ) by {
                    if k == all[i as int].0 {
                    } else {
                        assert(self.record_of(k) == before.record_of(k));
                    }
                }
            }
            events.push(event);
            i += 1;
        }
        assert(all.subrange(0, i as int) =~= all);
        events
    }
}

} // verus!
