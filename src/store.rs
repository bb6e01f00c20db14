use vstd::arithmetic::power::pow;
use vstd::prelude::*;
use vstd::string::StringExecFns;

verus! {

/// Whether a subscriber has confirmed the address.
#[derive(Clone, Copy, Debug, PartialEq, Eq, Structural)]
pub enum Status {
    Pending,
    Confirmed,
}

/// What the store refuses.
#[derive(Clone, Copy, Debug, PartialEq, Eq, Structural)]
pub enum StoreError {
    /// A generated key (subscriber id or token) is already taken.
    DuplicateKey,
    /// A row would refer to a subscriber that does not exist.
    ConstraintFailure,
    /// No row has the key asked for.
    NotFound,
}

/// One subscriber row.
#[derive(Debug)]
pub struct Subscriber {
    pub id: u128,
    pub email: String,
    pub name: String,
    pub created_at: i64,
    pub status: Status,
}

/// One confirmation token row.
#[derive(Debug)]
pub struct ConfirmationToken {
    pub token: String,
    pub subscriber_id: u128,
}

/// The committed rows. Every operation keeps `wf`: subscriber ids are unique,
/// token values are unique, and every token refers to a subscriber.
#[derive(Debug)]
pub struct SubscriptionStore {
    subscribers: Vec<Subscriber>,
    tokens: Vec<ConfirmationToken>,
}

/// Rows written inside one transaction; they become visible only through
/// `SubscriptionStore::commit`, and dropping the transaction aborts it.
#[derive(Debug)]
pub struct Transaction {
    subscribers: Vec<Subscriber>,
    tokens: Vec<ConfirmationToken>,
}

pub open spec fn id_in(subs: Seq<Subscriber>, id: u128) -> bool {
    exists|i: int| 0 <= i < subs.len() && subs[i].id == id
}

pub open spec fn token_in(toks: Seq<ConfirmationToken>, t: Seq<char>) -> bool {
    exists|i: int| 0 <= i < toks.len() && toks[i].token@ == t
}

/// Some row holds token `t` for subscriber `id`.
pub open spec fn token_refers(toks: Seq<ConfirmationToken>, t: Seq<char>, id: u128) -> bool {
    exists|i: int| 0 <= i < toks.len() && toks[i].token@ == t && toks[i].subscriber_id == id
}

/// The subscriber that token `t` stands for.
pub open spec fn token_owner(toks: Seq<ConfirmationToken>, t: Seq<char>) -> u128 {
    choose|id: u128| token_refers(toks, t, id)
}

pub open spec fn ids_unique(subs: Seq<Subscriber>) -> bool {
    forall|i: int, j: int|
        0 <= i < subs.len() && 0 <= j < subs.len() && i != j ==> subs[i].id != subs[j].id
}

pub open spec fn tokens_unique(toks: Seq<ConfirmationToken>) -> bool {
    forall|i: int, j: int|
        0 <= i < toks.len() && 0 <= j < toks.len() && i != j ==> toks[i].token@ != toks[j].token@
}

/// Referential integrity: every token refers to an existing subscriber.
pub open spec fn refs_resolve(subs: Seq<Subscriber>, toks: Seq<ConfirmationToken>) -> bool {
    forall|i: int| 0 <= i < toks.len() ==> id_in(subs, #[trigger] toks[i].subscriber_id)
}

pub open spec fn rows_wf(subs: Seq<Subscriber>, toks: Seq<ConfirmationToken>) -> bool {
    &&& ids_unique(subs)
    &&& tokens_unique(toks)
    &&& refs_resolve(subs, toks)
}

pub open spec fn is_pending_row(
    row: Subscriber,
    id: u128,
    email: Seq<char>,
    name: Seq<char>,
    created_at: i64,
) -> bool {
    &&& row.id == id
    &&& row.email@ == email
    &&& row.name@ == name
    &&& row.created_at == created_at
    &&& row.status == Status::Pending
}

pub open spec fn confirmed_row(row: Subscriber) -> Subscriber {
    Subscriber { status: Status::Confirmed, ..row }
}

/// The rows after the subscriber `id` is marked confirmed.
pub open spec fn confirm_id(subs: Seq<Subscriber>, id: u128) -> Seq<Subscriber> {
    subs.map_values(|s: Subscriber| if s.id == id { confirmed_row(s) } else { s })
}

/// Rows only grow, keep their ids and never go from confirmed back to pending.
pub open spec fn status_monotone(before: Seq<Subscriber>, after: Seq<Subscriber>) -> bool {
    &&& before.len() <= after.len()
    &&& forall|i: int|
        0 <= i < before.len() ==> {
            &&& after[i].id == before[i].id
            &&& (before[i].status == Status::Confirmed ==> #[trigger] after[i].status
                == Status::Confirmed)
        }
}

/// The status of subscriber `id`, if it exists.
pub open spec fn status_in(subs: Seq<Subscriber>, id: u128) -> Option<Status> {
    if id_in(subs, id) {
        Some(subs[choose|i: int| 0 <= i < subs.len() && subs[i].id == id].status)
    } else {
        None
    }
}

/// Relies on `uuid::Uuid::new_v4` for a fresh random identifier, taken as its
/// 128-bit value; nothing is known of the value.
#[verifier::external_body]
pub(crate) fn fresh_id() -> (r: u128) {
    uuid::Uuid::new_v4().as_u128()
}

pub open spec fn hex_digits() -> Seq<char> {
    seq!['0', '1', '2', '3', '4', '5', '6', '7', '8', '9', 'a', 'b', 'c', 'd', 'e', 'f']
}

/// Hex digit `k` (0 to 31, most significant first) of a 128-bit value.
pub open spec fn nibble(v: u128, k: int) -> int {
    (v as int / pow(16, (31 - k) as nat)) % 16
}

/// How many hyphens stand before position `p` of the hyphenated form.
pub open spec fn hyphens_before(p: int) -> int {
    if p > 23 {
        4
    } else if p > 18 {
        3
    } else if p > 13 {
        2
    } else if p > 8 {
        1
    } else {
        0
    }
}

/// The hyphenated text form of a UUID: its 32 lowercase hex digits, most
/// significant first, with a hyphen at positions 8, 13, 18 and 23.
pub open spec fn uuid_text_of(v: u128) -> Seq<char> {
    Seq::new(
        36,
        |p: int|
            if p == 8 || p == 13 || p == 18 || p == 23 {
                '-'
            } else {
                hex_digits()[nibble(v, p - hyphens_before(p))]
            },
    )
}

/// Relies on `uuid::Uuid::from_u128` and the `Display` of `uuid::Uuid` to write
/// a token value as hyphenated text: the text depends on the value alone.
#[verifier::external_body]
pub(crate) fn uuid_text(v: u128) -> (r: String)
    ensures
        r@ == uuid_text_of(v),
{
    uuid::Uuid::from_u128(v).to_string()
}

/// Whether `v[..n]` holds subscriber `id`.
fn has_id(v: &Vec<Subscriber>, n: usize, id: u128) -> (r: bool)
    requires
        n <= v@.len(),
    ensures
        r == id_in(v@.take(n as int), id),
{
    let mut i: usize = 0;
    while i < n
        invariant
            i <= n <= v@.len(),
            forall|k: int| 0 <= k < i ==> v@[k].id != id,
        decreases n - i,
    {
        if v[i].id == id {
            assert(v@.take(n as int)[i as int].id == id);
            return true;
        }
        i = i + 1;
    }
    false
}

/// Where subscriber `id` stands in `v`, if anywhere.
fn index_of_id(v: &Vec<Subscriber>, id: u128) -> (r: Option<usize>)
    ensures
        r matches Some(i) ==> i < v@.len() && v@[i as int].id == id,
        r is None ==> !id_in(v@, id),
{
    let mut i: usize = 0;
    while i < v.len()
        invariant
            i <= v@.len(),
            forall|k: int| 0 <= k < i ==> v@[k].id != id,
        decreases v@.len() - i,
    {
        if v[i].id == id {
            return Some(i);
        }
        i = i + 1;
    }
    None
}

/// Whether `v[..n]` holds token value `t`.
fn has_token(v: &Vec<ConfirmationToken>, n: usize, t: &String) -> (r: bool)
    requires
        n <= v@.len(),
    ensures
        r == token_in(v@.take(n as int), t@),
{
    let mut i: usize = 0;
    while i < n
        invariant
            i <= n <= v@.len(),
            forall|k: int| 0 <= k < i ==> v@[k].token@ != t@,
        decreases n - i,
    {
        if v[i].token == *t {
            assert(v@.take(n as int)[i as int].token@ == t@);
            return true;
        }
        i = i + 1;
    }
    false
}

/// Where token value `t` stands in `v`, if anywhere.
fn index_of_token(v: &Vec<ConfirmationToken>, t: &String) -> (r: Option<usize>)
    ensures
        r matches Some(i) ==> i < v@.len() && v@[i as int].token@ == t@,
        r is None ==> !token_in(v@, t@),
{
    let mut i: usize = 0;
    while i < v.len()
        invariant
            i <= v@.len(),
            forall|k: int| 0 <= k < i ==> v@[k].token@ != t@,
        decreases v@.len() - i,
    {
        if v[i].token == *t {
            return Some(i);
        }
        i = i + 1;
    }
    None
}

proof fn lemma_id_in_concat(a: Seq<Subscriber>, b: Seq<Subscriber>, id: u128)
    ensures
        id_in(a + b, id) == (id_in(a, id) || id_in(b, id)),
{
    if id_in(a + b, id) {
        let k = choose|k: int| 0 <= k < (a + b).len() && (a + b)[k].id == id;
        if k < a.len() {
            assert(a[k].id == id);
        } else {
            assert(b[k - a.len()].id == id);
        }
    }
    if id_in(a, id) {
        let k = choose|k: int| 0 <= k < a.len() && a[k].id == id;
        assert((a + b)[k].id == id);
    }
    if id_in(b, id) {
        let k = choose|k: int| 0 <= k < b.len() && b[k].id == id;
        assert((a + b)[a.len() + k].id == id);
    }
}


pub proof fn lemma_ids_unique_push(s: Seq<Subscriber>, x: Subscriber)
    requires
        ids_unique(s),
        !id_in(s, x.id),
    ensures
        ids_unique(s.push(x)),
{
    assert forall|i: int, j: int|
        0 <= i < s.push(x).len() && 0 <= j < s.push(x).len() && i != j implies s.push(x)[i].id
        != s.push(x)[j].id by {
        if i == s.len() {
            assert(s[j].id != x.id);
        } else if j == s.len() {
            assert(s[i].id != x.id);
        }
    }
}

pub proof fn lemma_tokens_unique_push(s: Seq<ConfirmationToken>, x: ConfirmationToken)
    requires
        tokens_unique(s),
        !token_in(s, x.token@),
    ensures
        tokens_unique(s.push(x)),
{
    assert forall|i: int, j: int|
        0 <= i < s.push(x).len() && 0 <= j < s.push(x).len() && i != j implies s.push(x)[i].token@
        != s.push(x)[j].token@ by {
        if i == s.len() {
            assert(s[j].token@ != x.token@);
        } else if j == s.len() {
            assert(s[i].token@ != x.token@);
        }
    }
}

proof fn lemma_token_in_concat(a: Seq<ConfirmationToken>, b: Seq<ConfirmationToken>, t: Seq<char>)
    ensures
        token_in(a + b, t) == (token_in(a, t) || token_in(b, t)),
{
    if token_in(a + b, t) {
        let k = choose|k: int| 0 <= k < (a + b).len() && (a + b)[k].token@ == t;
        if k < a.len() {
            assert(a[k].token@ == t);
        } else {
            assert(b[k - a.len()].token@ == t);
        }
    }
    if token_in(a, t) {
        let k = choose|k: int| 0 <= k < a.len() && a[k].token@ == t;
        assert((a + b)[k].token@ == t);
    }
    if token_in(b, t) {
        let k = choose|k: int| 0 <= k < b.len() && b[k].token@ == t;
        assert((a + b)[a.len() + k].token@ == t);
    }
}

/// Under unique tokens, a token names one subscriber only.
pub proof fn lemma_token_owner(toks: Seq<ConfirmationToken>, t: Seq<char>, id: u128)
    requires
        tokens_unique(toks),
        token_refers(toks, t, id),
    ensures
        token_owner(toks, t) == id,
{
    let o = token_owner(toks, t);
    assert(token_refers(toks, t, o));
    let i = choose|i: int| 0 <= i < toks.len() && toks[i].token@ == t && toks[i].subscriber_id == id;
    let j = choose|j: int| 0 <= j < toks.len() && toks[j].token@ == t && toks[j].subscriber_id == o;
    assert(i == j);
}

/// Under unique ids, the status of a subscriber is read off its one row.
pub proof fn lemma_status_at(subs: Seq<Subscriber>, i: int)
    requires
        ids_unique(subs),
        0 <= i < subs.len(),
    ensures
        status_in(subs, subs[i].id) == Some(subs[i].status),
{
    let id = subs[i].id;
    assert(id_in(subs, id));
    let k = choose|k: int| 0 <= k < subs.len() && subs[k].id == id;
    assert(k == i);
}

/// Status never goes from confirmed back to pending over any sequence of
/// operations: each operation keeps `status_monotone`, and it composes.
pub proof fn lemma_status_monotone_trans(a: Seq<Subscriber>, b: Seq<Subscriber>, c: Seq<Subscriber>)
    requires
        status_monotone(a, b),
        status_monotone(b, c),
    ensures
        status_monotone(a, c),
{
    assert forall|i: int| 0 <= i < a.len() implies c[i].id == a[i].id && (a[i].status
        == Status::Confirmed ==> #[trigger] c[i].status == Status::Confirmed) by {
        assert(b[i].id == a[i].id);
        if a[i].status == Status::Confirmed {
            assert(b[i].status == Status::Confirmed);
        }
    }
}

impl Transaction {
    pub closed spec fn subscriber_rows(&self) -> Seq<Subscriber> {
        self.subscribers@
    }

    pub closed spec fn token_rows(&self) -> Seq<ConfirmationToken> {
        self.tokens@
    }

    /// Whether the transaction holds exactly one row of each kind: pending
    /// subscriber `id`, and token `token` referring to it.
    pub fn holds_one_registration(&self, id: u128, token: &String) -> (r: bool)
        ensures
            r == (self.subscriber_rows().len() == 1 && self.subscriber_rows()[0].id == id
                && self.subscriber_rows()[0].status == Status::Pending
                && self.token_rows().len() == 1 && self.token_rows()[0].token@ == token@
                && self.token_rows()[0].subscriber_id == id),
    {
        if self.subscribers.len() != 1 || self.tokens.len() != 1 {
            return false;
        }
        let pending = match self.subscribers[0].status {
            Status::Pending => true,
            Status::Confirmed => false,
        };
        self.subscribers[0].id == id && pending && self.tokens[0].token == *token
            && self.tokens[0].subscriber_id == id
    }
}

impl SubscriptionStore {
    pub closed spec fn subscriber_rows(&self) -> Seq<Subscriber> {
        self.subscribers@
    }

    pub closed spec fn token_rows(&self) -> Seq<ConfirmationToken> {
        self.tokens@
    }

    /// Ids unique, token values unique, every token refers to a subscriber.
    #[verifier::type_invariant]
    pub open spec fn wf(&self) -> bool {
        rows_wf(self.subscriber_rows(), self.token_rows())
    }

    /// An empty store.
    pub fn new() -> (r: SubscriptionStore)
        ensures
            r.wf(),
            r.subscriber_rows() == Seq::<Subscriber>::empty(),
            r.token_rows() == Seq::<ConfirmationToken>::empty(),
    {
        SubscriptionStore { subscribers: Vec::new(), tokens: Vec::new() }
    }

    /// Opens a transaction with no rows written yet.
    pub fn begin_transaction(&self) -> (tx: Transaction)
        ensures
            tx.subscriber_rows() == Seq::<Subscriber>::empty(),
            tx.token_rows() == Seq::<ConfirmationToken>::empty(),
    {
        Transaction { subscribers: Vec::new(), tokens: Vec::new() }
    }

    /// Whether the rows of `tx`, added to these, keep every constraint.
    fn can_commit(&self, tx: &Transaction) -> (r: bool)
        ensures
            r == rows_wf(
                self.subscriber_rows() + tx.subscriber_rows(),
                self.token_rows() + tx.token_rows(),
            ),
    {
        proof {
            use_type_invariant(self);
        }
        let ghost a = self.subscribers@;
        let ghost b = tx.subscribers@;
        let ghost at = self.tokens@;
        let ghost bt = tx.tokens@;
        let n = self.subscribers.len();
        let m = tx.subscribers.len();
        assert(a.take(n as int) == a);
        assert(b.take(m as int) == b);
        let mut k: usize = 0;
        while k < m
            invariant
                n == a.len(),
                m == b.len(),
                k <= m,
                a == self.subscribers@,
                b == tx.subscribers@,
                a.take(n as int) == a,
                ids_unique(a),
                ids_unique(a + b.take(k as int)),
            decreases m - k,
        {
            let id = tx.subscribers[k].id;
            if has_id(&self.subscribers, n, id) || has_id(&tx.subscribers, k, id) {
                proof {
                    if id_in(a, id) {
                        let i = choose|i: int| 0 <= i < a.len() && a[i].id == id;
                        assert((a + b)[i].id == (a + b)[n + k].id);
                    } else {
                        let j = choose|j: int| 0 <= j < k && b.take(k as int)[j].id == id;
                        assert((a + b)[n + j].id == (a + b)[n + k].id);
                    }
                }
                return false;
            }
            proof {
                lemma_id_in_concat(a, b.take(k as int), id);
                lemma_ids_unique_push(a + b.take(k as int), b[k as int]);
                assert(a + b.take(k + 1) == (a + b.take(k as int)).push(b[k as int]));
            }
            k = k + 1;
        }
        let nt = self.tokens.len();
        let mt = tx.tokens.len();
        assert(at.take(nt as int) == at);
        let mut k: usize = 0;
        while k < mt
            invariant
                nt == at.len(),
                mt == bt.len(),
                k <= mt,
                at == self.tokens@,
                bt == tx.tokens@,
                at.take(nt as int) == at,
                tokens_unique(at),
                tokens_unique(at + bt.take(k as int)),
            decreases mt - k,
        {
            let t = &tx.tokens[k].token;
            if has_token(&self.tokens, nt, t) || has_token(&tx.tokens, k, t) {
                proof {
                    if token_in(at, t@) {
                        let i = choose|i: int| 0 <= i < at.len() && at[i].token@ == t@;
                        assert((at + bt)[i].token@ == (at + bt)[nt + k].token@);
                    } else {
                        let j = choose|j: int| 0 <= j < k && bt.take(k as int)[j].token@ == t@;
                        assert((at + bt)[nt + j].token@ == (at + bt)[nt + k].token@);
                    }
                }
                return false;
            }
            proof {
                lemma_token_in_concat(at, bt.take(k as int), t@);
                lemma_tokens_unique_push(at + bt.take(k as int), bt[k as int]);
                assert(at + bt.take(k + 1) == (at + bt.take(k as int)).push(bt[k as int]));
            }
            k = k + 1;
        }
        assert(a + b.take(m as int) == a + b);
        assert(at + bt.take(mt as int) == at + bt);
        let mut k: usize = 0;
        while k < mt
            invariant
                n == a.len(),
                m == b.len(),
                mt == bt.len(),
                k <= mt,
                a == self.subscribers@,
                b == tx.subscribers@,
                at == self.tokens@,
                bt == tx.tokens@,
                a.take(n as int) == a,
                b.take(m as int) == b,
                forall|j: int| 0 <= j < k ==> id_in(a + b, #[trigger] bt[j].subscriber_id),
            decreases mt - k,
        {
            let sid = tx.tokens[k].subscriber_id;
            proof {
                lemma_id_in_concat(a, b, sid);
            }
            if !(has_id(&self.subscribers, n, sid) || has_id(&tx.subscribers, m, sid)) {
                assert((at + bt)[at.len() + k].subscriber_id == sid);
                return false;
            }
            k = k + 1;
        }
        assert forall|i: int| 0 <= i < (at + bt).len() implies id_in(
            a + b,
            #[trigger] (at + bt)[i].subscriber_id,
        ) by {
            if i < at.len() {
                assert(id_in(a, at[i].subscriber_id));
                lemma_id_in_concat(a, b, at[i].subscriber_id);
            } else {
                assert((at + bt)[i] == bt[i - at.len()]);
            }
        }
        true
    }

    /// Makes the rows of `tx` visible, all of them or, where one would break a
    /// constraint, none.
    pub fn commit(&mut self, tx: Transaction) -> (r: Result<(), StoreError>)
        ensures
            final(self).wf(),
            r is Ok <==> rows_wf(
                old(self).subscriber_rows() + tx.subscriber_rows(),
                old(self).token_rows() + tx.token_rows(),
            ),
            r is Ok ==> final(self).subscriber_rows() == old(self).subscriber_rows()
                + tx.subscriber_rows() && final(self).token_rows() == old(self).token_rows()
                + tx.token_rows(),
            r is Err ==> r == Err::<(), StoreError>(StoreError::ConstraintFailure) && *final(self)
                == *old(self),
            status_monotone(old(self).subscriber_rows(), final(self).subscriber_rows()),
    {
        proof {
            use_type_invariant(&*self);
        }
        if !self.can_commit(&tx) {
            return Err(StoreError::ConstraintFailure);
        }
        let mut current = SubscriptionStore::new();
        std::mem::swap(self, &mut current);
        let SubscriptionStore { mut subscribers, mut tokens } = current;
        let mut tx = tx;
        subscribers.append(&mut tx.subscribers);
        tokens.append(&mut tx.tokens);
        *self = SubscriptionStore { subscribers, tokens };
        Ok(())
    }

    /// Writes a pending subscriber with the given id into `tx`, unless the id is
    /// taken here or in `tx`.
    pub fn insert_subscriber_with_id(
        &self,
        tx: &mut Transaction,
        id: u128,
        email: &str,
        name: &str,
        created_at: i64,
    ) -> (r: Result<u128, StoreError>)
        ensures
            r is Err <==> id_in(self.subscriber_rows(), id) || id_in(
                old(tx).subscriber_rows(),
                id,
            ),
            r is Err ==> r == Err::<u128, StoreError>(StoreError::DuplicateKey) && *final(tx)
                == *old(tx),
            r is Ok ==> {
                &&& r == Ok::<u128, StoreError>(id)
                &&& final(tx).token_rows() == old(tx).token_rows()
                &&& final(tx).subscriber_rows().len() == old(tx).subscriber_rows().len() + 1
                &&& final(tx).subscriber_rows().drop_last() == old(tx).subscriber_rows()
                &&& is_pending_row(final(tx).subscriber_rows().last(), id, email@, name@, created_at)
            },
    {
        let n = self.subscribers.len();
        let m = tx.subscribers.len();
        assert(self.subscribers@.take(n as int) == self.subscribers@);
        assert(tx.subscribers@.take(m as int) == tx.subscribers@);
        if has_id(&self.subscribers, n, id) || has_id(&tx.subscribers, m, id) {
            return Err(StoreError::DuplicateKey);
        }
        let row = Subscriber {
            id,
            email: String::from_str(email),
            name: String::from_str(name),
            created_at,
            status: Status::Pending,
        };
        tx.subscribers.push(row);
        assert(tx.subscribers@.drop_last() == old(tx).subscribers@);
        Ok(id)
    }

    /// Writes a pending subscriber with a freshly generated id into `tx`.
    pub fn insert_pending_subscriber(
        &self,
        tx: &mut Transaction,
        email: &str,
        name: &str,
        created_at: i64,
    ) -> (r: Result<u128, StoreError>)
        ensures
            r is Err ==> r == Err::<u128, StoreError>(StoreError::DuplicateKey) && *final(tx)
                == *old(tx),
            r is Err ==> self.subscriber_rows().len() + old(tx).subscriber_rows().len() > 0,
            r matches Ok(id) ==> {
                &&& !id_in(self.subscriber_rows(), id)
                &&& !id_in(old(tx).subscriber_rows(), id)
                &&& final(tx).token_rows() == old(tx).token_rows()
                &&& final(tx).subscriber_rows().len() == old(tx).subscriber_rows().len() + 1
                &&& final(tx).subscriber_rows().drop_last() == old(tx).subscriber_rows()
                &&& is_pending_row(final(tx).subscriber_rows().last(), id, email@, name@, created_at)
            },
    {
        let id = fresh_id();
        self.insert_subscriber_with_id(tx, id, email, name, created_at)
    }

    /// Writes the token row (`token`, `subscriber_id`) into `tx`. Refused when
    /// the subscriber exists neither here nor in `tx`, or when the token value
    /// is taken.
    pub fn add_token(&self, tx: &mut Transaction, token: String, subscriber_id: u128) -> (r: Result<
        String,
        StoreError,
    >)
        ensures
            !id_in(self.subscriber_rows(), subscriber_id) && !id_in(
                old(tx).subscriber_rows(),
                subscriber_id,
            ) ==> r == Err::<String, StoreError>(StoreError::ConstraintFailure),
            (id_in(self.subscriber_rows(), subscriber_id) || id_in(
                old(tx).subscriber_rows(),
                subscriber_id,
            )) && (token_in(self.token_rows(), token@) || token_in(old(tx).token_rows(), token@))
                ==> r == Err::<String, StoreError>(StoreError::DuplicateKey),
            r is Err ==> *final(tx) == *old(tx),
            r is Ok <==> (id_in(self.subscriber_rows(), subscriber_id) || id_in(
                old(tx).subscriber_rows(),
                subscriber_id,
            )) && !token_in(self.token_rows(), token@) && !token_in(old(tx).token_rows(), token@),
            r matches Ok(t) ==> {
                &&& t@ == token@
                &&& final(tx).subscriber_rows() == old(tx).subscriber_rows()
                &&& final(tx).token_rows().len() == old(tx).token_rows().len() + 1
                &&& final(tx).token_rows().drop_last() == old(tx).token_rows()
                &&& final(tx).token_rows().last().token@ == token@
                &&& final(tx).token_rows().last().subscriber_id == subscriber_id
            },
    {
        let n = self.subscribers.len();
        let m = tx.subscribers.len();
        assert(self.subscribers@.take(n as int) == self.subscribers@);
        assert(tx.subscribers@.take(m as int) == tx.subscribers@);
        if !(has_id(&self.subscribers, n, subscriber_id) || has_id(&tx.subscribers, m, subscriber_id)) {
            return Err(StoreError::ConstraintFailure);
        }
        let nt = self.tokens.len();
        let mt = tx.tokens.len();
        assert(self.tokens@.take(nt as int) == self.tokens@);
        assert(tx.tokens@.take(mt as int) == tx.tokens@);
        if has_token(&self.tokens, nt, &token) || has_token(&tx.tokens, mt, &token) {
            return Err(StoreError::DuplicateKey);
        }
        let kept = token.clone();
        tx.tokens.push(ConfirmationToken { token, subscriber_id });
        assert(tx.tokens@.drop_last() == old(tx).tokens@);
        Ok(kept)
    }

    /// Writes a token row with a freshly generated token value for
    /// `subscriber_id` into `tx`.
    pub fn mint_token(&self, tx: &mut Transaction, subscriber_id: u128) -> (r: Result<
        String,
        StoreError,
    >)
        ensures
            !id_in(self.subscriber_rows(), subscriber_id) && !id_in(
                old(tx).subscriber_rows(),
                subscriber_id,
            ) ==> r == Err::<String, StoreError>(StoreError::ConstraintFailure),
            r is Err ==> *final(tx) == *old(tx),
            (id_in(self.subscriber_rows(), subscriber_id) || id_in(
                old(tx).subscriber_rows(),
                subscriber_id,
            )) && r is Err ==> r == Err::<String, StoreError>(StoreError::DuplicateKey),
            (id_in(self.subscriber_rows(), subscriber_id) || id_in(
                old(tx).subscriber_rows(),
                subscriber_id,
            )) && r is Err ==> self.token_rows().len() + old(tx).token_rows().len() > 0,
            r matches Ok(t) ==> {
                &&& id_in(self.subscriber_rows(), subscriber_id) || id_in(
                    old(tx).subscriber_rows(),
                    subscriber_id,
                )
                &&& !token_in(self.token_rows(), t@)
                &&& !token_in(old(tx).token_rows(), t@)
                &&& final(tx).subscriber_rows() == old(tx).subscriber_rows()
                &&& final(tx).token_rows().len() == old(tx).token_rows().len() + 1
                &&& final(tx).token_rows().drop_last() == old(tx).token_rows()
                &&& final(tx).token_rows().last().token@ == t@
                &&& final(tx).token_rows().last().subscriber_id == subscriber_id
            },
    {
        let token = uuid_text(fresh_id());
        self.add_token(tx, token, subscriber_id)
    }

    /// The subscriber that `token` stands for.
    pub fn resolve_subscriber_by_token(&self, token: &str) -> (r: Result<u128, StoreError>)
        ensures
            r is Ok <==> token_in(self.token_rows(), token@),
            r matches Ok(id) ==> id == token_owner(self.token_rows(), token@)
                && token_refers(self.token_rows(), token@, id) && id_in(self.subscriber_rows(), id),
            r is Err ==> r == Err::<u128, StoreError>(StoreError::NotFound),
    {
        proof {
            use_type_invariant(self);
        }
        let t = String::from_str(token);
        match index_of_token(&self.tokens, &t) {
            None => Err(StoreError::NotFound),
            Some(i) => {
                let id = self.tokens[i].subscriber_id;
                proof {
                    assert(token_refers(self.tokens@, token@, id));
                    lemma_token_owner(self.tokens@, token@, id);
                    assert(id_in(self.subscribers@, self.tokens@[i as int].subscriber_id));
                }
                Ok(id)
            },
        }
    }

    /// Marks subscriber `id` confirmed; a subscriber already confirmed stays as
    /// it is.
    pub fn mark_confirmed(&mut self, id: u128) -> (r: Result<(), StoreError>)
        ensures
            final(self).wf(),
            r is Ok <==> id_in(old(self).subscriber_rows(), id),
            r is Ok ==> final(self).subscriber_rows() == confirm_id(old(self).subscriber_rows(), id),
            r is Err ==> r == Err::<(), StoreError>(StoreError::NotFound)
                && *final(self) == *old(self),
            final(self).token_rows() == old(self).token_rows(),
            status_monotone(old(self).subscriber_rows(), final(self).subscriber_rows()),
    {
        proof {
            use_type_invariant(&*self);
        }
        match index_of_id(&self.subscribers, id) {
            None => Err(StoreError::NotFound),
            Some(i) => {
                let ghost before = self.subscribers@;
                let mut current = SubscriptionStore::new();
                std::mem::swap(self, &mut current);
                let SubscriptionStore { mut subscribers, tokens } = current;
                match subscribers[i].status {
                    Status::Pending => {
                        subscribers[i].status = Status::Confirmed;
                    },
                    Status::Confirmed => {},
                }
                proof {
                    let after = subscribers@;
                    assert forall|k: int| 0 <= k < after.len() implies #[trigger] after[k]
                        == confirm_id(before, id)[k] by {
                        if k != i {
                            assert(before[k].id != before[i as int].id);
                        }
                    }
                    assert(after =~= confirm_id(before, id));
                    assert forall|x: u128| id_in(before, x) implies id_in(after, x) by {
                        let k = choose|k: int| 0 <= k < before.len() && before[k].id == x;
                        assert(after[k].id == x);
                    }
                }
                *self = SubscriptionStore { subscribers, tokens };
                Ok(())
            },
        }
    }

    /// The status of subscriber `id`, if it exists.
    pub fn status_of(&self, id: u128) -> (r: Option<Status>)
        ensures
            r == status_in(self.subscriber_rows(), id),
    {
        proof {
            use_type_invariant(self);
        }
        match index_of_id(&self.subscribers, id) {
            None => None,
            Some(i) => {
                proof {
                    lemma_status_at(self.subscribers@, i as int);
                }
                Some(self.subscribers[i].status)
            },
        }
    }

    /// The row of subscriber `id`, if it exists.
    pub fn find_subscriber(&self, id: u128) -> (r: Option<&Subscriber>)
        ensures
            r is None <==> !id_in(self.subscriber_rows(), id),
            r matches Some(row) ==> row.id == id && exists|i: int|
                0 <= i < self.subscriber_rows().len() && self.subscriber_rows()[i] == *row,
    {
        match index_of_id(&self.subscribers, id) {
            None => None,
            Some(i) => Some(&self.subscribers[i]),
        }
    }

    /// A token value that refers to subscriber `id`, if one does.
    pub fn token_for(&self, id: u128) -> (r: Option<String>)
        ensures
            r matches Some(t) ==> token_refers(self.token_rows(), t@, id),
            r is None ==> forall|i: int|
                0 <= i < self.token_rows().len() ==> #[trigger] self.token_rows()[i].subscriber_id
                    != id,
    {
        let mut i: usize = 0;
        while i < self.tokens.len()
            invariant
                i <= self.tokens@.len(),
                forall|k: int| 0 <= k < i ==> #[trigger] self.tokens@[k].subscriber_id != id,
            decreases self.tokens@.len() - i,
        {
            if self.tokens[i].subscriber_id == id {
                let t = self.tokens[i].token.clone();
                assert(self.tokens@[i as int].token@ == t@);
                return Some(t);
            }
            i = i + 1;
        }
        None
    }

    pub fn subscriber_count(&self) -> (r: usize)
        ensures
            r == self.subscriber_rows().len(),
    {
        self.subscribers.len()
    }

    pub fn token_count(&self) -> (r: usize)
        ensures
            r == self.token_rows().len(),
    {
        self.tokens.len()
    }
}

} // verus!
