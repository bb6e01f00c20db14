use crate::store::{
    fresh_id, id_in, ids_unique, is_pending_row, lemma_ids_unique_push, lemma_status_at,
    lemma_tokens_unique_push, rows_wf, status_in, status_monotone, token_in, uuid_text,
    ConfirmationToken, Status, StoreError, Subscriber, SubscriptionStore, Transaction,
};
use crate::validation::{
    email_fault, is_valid_email, is_valid_username, username_fault, validate, Field,
    ValidationFailure,
};
use vstd::prelude::*;
use vstd::string::StringExecFns;

verus! {

/// A registration request: the address and the display name.
#[derive(Debug)]
pub struct SubscriberInfo {
    pub email: String,
    pub username: String,
}

impl SubscriberInfo {
    pub open spec fn is_valid(&self) -> bool {
        is_valid_email(self.email@) && is_valid_username(self.username@)
    }

    /// The first rule that the request breaks, the address checked first.
    pub open spec fn failure(&self) -> Option<ValidationFailure> {
        if !is_valid_email(self.email@) {
            Some(ValidationFailure { field: Field::Email, reason: email_fault(self.email@)->0 })
        } else if !is_valid_username(self.username@) {
            Some(ValidationFailure { field: Field::Username, reason: username_fault(self.username@)->0 })
        } else {
            None
        }
    }

    /// Checks the address first, then the display name.
    pub fn validate(&self) -> (r: Result<(), ValidationFailure>)
        ensures
            r is Ok <==> self.is_valid(),
            r matches Err(f) ==> self.failure() == Some(f),
    {
        validate(self.email.as_str(), self.username.as_str())
    }
}

/// Why a registration failed.
#[derive(Clone, Copy, Debug, PartialEq, Eq, Structural)]
pub enum SubscriptionError {
    /// The input was malformed.
    ValidationError(ValidationFailure),
    /// The store refused a write.
    PersistenceError(StoreError),
    /// The confirmation message could not be delivered.
    DeliveryError,
}

impl SubscriptionError {
    /// The HTTP status that the error is answered with.
    pub fn status_code(&self) -> (r: u16)
        ensures
            r == (if self is ValidationError {
                400u16
            } else {
                500u16
            }),
    {
        match self {
            SubscriptionError::ValidationError(_) => 400,
            _ => 500,
        }
    }
}

/// The message that asks a new subscriber to confirm.
#[derive(Debug)]
pub struct ConfirmationEmail {
    pub recipient: String,
    pub subject: String,
    pub html_body: String,
    pub text_body: String,
}

pub open spec fn link_of(host: Seq<char>, token: Seq<char>) -> Seq<char> {
    "http://"@ + host + "/subscription/confirm?token="@ + token
}

pub open spec fn text_body_of(link: Seq<char>) -> Seq<char> {
    "Welcome to our newsletter!\nVisit "@ + link + " to confirm your subscription."@
}

pub open spec fn html_body_of(link: Seq<char>) -> Seq<char> {
    "Welcome to our newsletter!<br />Click <a href=\""@ + link
        + "\">here</a> to confirm your subscription."@
}

pub open spec fn is_confirmation_email(
    m: ConfirmationEmail,
    recipient: Seq<char>,
    host: Seq<char>,
    token: Seq<char>,
) -> bool {
    &&& m.recipient@ == recipient
    &&& m.subject@ == "Welcome!"@
    &&& m.html_body@ == html_body_of(link_of(host, token))
    &&& m.text_body@ == text_body_of(link_of(host, token))
}

/// The address a subscriber visits to confirm: `http://<host>/subscription/confirm?token=<token>`.
pub fn confirmation_link(host: &str, token: &str) -> (r: String)
    ensures
        r@ == link_of(host@, token@),
{
    let mut s = String::from_str("http://");
    s.append(host);
    s.append("/subscription/confirm?token=");
    s.append(token);
    s
}

/// The confirmation message for `recipient`, whose bodies both carry the
/// confirmation link.
pub fn confirmation_email(recipient: &str, host: &str, token: &str) -> (r: ConfirmationEmail)
    ensures
        is_confirmation_email(r, recipient@, host@, token@),
{
    let link = confirmation_link(host, token);
    let mut text = String::from_str("Welcome to our newsletter!\nVisit ");
    text.append(link.as_str());
    text.append(" to confirm your subscription.");
    let mut html = String::from_str("Welcome to our newsletter!<br />Click <a href=\"");
    html.append(link.as_str());
    html.append("\">here</a> to confirm your subscription.");
    ConfirmationEmail {
        recipient: String::from_str(recipient),
        subject: String::from_str("Welcome!"),
        html_body: html,
        text_body: text,
    }
}

/// A registration whose rows are written in an open transaction and whose
/// message is ready to send. Nothing of it is visible in the store until
/// `finish_subscription` commits it.
#[derive(Debug)]
pub struct PendingRegistration {
    pub subscriber_id: u128,
    pub token: String,
    pub message: ConfirmationEmail,
    pub transaction: Transaction,
}

impl PendingRegistration {
    /// The transaction holds exactly one pending subscriber row and one token
    /// row that refers to it.
    pub open spec fn is_staged(&self) -> bool {
        &&& self.transaction.subscriber_rows().len() == 1
        &&& self.transaction.subscriber_rows()[0].id == self.subscriber_id
        &&& self.transaction.subscriber_rows()[0].status == Status::Pending
        &&& self.transaction.token_rows().len() == 1
        &&& self.transaction.token_rows()[0].token@ == self.token@
        &&& self.transaction.token_rows()[0].subscriber_id == self.subscriber_id
    }

    /// The staged rows are those of `info`, and the message goes to its address
    /// with a link that carries the token.
    pub open spec fn stages(&self, info: &SubscriberInfo, host: Seq<char>, created_at: i64) -> bool {
        &&& self.is_staged()
        &&& is_pending_row(
            self.transaction.subscriber_rows()[0],
            self.subscriber_id,
            info.email@,
            info.username@,
            created_at,
        )
        &&& is_confirmation_email(self.message, info.email@, host, self.token@)
    }
}

/// Validates `info`, then writes its pending subscriber under `id` and the
/// token row `token` in a new transaction, and prepares the confirmation
/// message. The store is only read.
pub fn subscribe_with_keys(
    store: &SubscriptionStore,
    info: &SubscriberInfo,
    host: &str,
    created_at: i64,
    id: u128,
    token: String,
) -> (r: Result<PendingRegistration, SubscriptionError>)
    ensures
        r is Ok <==> info.is_valid() && !id_in(store.subscriber_rows(), id) && !token_in(
            store.token_rows(),
            token@,
        ),
        !info.is_valid() ==> r matches Err(SubscriptionError::ValidationError(_)),
        r matches Err(SubscriptionError::ValidationError(f)) ==> info.failure() == Some(f),
        info.is_valid() && id_in(store.subscriber_rows(), id) ==> r == Err::<
            PendingRegistration,
            SubscriptionError,
        >(SubscriptionError::PersistenceError(StoreError::DuplicateKey)),
        info.is_valid() && !id_in(store.subscriber_rows(), id) && token_in(
            store.token_rows(),
            token@,
        ) ==> r == Err::<PendingRegistration, SubscriptionError>(
            SubscriptionError::PersistenceError(StoreError::DuplicateKey),
        ),
        r matches Ok(p) ==> p.stages(info, host@, created_at) && p.subscriber_id == id
            && p.token@ == token@,
{
    match info.validate() {
        Err(f) => {
            return Err(SubscriptionError::ValidationError(f));
        },
        Ok(()) => {},
    }
    let mut tx = store.begin_transaction();
    let sid = match store.insert_subscriber_with_id(
        &mut tx,
        id,
        info.email.as_str(),
        info.username.as_str(),
        created_at,
    ) {
        Err(e) => {
            return Err(SubscriptionError::PersistenceError(e));
        },
        Ok(sid) => sid,
    };
    assert(tx.subscriber_rows() == seq![tx.subscriber_rows()[0]]);
    assert(id_in(tx.subscriber_rows(), id));
    let t = match store.add_token(&mut tx, token, sid) {
        Err(e) => {
            return Err(SubscriptionError::PersistenceError(e));
        },
        Ok(t) => t,
    };
    let message = confirmation_email(info.email.as_str(), host, t.as_str());
    Ok(PendingRegistration { subscriber_id: sid, token: t, message, transaction: tx })
}

/// Starts a registration with a generated subscriber id and token; see
/// `subscribe_with_keys`. A generated key can only collide with a row that
/// exists: on an empty store a valid request is always staged.
pub fn subscribe(store: &SubscriptionStore, info: &SubscriberInfo, host: &str, created_at: i64) -> (r:
    Result<PendingRegistration, SubscriptionError>)
    ensures
        !info.is_valid() ==> r matches Err(SubscriptionError::ValidationError(_)),
        r matches Err(SubscriptionError::ValidationError(f)) ==> info.failure() == Some(f),
        r matches Err(e) ==> e is ValidationError || e == SubscriptionError::PersistenceError(
            StoreError::DuplicateKey,
        ),
        r == Err::<PendingRegistration, SubscriptionError>(
            SubscriptionError::PersistenceError(StoreError::DuplicateKey),
        ) ==> store.subscriber_rows().len() > 0 || store.token_rows().len() > 0,
        info.is_valid() && store.subscriber_rows().len() == 0 && store.token_rows().len() == 0
            ==> r is Ok,
        r matches Ok(p) ==> {
            &&& info.is_valid()
            &&& p.stages(info, host@, created_at)
            &&& !id_in(store.subscriber_rows(), p.subscriber_id)
            &&& !token_in(store.token_rows(), p.token@)
        },
{
    let id = fresh_id();
    let token = uuid_text(fresh_id());
    subscribe_with_keys(store, info, host, created_at, id, token)
}

/// After the registration: exactly one subscriber row has `id` and it is
/// pending, and exactly one token row refers to it, the one holding `token`.
pub open spec fn registered_once(
    subs: Seq<Subscriber>,
    toks: Seq<ConfirmationToken>,
    id: u128,
    token: Seq<char>,
) -> bool {
    &&& exists|i: int|
        0 <= i < subs.len() && subs[i].id == id && forall|j: int|
            0 <= j < subs.len() && #[trigger] subs[j].id == id ==> j == i
    &&& status_in(subs, id) == Some(Status::Pending)
    &&& exists|i: int|
        0 <= i < toks.len() && toks[i].subscriber_id == id && toks[i].token@ == token && forall|
            j: int,
        | 0 <= j < toks.len() && #[trigger] toks[j].subscriber_id == id ==> j == i
}

proof fn lemma_commit_one(
    subs: Seq<Subscriber>,
    toks: Seq<ConfirmationToken>,
    row: Subscriber,
    trow: ConfirmationToken,
)
    requires
        rows_wf(subs, toks),
        trow.subscriber_id == row.id,
    ensures
        rows_wf(subs + seq![row], toks + seq![trow]) <==> !id_in(subs, row.id) && !token_in(
            toks,
            trow.token@,
        ),
        !id_in(subs, row.id) && row.status == Status::Pending ==> registered_once(
            subs + seq![row],
            toks + seq![trow],
            row.id,
            trow.token@,
        ),
{
    let s2 = subs + seq![row];
    let t2 = toks + seq![trow];
    assert(s2 == subs.push(row));
    assert(t2 == toks.push(trow));
    if id_in(subs, row.id) {
        let i = choose|i: int| 0 <= i < subs.len() && subs[i].id == row.id;
        assert(s2[i].id == s2[subs.len() as int].id);
    }
    if token_in(toks, trow.token@) {
        let i = choose|i: int| 0 <= i < toks.len() && toks[i].token@ == trow.token@;
        assert(t2[i].token@ == t2[toks.len() as int].token@);
    }
    if !id_in(subs, row.id) {
        lemma_ids_unique_push(subs, row);
    }
    if !id_in(subs, row.id) && !token_in(toks, trow.token@) {
        lemma_tokens_unique_push(toks, trow);
        assert forall|i: int| 0 <= i < t2.len() implies id_in(
            s2,
            #[trigger] t2[i].subscriber_id,
        ) by {
            if i < toks.len() {
                assert(id_in(subs, toks[i].subscriber_id));
                let k = choose|k: int| 0 <= k < subs.len() && subs[k].id == toks[i].subscriber_id;
                assert(s2[k].id == t2[i].subscriber_id);
            } else {
                assert(s2[subs.len() as int].id == t2[i].subscriber_id);
            }
        }
    }
    if !id_in(subs, row.id) && row.status == Status::Pending {
        let n = subs.len() as int;
        assert forall|j: int| 0 <= j < s2.len() && #[trigger] s2[j].id == row.id implies j == n by {
            if j < n {
                assert(subs[j].id == row.id);
            }
        }
        assert(s2[n].id == row.id);
        lemma_status_at(s2, n);
        let m = toks.len() as int;
        assert forall|j: int|
            0 <= j < t2.len() && #[trigger] t2[j].subscriber_id == row.id implies j == m by {
            if j < m {
                assert(id_in(subs, toks[j].subscriber_id));
            }
        }
        assert(t2[m].subscriber_id == row.id && t2[m].token@ == trow.token@);
    }
}

/// A registration whose delivery failed leaves no row of it behind. Finishing
/// it leaves the store as it was, and `subscribe` staged only keys that the
/// store did not hold; so no subscriber row has the staged id, and no token
/// row holds the staged token or refers to the staged subscriber.
pub proof fn lemma_failed_delivery_leaves_no_rows(
    subs: Seq<Subscriber>,
    toks: Seq<ConfirmationToken>,
    id: u128,
    token: Seq<char>,
)
    requires
        rows_wf(subs, toks),
        !id_in(subs, id),
        !token_in(toks, token),
    ensures
        forall|i: int| 0 <= i < subs.len() ==> #[trigger] subs[i].id != id,
        forall|j: int|
            0 <= j < toks.len() ==> #[trigger] toks[j].subscriber_id != id && toks[j].token@
                != token,
{
    assert forall|j: int| 0 <= j < toks.len() implies #[trigger] toks[j].subscriber_id != id
        && toks[j].token@ != token by {
        assert(id_in(subs, toks[j].subscriber_id));
    }
}

/// Ends a registration once the delivery attempt is over. A delivered message
/// commits the staged rows; an undelivered one aborts them, and the store is
/// left as it was. A registration not staged by `subscribe` is refused.
pub fn finish_subscription(
    store: &mut SubscriptionStore,
    pending: PendingRegistration,
    delivered: bool,
) -> (r: Result<u128, SubscriptionError>)
    ensures
        final(store).wf(),
        status_monotone(old(store).subscriber_rows(), final(store).subscriber_rows()),
        !delivered ==> r == Err::<u128, SubscriptionError>(SubscriptionError::DeliveryError)
            && *final(store) == *old(store),
        delivered ==> (r is Ok <==> pending.is_staged() && !id_in(
            old(store).subscriber_rows(),
            pending.subscriber_id,
        ) && !token_in(old(store).token_rows(), pending.token@)),
        delivered && r is Err ==> r == Err::<u128, SubscriptionError>(
            SubscriptionError::PersistenceError(StoreError::ConstraintFailure),
        ) && *final(store) == *old(store),
        r is Ok ==> {
            &&& pending.is_staged()
            &&& r == Ok::<u128, SubscriptionError>(pending.subscriber_id)
            &&& final(store).subscriber_rows() == old(store).subscriber_rows().push(
                pending.transaction.subscriber_rows()[0],
            )
            &&& final(store).token_rows() == old(store).token_rows().push(
                pending.transaction.token_rows()[0],
            )
            &&& registered_once(
                final(store).subscriber_rows(),
                final(store).token_rows(),
                pending.subscriber_id,
                pending.token@,
            )
        },
{
    proof {
        use_type_invariant(&*store);
    }
    if !delivered {
        return Err(SubscriptionError::DeliveryError);
    }
    let id = pending.subscriber_id;
    if !pending.transaction.holds_one_registration(id, &pending.token) {
        return Err(SubscriptionError::PersistenceError(StoreError::ConstraintFailure));
    }
    let ghost tsubs = pending.transaction.subscriber_rows();
    let ghost ttoks = pending.transaction.token_rows();
    proof {
        assert(tsubs == seq![tsubs[0]]);
        assert(ttoks == seq![ttoks[0]]);
        lemma_commit_one(old(store).subscriber_rows(), old(store).token_rows(), tsubs[0], ttoks[0]);
        assert(old(store).subscriber_rows() + seq![tsubs[0]] == old(store).subscriber_rows().push(
            tsubs[0],
        ));
        assert(old(store).token_rows() + seq![ttoks[0]] == old(store).token_rows().push(ttoks[0]));
    }
    match store.commit(pending.transaction) {
        Err(e) => Err(SubscriptionError::PersistenceError(e)),
        Ok(()) => Ok(id),
    }
}

} // verus!
