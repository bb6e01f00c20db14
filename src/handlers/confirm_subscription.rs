use crate::store::{
    confirm_id, id_in, ids_unique, lemma_status_at, rows_wf,
    status_in, status_monotone, token_in, token_owner, token_refers, ConfirmationToken, Status,
    Subscriber, SubscriptionStore,
};
use vstd::prelude::*;

verus! {

/// Why a confirmation failed.
#[derive(Clone, Copy, Debug, PartialEq, Eq, Structural)]
pub enum ConfirmationError {
    /// No token row holds the token presented.
    UnknownToken,
}

impl ConfirmationError {
    /// The HTTP status that the error is answered with: a bad reference from
    /// the client.
    pub fn status_code(&self) -> (r: u16)
        ensures
            r == 400,
    {
        400
    }
}

/// The query of a confirmation request.
#[derive(Debug)]
pub struct Parameters {
    pub token: String,
}

proof fn lemma_confirmed_status(subs: Seq<Subscriber>, id: u128)
    requires
        ids_unique(subs),
        id_in(subs, id),
    ensures
        ids_unique(confirm_id(subs, id)),
        forall|x: u128| id_in(subs, x) ==> id_in(confirm_id(subs, id), x),
        status_in(confirm_id(subs, id), id) == Some(Status::Confirmed),
{
    let c = confirm_id(subs, id);
    assert forall|x: u128| id_in(subs, x) implies id_in(c, x) by {
        let k = choose|k: int| 0 <= k < subs.len() && subs[k].id == x;
        assert(c[k].id == x);
    }
    let k = choose|k: int| 0 <= k < subs.len() && subs[k].id == id;
    assert(c[k].id == id && c[k].status == Status::Confirmed);
    lemma_status_at(c, k);
}

/// Resolves `params.token` to its subscriber and marks that subscriber
/// confirmed. Presenting a token again succeeds again and changes nothing.
pub fn confirm(store: &mut SubscriptionStore, params: &Parameters) -> (r: Result<(), ConfirmationError>)
    ensures
        final(store).wf(),
        status_monotone(old(store).subscriber_rows(), final(store).subscriber_rows()),
        final(store).token_rows() == old(store).token_rows(),
        r is Ok <==> token_in(old(store).token_rows(), params.token@),
        r is Ok ==> {
            let id = token_owner(old(store).token_rows(), params.token@);
            &&& final(store).subscriber_rows() == confirm_id(old(store).subscriber_rows(), id)
            &&& status_in(final(store).subscriber_rows(), id) == Some(Status::Confirmed)
        },
        r is Err ==> r == Err::<(), ConfirmationError>(ConfirmationError::UnknownToken)
            && *final(store) == *old(store),
{
    proof {
        use_type_invariant(&*store);
    }
    let id = match store.resolve_subscriber_by_token(params.token.as_str()) {
        Err(_) => {
            return Err(ConfirmationError::UnknownToken);
        },
        Ok(id) => id,
    };
    proof {
        lemma_confirmed_status(store.subscriber_rows(), id);
    }
    match store.mark_confirmed(id) {
        Err(_) => Err(ConfirmationError::UnknownToken),
        Ok(()) => Ok(()),
    }
}

/// Confirming twice with the same valid token: the second confirmation
/// finds the token again, leaves the rows exactly as the first one left them,
/// and the subscriber is confirmed after each.
pub proof fn lemma_confirm_idempotent(
    subs: Seq<Subscriber>,
    toks: Seq<ConfirmationToken>,
    token: Seq<char>,
)
    requires
        rows_wf(subs, toks),
        token_in(toks, token),
    ensures
        ({
            let id = token_owner(toks, token);
            let once = confirm_id(subs, id);
            &&& rows_wf(once, toks)
            &&& token_in(toks, token)
            &&& confirm_id(once, id) == once
            &&& status_in(once, id) == Some(Status::Confirmed)
        }),
{
    let id = token_owner(toks, token);
    let i = choose|i: int| 0 <= i < toks.len() && toks[i].token@ == token;
    assert(token_refers(toks, token, toks[i].subscriber_id));
    assert(token_refers(toks, token, id));
    let j = choose|j: int| 0 <= j < toks.len() && toks[j].token@ == token && toks[j].subscriber_id == id;
    assert(id_in(subs, toks[j].subscriber_id));
    lemma_confirmed_status(subs, id);
    let once = confirm_id(subs, id);
    assert forall|k: int| 0 <= k < toks.len() implies id_in(once, #[trigger] toks[k].subscriber_id) by {
        assert(id_in(subs, toks[k].subscriber_id));
    }
    assert(confirm_id(once, id) =~= once);
}

} // verus!
