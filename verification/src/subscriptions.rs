//! The intake pipeline: raw form input, its conversion into a validated
//! `NewSubscriber`, and the single-pass handler that orchestrates conversion
//! and persistence into one of three terminal outcomes.

use vstd::prelude::*;
use crate::domain::contains_forbidden_characters;
use crate::domain::count_graphemes;
use crate::domain::is_empty_or_whitespace;
use crate::domain::valid_subscriber_email;
use crate::domain::valid_subscriber_name;
use crate::domain::NewSubscriber;
use crate::domain::SubscriberEmail;
use crate::domain::SubscriberName;
use crate::domain::MAX_NAME_GRAPHEMES;
use crate::store::insert_subscriber;
use crate::store::SubscriptionStore;

verus! {

/// The raw, untrusted pair of fields a subscription form carries.
#[derive(Debug)]
pub struct FormData {
    pub email: String,
    pub name: String,
}

/// Fallible conversion from raw form input to the validated aggregate. The
/// name is validated first, then the email; the first failure is propagated
/// verbatim (an invalid name is reported even when the email is invalid too)
/// and no aggregate exists. On success both texts are carried over exactly
/// as given.
pub fn parse_subscribe(form: FormData) -> (r: Result<NewSubscriber, String>)
    ensures
        r is Ok <==> valid_subscriber_name(form.name@) && valid_subscriber_email(form.email@),
        r is Ok ==> r->Ok_0.name@ == form.name@ && r->Ok_0.email@ == form.email@ && r->Ok_0.wf(),
        !valid_subscriber_name(form.name@) ==> r is Err && r->Err_0@ == form.name@
            + " is not a valid subscriber name."@,
        valid_subscriber_name(form.name@) && !valid_subscriber_email(form.email@) ==> r is Err
            && r->Err_0@ == form.email@ + " is not a valid subscriber email."@,
{
    let name = match SubscriberName::parse(form.name) {
        Ok(name) => name,
        Err(e) => {
            return Err(e);
        },
    };
    let email = match SubscriberEmail::parse(form.email) {
        Ok(email) => email,
        Err(e) => {
            return Err(e);
        },
    };
    Ok(NewSubscriber { email, name })
}

/// Returns true if the input satisfies all our validation constraints on
/// subscriber names, false otherwise.
///
/// Prefer `SubscriberName::parse` where the answer is acted on: it returns a
/// value that carries the proof of validity, where this predicate returns a
/// bare answer that each use site must keep associated with the string.
pub fn is_valid_name(s: &str) -> (r: bool)
    ensures
        r == valid_subscriber_name(s@),
{
    let empty_or_whitespace = is_empty_or_whitespace(s);
    let too_long = count_graphemes(s) > MAX_NAME_GRAPHEMES;
    let has_forbidden = contains_forbidden_characters(s);
    !(empty_or_whitespace || too_long || has_forbidden)
}

/// The three terminal outcomes of one intake request.
#[derive(Debug, Clone, Copy, PartialEq, Eq, Structural)]
pub enum IntakeOutcome {
    /// Conversion and persistence both succeeded.
    Accepted,
    /// Conversion failed; the caller must re-request input.
    RejectedInput,
    /// Conversion succeeded but the store did not accept the write.
    PersistenceFailed,
}

/// One intake request, from raw form input to its terminal outcome.
///
/// Input that fails validation is rejected before the store is touched;
/// valid input against an unreachable store fails persistence and leaves the
/// store unchanged; acceptance means exactly one new record carrying the
/// given name and email under a fresh identity. Valid input against a
/// reachable store that holds no record yet is always accepted. No outcome
/// is retried.
pub fn handle_subscription(store: &mut SubscriptionStore, form: FormData) -> (outcome:
    IntakeOutcome)
    requires
        old(store).wf(),
    ensures
        final(store).wf(),
        final(store).spec_reachable() == old(store).spec_reachable(),
        (outcome == IntakeOutcome::RejectedInput) <==> !(valid_subscriber_name(form.name@)
            && valid_subscriber_email(form.email@)),
        outcome != IntakeOutcome::Accepted ==> final(store).records_view()
            == old(store).records_view(),
        !old(store).spec_reachable() && valid_subscriber_name(form.name@)
            && valid_subscriber_email(form.email@) ==> outcome == IntakeOutcome::PersistenceFailed,
        old(store).spec_reachable() && old(store).records_view().len() == 0
            && valid_subscriber_name(form.name@) && valid_subscriber_email(form.email@)
            ==> outcome == IntakeOutcome::Accepted,
        outcome == IntakeOutcome::Accepted ==> old(store).spec_reachable()
            && final(store).records_view().len() == old(store).records_view().len() + 1
            && final(store).records_view().drop_last() =~= old(store).records_view()
            && final(store).records_view().last().email@ == form.email@
            && final(store).records_view().last().name@ == form.name@
            && !old(store).spec_has_id(final(store).records_view().last().id),
{
    let new_subscriber = match parse_subscribe(form) {
        Ok(new_subscriber) => new_subscriber,
        Err(_) => {
            return IntakeOutcome::RejectedInput;
        },
    };
    match insert_subscriber(store, &new_subscriber) {
        Ok(_) => IntakeOutcome::Accepted,
        Err(_) => IntakeOutcome::PersistenceFailed,
    }
}

} // verus!
