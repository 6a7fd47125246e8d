//! What holds of the operations, whatever the identities and whatever the
//! calls that came before.

use vstd::prelude::*;
use crate::error::Error;
use crate::history::{issuances, never_about, run, Call};
use crate::rules::{FIRST_TOKEN_ID, NO_TOKEN};
use crate::state::{Identity, State};

verus! {

/// A call that is not about `who` leaves what is recorded of `who` as it was.
pub proof fn law_call_leaves_others_alone(s: State, call: Call, who: Identity)
    requires
        call.attendee() != who,
    ensures
        call.apply(s).has_rsvped(who) == s.has_rsvped(who),
        call.apply(s).has_attended(who) == s.has_attended(who),
        call.apply(s).token_of(who) == s.token_of(who),
{
}

/// Calls that are not about `who` leave what is recorded of `who` as it was.
pub proof fn law_calls_leave_others_alone(s: State, calls: Seq<Call>, who: Identity)
    requires
        never_about(calls, who),
    ensures
        run(s, calls).has_rsvped(who) == s.has_rsvped(who),
        run(s, calls).has_attended(who) == s.has_attended(who),
        run(s, calls).token_of(who) == s.token_of(who),
    decreases calls.len(),
{
    if calls.len() > 0 {
        let earlier = calls.drop_last();
        assert forall|i: int| 0 <= i < earlier.len() implies (#[trigger] earlier[i]).attendee()
            != who by {
            assert(earlier[i] == calls[i]);
        }
        law_calls_leave_others_alone(s, earlier, who);
        assert(calls.last() == calls[calls.len() - 1]);
        law_call_leaves_others_alone(run(s, earlier), calls.last(), who);
    }
}

/// An identity that no call was about since construction has not registered,
/// has not attended, and holds no credential.
pub proof fn law_unknown_identity_has_no_record(owner: Identity, calls: Seq<Call>, who: Identity)
    requires
        never_about(calls, who),
    ensures
        !run(State::initial(owner), calls).has_rsvped(who),
        !run(State::initial(owner), calls).has_attended(who),
        run(State::initial(owner), calls).token_of(who) == NO_TOKEN,
{
    law_calls_leave_others_alone(State::initial(owner), calls, who);
}

/// Registering twice: both calls succeed, the attendee is registered after
/// each, and the second call changes nothing.
pub proof fn law_rsvp_is_idempotent(s: State, attendee: Identity)
    ensures
        s.rsvp_outcome(attendee, attendee) == Ok::<(), Error>(()),
        s.after_rsvp(attendee, attendee).has_rsvped(attendee),
        s.after_rsvp(attendee, attendee).rsvp_outcome(attendee, attendee) == Ok::<(), Error>(()),
        s.after_rsvp(attendee, attendee).after_rsvp(attendee, attendee) == s.after_rsvp(
            attendee,
            attendee,
        ),
{
    let once = s.after_rsvp(attendee, attendee);
    assert(once.rsvp.insert(attendee, true) =~= once.rsvp);
}

/// The owner's confirmation for an identity that has not registered is refused
/// as `NotRsvped`, whatever the ledger would answer, and changes nothing.
pub proof fn law_confirmation_needs_rsvp(s: State, attendee: Identity, minted: bool)
    requires
        s.wf(),
        !s.has_rsvped(attendee),
    ensures
        s.mark_attended_outcome(s.owner, attendee, minted) == Err::<(), Error>(Error::NotRsvped),
        s.after_mark_attended(s.owner, attendee, minted) == s,
{
}

/// After an identity registers, the owner's confirmation succeeds exactly when
/// the identity holds no credential yet, the ledger mints, and the counter can
/// advance. The identity then holds the token that the counter named before
/// the call, and the counter is one higher.
pub proof fn law_confirmation_issues_counter(s: State, attendee: Identity, minted: bool)
    ensures
        ({
            let registered = s.after_rsvp(attendee, attendee);
            let done = registered.after_mark_attended(s.owner, attendee, minted);
            let succeeds = registered.mark_attended_outcome(s.owner, attendee, minted).is_ok();
            &&& succeeds <==> !s.has_attended(attendee) && minted && s.next_id < u32::MAX
            &&& succeeds ==> done.has_attended(attendee) && done.token_of(attendee) == s.next_id
                && done.next_id == s.next_id + 1
        }),
{
}

/// The owner's confirmation for an identity that already holds a credential is
/// refused as `AlreadyAttended`, whatever the ledger would answer, and changes
/// nothing: the credential and the counter stay.
pub proof fn law_second_confirmation_is_refused(s: State, attendee: Identity, minted: bool)
    requires
        s.has_attended(attendee),
    ensures
        s.mark_attended_outcome(s.owner, attendee, minted) == Err::<(), Error>(
            Error::AlreadyAttended,
        ),
        s.after_mark_attended(s.owner, attendee, minted) == s,
{
}

/// A confirmation that succeeded is refused as `AlreadyAttended` when it is
/// made again.
pub proof fn law_confirmation_succeeds_once(
    s: State,
    attendee: Identity,
    minted: bool,
    again: bool,
)
    requires
        s.mark_attended_outcome(s.owner, attendee, minted).is_ok(),
    ensures
        ({
            let done = s.after_mark_attended(s.owner, attendee, minted);
            &&& done.mark_attended_outcome(done.owner, attendee, again) == Err::<(), Error>(
                Error::AlreadyAttended,
            )
            &&& done.after_mark_attended(done.owner, attendee, again) == done
        }),
{
}

/// Two identities that register and are then confirmed one after the other
/// receive consecutive tokens, in the order of the confirmations.
pub proof fn law_consecutive_confirmations(s: State, a: Identity, b: Identity)
    requires
        a != b,
        !s.has_attended(a),
        !s.has_attended(b),
        s.next_id + 1 < u32::MAX,
    ensures
        ({
            let calls = seq![
                Call::Rsvp { caller: a, attendee: a },
                Call::Rsvp { caller: b, attendee: b },
                Call::MarkAttended { caller: s.owner, attendee: a, minted: true },
                Call::MarkAttended { caller: s.owner, attendee: b, minted: true },
            ];
            let done = run(s, calls);
            &&& done.token_of(a) == s.next_id
            &&& done.token_of(b) == s.next_id + 1
            &&& done.token_of(a) != done.token_of(b)
            &&& done.next_id == s.next_id + 2
        }),
{
    let c0 = Call::Rsvp { caller: a, attendee: a };
    let c1 = Call::Rsvp { caller: b, attendee: b };
    let c2 = Call::MarkAttended { caller: s.owner, attendee: a, minted: true };
    let c3 = Call::MarkAttended { caller: s.owner, attendee: b, minted: true };
    let calls = seq![c0, c1, c2, c3];
    let s1 = c0.apply(s);
    let s2 = c1.apply(s1);
    let s3 = c2.apply(s2);
    let s4 = c3.apply(s3);
    assert(calls.drop_last() =~= seq![c0, c1, c2]);
    assert(calls.drop_last().drop_last() =~= seq![c0, c1]);
    assert(calls.drop_last().drop_last().drop_last() =~= seq![c0]);
    assert(seq![c0].drop_last() =~= Seq::<Call>::empty());
    reveal_with_fuel(run, 5);
    assert(run(s, Seq::<Call>::empty()) == s);
    assert(run(s, seq![c0]) == s1);
    assert(run(s, seq![c0, c1]) == s2);
    assert(run(s, seq![c0, c1, c2]) == s3);
    assert(run(s, calls) == s4);
}

/// A confirmation on behalf of anyone but the owner is refused as
/// `Unauthorized`, whatever is recorded of the attendee and whatever the ledger
/// would answer, and changes nothing.
pub proof fn law_only_owner_confirms(s: State, caller: Identity, attendee: Identity, minted: bool)
    requires
        caller != s.owner,
    ensures
        s.mark_attended_outcome(caller, attendee, minted) == Err::<(), Error>(Error::Unauthorized),
        s.after_mark_attended(caller, attendee, minted) == s,
{
}

/// A call that is refused changes nothing.
pub proof fn law_refused_call_changes_nothing(s: State, call: Call)
    requires
        call.outcome(s).is_err(),
    ensures
        call.apply(s) == s,
{
}

/// Whatever calls are made, the invariant of the store is kept.
pub proof fn law_invariant_is_kept(s: State, calls: Seq<Call>)
    requires
        s.wf(),
    ensures
        run(s, calls).wf(),
    decreases calls.len(),
{
    if calls.len() > 0 {
        let earlier = calls.drop_last();
        law_invariant_is_kept(s, earlier);
        let before = run(s, earlier);
        match calls.last() {
            Call::Rsvp { caller, attendee } => before.lemma_rsvp_wf(caller, attendee),
            Call::MarkAttended { caller, attendee, minted } => before.lemma_mark_attended_wf(
                caller,
                attendee,
                minted,
            ),
        }
    }
}

/// The counter advances by one for each confirmation that succeeds, and by
/// nothing else.
pub proof fn law_counter_counts_issuances(s: State, calls: Seq<Call>)
    ensures
        run(s, calls).next_id == s.next_id + issuances(s, calls),
    decreases calls.len(),
{
    if calls.len() > 0 {
        law_counter_counts_issuances(s, calls.drop_last());
    }
}

/// After any calls since construction, the credentials issued are exactly the
/// ids from the first one up to the number of confirmations that succeeded,
/// and no two identities hold the same one.
pub proof fn law_issued_ids_are_dense(owner: Identity, calls: Seq<Call>)
    ensures
        ({
            let s = run(State::initial(owner), calls);
            let k = issuances(State::initial(owner), calls);
            &&& s.issued() == Set::new(|t: u32| FIRST_TOKEN_ID <= t <= k)
            &&& forall|a: Identity, b: Identity|
                #![trigger s.token_of(a), s.token_of(b)]
                s.token_of(a) != NO_TOKEN && s.token_of(a) == s.token_of(b) ==> a == b
        }),
{
    let s0 = State::initial(owner);
    State::lemma_initial_wf(owner);
    law_invariant_is_kept(s0, calls);
    law_counter_counts_issuances(s0, calls);
    let s = run(s0, calls);
    let k = issuances(s0, calls);
    assert(s.issued() =~= Set::new(|t: u32| FIRST_TOKEN_ID <= t <= k));
}

/// What is recorded of an identity is never taken back: a call leaves a
/// registered identity registered, a credentialed identity credentialed with
/// the same token, and the counter no lower than it was.
pub proof fn law_records_are_permanent(s: State, call: Call, who: Identity)
    ensures
        s.has_rsvped(who) ==> call.apply(s).has_rsvped(who),
        s.has_attended(who) ==> call.apply(s).has_attended(who) && call.apply(s).token_of(who)
            == s.token_of(who),
        s.next_id <= call.apply(s).next_id,
{
}

} // verus!
