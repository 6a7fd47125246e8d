use attendance::{Error, Identity, MyToken, Store};

const OWNER: Identity = Identity(1);
const ALICE: Identity = Identity(10);
const BOB: Identity = Identity(11);
const CAROL: Identity = Identity(12);

fn store_with_rsvps(who: &[Identity]) -> Store {
    let mut store = MyToken::construct(OWNER);
    for id in who {
        assert_eq!(MyToken::rsvp(&mut store, *id, *id), Ok(()));
    }
    store
}

#[test]
fn confirmation_without_rsvp_is_refused() {
    let mut store = MyToken::construct(OWNER);
    assert_eq!(MyToken::mark_attended(&mut store, OWNER, ALICE, true), Err(Error::NotRsvped));
    assert!(!MyToken::has_attended(&store, ALICE));
    assert_eq!(MyToken::token_of(&store, ALICE), 0);
    assert_eq!(store.next_id(), 1);
    assert_eq!(store.attended_entry(ALICE), None);
    assert_eq!(store.token_entry(ALICE), None);
}

#[test]
fn confirmation_without_rsvp_is_refused_whatever_the_ledger_says() {
    let mut store = MyToken::construct(OWNER);
    assert_eq!(MyToken::mark_attended(&mut store, OWNER, ALICE, false), Err(Error::NotRsvped));
    assert_eq!(store.next_id(), 1);
}

#[test]
fn confirmation_issues_the_counter_value() {
    let mut store = store_with_rsvps(&[ALICE]);
    let before = store.next_id();
    assert_eq!(before, 1);
    assert_eq!(MyToken::mark_attended(&mut store, OWNER, ALICE, true), Ok(()));
    assert!(MyToken::has_attended(&store, ALICE));
    assert_eq!(MyToken::token_of(&store, ALICE), before);
    assert_eq!(store.next_id(), before + 1);
    assert_eq!(store.attended_entry(ALICE), Some(true));
    assert_eq!(store.token_entry(ALICE), Some(1));
}

#[test]
fn second_confirmation_is_refused() {
    let mut store = store_with_rsvps(&[ALICE]);
    assert_eq!(MyToken::mark_attended(&mut store, OWNER, ALICE, true), Ok(()));
    let token = MyToken::token_of(&store, ALICE);
    let counter = store.next_id();
    assert_eq!(
        MyToken::mark_attended(&mut store, OWNER, ALICE, true),
        Err(Error::AlreadyAttended)
    );
    assert_eq!(MyToken::token_of(&store, ALICE), token);
    assert_eq!(store.next_id(), counter);
    assert_eq!(token, 1);
    assert_eq!(counter, 2);
    assert!(MyToken::has_attended(&store, ALICE));
}

#[test]
fn second_confirmation_is_refused_before_the_ledger_is_heard() {
    let mut store = store_with_rsvps(&[ALICE]);
    assert_eq!(MyToken::mark_attended(&mut store, OWNER, ALICE, true), Ok(()));
    assert_eq!(
        MyToken::mark_attended(&mut store, OWNER, ALICE, false),
        Err(Error::AlreadyAttended)
    );
    assert_eq!(MyToken::mint_request(&store, OWNER, ALICE), Err(Error::AlreadyAttended));
}

#[test]
fn two_attendees_get_consecutive_tokens() {
    let mut store = MyToken::construct(OWNER);
    assert_eq!(MyToken::rsvp(&mut store, ALICE, ALICE), Ok(()));
    assert_eq!(MyToken::rsvp(&mut store, BOB, BOB), Ok(()));
    assert_eq!(MyToken::mark_attended(&mut store, OWNER, ALICE, true), Ok(()));
    assert_eq!(MyToken::mark_attended(&mut store, OWNER, BOB, true), Ok(()));
    assert_ne!(MyToken::token_of(&store, ALICE), MyToken::token_of(&store, BOB));
    assert_eq!(MyToken::token_of(&store, ALICE), 1);
    assert_eq!(MyToken::token_of(&store, BOB), 2);
    assert_eq!(store.next_id(), 3);
}

#[test]
fn tokens_follow_the_order_of_confirmation_not_of_rsvp() {
    let mut store = store_with_rsvps(&[ALICE, BOB, CAROL]);
    assert_eq!(MyToken::mark_attended(&mut store, OWNER, CAROL, true), Ok(()));
    assert_eq!(MyToken::mark_attended(&mut store, OWNER, ALICE, true), Ok(()));
    assert_eq!(MyToken::mark_attended(&mut store, OWNER, BOB, true), Ok(()));
    assert_eq!(MyToken::token_of(&store, CAROL), 1);
    assert_eq!(MyToken::token_of(&store, ALICE), 2);
    assert_eq!(MyToken::token_of(&store, BOB), 3);
    assert_eq!(store.next_id(), 4);
}

#[test]
fn non_owner_is_refused_for_unknown_attendee() {
    let mut store = MyToken::construct(OWNER);
    assert_eq!(MyToken::mark_attended(&mut store, ALICE, BOB, true), Err(Error::Unauthorized));
    assert_eq!(MyToken::mint_request(&store, ALICE, BOB), Err(Error::Unauthorized));
    assert!(!MyToken::has_attended(&store, BOB));
    assert_eq!(store.next_id(), 1);
}

#[test]
fn non_owner_is_refused_for_registered_attendee() {
    let mut store = store_with_rsvps(&[ALICE]);
    assert_eq!(MyToken::mark_attended(&mut store, ALICE, ALICE, true), Err(Error::Unauthorized));
    assert_eq!(MyToken::mark_attended(&mut store, BOB, ALICE, true), Err(Error::Unauthorized));
    assert_eq!(MyToken::mark_attended(&mut store, BOB, ALICE, false), Err(Error::Unauthorized));
    assert!(!MyToken::has_attended(&store, ALICE));
    assert_eq!(MyToken::token_of(&store, ALICE), 0);
    assert_eq!(store.next_id(), 1);
}

#[test]
fn non_owner_is_refused_for_credentialed_attendee() {
    let mut store = store_with_rsvps(&[ALICE]);
    assert_eq!(MyToken::mark_attended(&mut store, OWNER, ALICE, true), Ok(()));
    assert_eq!(MyToken::mark_attended(&mut store, ALICE, ALICE, true), Err(Error::Unauthorized));
    assert_eq!(MyToken::token_of(&store, ALICE), 1);
    assert_eq!(store.next_id(), 2);
}

#[test]
fn refused_mint_changes_nothing() {
    let mut store = store_with_rsvps(&[ALICE]);
    assert_eq!(MyToken::mark_attended(&mut store, OWNER, ALICE, false), Err(Error::MintFailed));
    assert!(MyToken::has_rsvped(&store, ALICE));
    assert!(!MyToken::has_attended(&store, ALICE));
    assert_eq!(MyToken::token_of(&store, ALICE), 0);
    assert_eq!(store.attended_entry(ALICE), None);
    assert_eq!(store.token_entry(ALICE), None);
    assert_eq!(store.next_id(), 1);
}

#[test]
fn refused_mint_leaves_the_token_for_the_next_confirmation() {
    let mut store = store_with_rsvps(&[ALICE, BOB]);
    assert_eq!(MyToken::mark_attended(&mut store, OWNER, ALICE, false), Err(Error::MintFailed));
    assert_eq!(MyToken::mark_attended(&mut store, OWNER, BOB, true), Ok(()));
    assert_eq!(MyToken::token_of(&store, BOB), 1);
    assert_eq!(MyToken::mark_attended(&mut store, OWNER, ALICE, true), Ok(()));
    assert_eq!(MyToken::token_of(&store, ALICE), 2);
    assert_eq!(store.next_id(), 3);
}

#[test]
fn mint_request_names_the_counter_and_changes_nothing() {
    let mut store = store_with_rsvps(&[ALICE, BOB]);
    assert_eq!(MyToken::mint_request(&store, OWNER, ALICE), Ok(1));
    assert_eq!(MyToken::mint_request(&store, OWNER, ALICE), Ok(1));
    assert_eq!(store.next_id(), 1);
    assert!(!MyToken::has_attended(&store, ALICE));
    assert_eq!(MyToken::mark_attended(&mut store, OWNER, ALICE, true), Ok(()));
    assert_eq!(MyToken::mint_request(&store, OWNER, BOB), Ok(2));
    assert_eq!(MyToken::mint_request(&store, OWNER, CAROL), Err(Error::NotRsvped));
}

#[test]
fn owner_can_be_confirmed_like_anyone() {
    let mut store = store_with_rsvps(&[OWNER]);
    assert_eq!(MyToken::mark_attended(&mut store, OWNER, OWNER, true), Ok(()));
    assert_eq!(MyToken::token_of(&store, OWNER), 1);
}
