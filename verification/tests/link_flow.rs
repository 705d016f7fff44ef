//! End-to-end scenarios for the link reconciliation flow: the decision
//! machine driven against the in-memory store and real lookup responses.

use account_link::ids::ExternalAccountId;
use account_link::ids::RequesterId;
use account_link::lookup::classify_lookup_response;
use account_link::lookup::validate_username;
use account_link::lookup::LookupOutcome;
use account_link::reconcile::attempt_link;
use account_link::reconcile::step;
use account_link::reconcile::AttemptOutcome;
use account_link::reconcile::LinkAction;
use account_link::reconcile::LinkEvent;
use account_link::reconcile::LinkState;
use account_link::reconcile::OwnerOutcome;
use account_link::reconcile::Reply;
use account_link::reconcile::SyncOutcome;
use account_link::store::CreateOutcome;
use account_link::store::LinkStore;

fn requester(raw: i64) -> RequesterId {
    RequesterId { raw }
}

fn account(raw: i32) -> ExternalAccountId {
    ExternalAccountId { raw }
}

#[test]
fn username_validation_bounds() {
    assert!(validate_username("Player1"));
    assert!(validate_username("aaaaaaaaaaaaaaaa")); // 16 bytes: the limit
    assert!(!validate_username("aaaaaaaaaaaaaaaaa")); // 17 bytes: too long
    assert!(!validate_username("héllo")); // not ASCII
    assert!(validate_username(""));
}

#[test]
fn seventeen_chars_fails_before_any_lookup() {
    let long_name = "a".repeat(17);
    let (state, action) = step(
        LinkState::Start { requester: requester(1), username: long_name },
        LinkEvent::Begin,
    );
    assert!(matches!(state, LinkState::Done));
    // The reply is immediate: the machine never asks for a lookup.
    assert_eq!(action, LinkAction::Reply(Reply::InvalidInput));
}

#[test]
fn non_ascii_username_fails_before_any_lookup() {
    let (state, action) = step(
        LinkState::Start { requester: requester(1), username: "héllo".to_string() },
        LinkEvent::Begin,
    );
    assert!(matches!(state, LinkState::Done));
    assert_eq!(action, LinkAction::Reply(Reply::InvalidInput));
}

#[test]
fn fresh_link_succeeds_with_name_and_id() {
    let me = requester(7);
    let mut store = LinkStore::new();

    let (state, action) = step(
        LinkState::Start { requester: me, username: "Player1".to_string() },
        LinkEvent::Begin,
    );
    let LinkAction::Lookup { username } = action else {
        panic!("expected a lookup action");
    };
    assert_eq!(username, "Player1");

    // The authoritative service answers success with the documented body.
    let outcome =
        classify_lookup_response(200, "{\"account_id\": 42, \"name\": \"Player1\"}".to_string());
    let LookupOutcome::Found { account: acc, name } = &outcome else {
        panic!("expected the account to be found");
    };
    assert_eq!(acc.raw, 42);
    assert_eq!(name, "Player1");

    let (state, action) = step(state, LinkEvent::LookupFinished(outcome));
    let LinkAction::CreateLink { requester: r, account: a } = action else {
        panic!("expected a store write action");
    };
    let created = store.create_link(r, a);
    assert_eq!(created, CreateOutcome::Created);

    let (state, action) = step(state, LinkEvent::CreateFinished(created));
    assert!(matches!(action, LinkAction::Sync { .. }));

    let (_, action) = step(state, LinkEvent::SyncFinished(SyncOutcome::Synced));
    assert_eq!(
        action,
        LinkAction::Reply(Reply::Linked { account: account(42), name: "Player1".to_string() })
    );

    // The record exists and is owned by the requester.
    assert_eq!(store.find_owner(account(42)), Some(me));
    assert_eq!(store.len(), 1);
}

#[test]
fn not_found_reply_and_zero_store_writes() {
    let me = requester(9);
    let store = LinkStore::new();

    let (state, action) = step(
        LinkState::Start { requester: me, username: "ghost".to_string() },
        LinkEvent::Begin,
    );
    assert!(matches!(action, LinkAction::Lookup { .. }));

    let outcome = classify_lookup_response(404, "".to_string());
    assert!(matches!(outcome, LookupOutcome::NotFound));

    let (state, action) = step(state, LinkEvent::LookupFinished(outcome));
    assert!(matches!(state, LinkState::Done));
    assert_eq!(action, LinkAction::Reply(Reply::LookupNotFound));

    // Nothing ever reached the store.
    assert_eq!(store.len(), 0);
}

#[test]
fn relink_same_pair_is_conflict_self_never_a_duplicate() {
    let me = requester(3);
    let mut store = LinkStore::new();
    assert_eq!(store.create_link(me, account(42)), CreateOutcome::Created);

    // Re-attempting the identical link conflicts and adds nothing.
    let outcome = attempt_link(&mut store, me, account(42));
    assert_eq!(outcome, AttemptOutcome::ConflictSelf);
    assert_eq!(store.len(), 1);
    assert_eq!(store.find_owner(account(42)), Some(me));
}

#[test]
fn foreign_owner_is_named_and_nothing_is_created() {
    let first = requester(1);
    let second = requester(2);
    let mut store = LinkStore::new();
    assert_eq!(store.create_link(first, account(42)), CreateOutcome::Created);

    let outcome = attempt_link(&mut store, second, account(42));
    assert_eq!(outcome, AttemptOutcome::ConflictOther { owner: first });
    assert_eq!(store.len(), 1);
    assert_eq!(store.find_owner(account(42)), Some(first));
}

#[test]
fn uniqueness_holds_on_both_sides() {
    let mut store = LinkStore::new();
    assert_eq!(store.create_link(requester(1), account(10)), CreateOutcome::Created);

    // Same requester, different account: rejected.
    assert_eq!(store.create_link(requester(1), account(11)), CreateOutcome::Conflict);
    // Different requester, same account: rejected.
    assert_eq!(store.create_link(requester(2), account(10)), CreateOutcome::Conflict);
    // A disjoint pair is fine.
    assert_eq!(store.create_link(requester(2), account(11)), CreateOutcome::Created);
    assert_eq!(store.len(), 2);
}

#[test]
fn racing_attempts_for_one_account_let_exactly_one_through() {
    let mut store = LinkStore::new();
    // Two requests race for the same account; the store serializes them.
    let first = store.create_link(requester(5), account(99));
    let second = store.create_link(requester(6), account(99));
    assert_eq!(first, CreateOutcome::Created);
    assert_eq!(second, CreateOutcome::Conflict);
    assert_eq!(store.len(), 1);
    assert_eq!(store.find_owner(account(99)), Some(requester(5)));
}

#[test]
fn sync_failure_downgrades_reply_but_keeps_the_link() {
    let me = requester(4);
    let mut store = LinkStore::new();
    assert_eq!(store.create_link(me, account(8)), CreateOutcome::Created);

    let state = LinkState::AwaitingSync {
        requester: me,
        account: account(8),
        name: "Someone".to_string(),
    };
    let (state, action) = step(state, LinkEvent::SyncFinished(SyncOutcome::Failed));
    assert!(matches!(state, LinkState::Done));
    assert_eq!(
        action,
        LinkAction::Reply(Reply::LinkedSyncWarning {
            account: account(8),
            name: "Someone".to_string(),
        })
    );

    // The record is still there.
    assert_eq!(store.find_owner(account(8)), Some(me));
    assert_eq!(store.len(), 1);
}

#[test]
fn transport_failure_is_its_own_reply() {
    let (state, action) = step(
        LinkState::AwaitingLookup { requester: requester(1) },
        LinkEvent::LookupFinished(LookupOutcome::TransportFailed),
    );
    assert!(matches!(state, LinkState::Done));
    assert_eq!(action, LinkAction::Reply(Reply::LookupTransportError));
}

#[test]
fn store_failure_fails_the_request() {
    let (_, action) = step(
        LinkState::AwaitingCreate {
            requester: requester(1),
            account: account(2),
            name: "n".to_string(),
        },
        LinkEvent::CreateFinished(CreateOutcome::StoreFailed),
    );
    assert_eq!(action, LinkAction::Reply(Reply::StoreError));
}

#[test]
fn undetermined_ownership_fails_closed() {
    // The store reported a conflict but cannot say who owns the account:
    // the request fails as a store error, never guessing "already linked".
    let (_, action) = step(
        LinkState::AwaitingOwner {
            requester: requester(1),
            account: account(2),
            name: "n".to_string(),
        },
        LinkEvent::OwnerFinished(OwnerOutcome::LookupFailed),
    );
    assert_eq!(action, LinkAction::Reply(Reply::StoreError));
}

#[test]
fn no_distinct_owner_falls_back_to_already_linked() {
    let (_, action) = step(
        LinkState::AwaitingOwner {
            requester: requester(1),
            account: account(2),
            name: "n".to_string(),
        },
        LinkEvent::OwnerFinished(OwnerOutcome::NoOwner),
    );
    assert_eq!(action, LinkAction::Reply(Reply::AlreadyLinked));

    let (_, action) = step(
        LinkState::AwaitingOwner {
            requester: requester(1),
            account: account(2),
            name: "n".to_string(),
        },
        LinkEvent::OwnerFinished(OwnerOutcome::Found { owner: requester(1) }),
    );
    assert_eq!(action, LinkAction::Reply(Reply::AlreadyLinked));
}
