//! The link reconciler: the decision core that takes a link request from
//! validation through lookup, store write, conflict disambiguation and the
//! best-effort role sync, as a state machine of plain decisions. The caller
//! performs the blocking calls (lookup, store, sync) between steps and
//! hands their outcomes back as events.

use vstd::prelude::*;

use crate::ids::ExternalAccountId;
use crate::ids::LinkRecord;
use crate::ids::RequesterId;
use crate::lookup::LookupOutcome;
use crate::lookup::valid_username;
use crate::lookup::validate_username;
use crate::store::CreateOutcome;
use crate::store::LinkStore;
use crate::store::create_accepted;
use crate::store::lemma_at_most_one_record;
use crate::store::links_unique;
use crate::store::owner_of;

verus! {

/// The one user-facing reply of a finished link request. Exactly one is
/// produced per request; diagnostic detail stays out of it.
#[derive(PartialEq, Eq, Debug)]
pub enum Reply {
    /// The username failed shape validation; nothing else was attempted.
    InvalidInput,
    /// The lookup request never reached the service.
    LookupTransportError,
    /// No external account satisfies the lookup.
    LookupNotFound,
    /// The lookup service answered with an unexpected error.
    LookupServerError,
    /// The lookup service answered success with a malformed body.
    LookupUnparseable,
    /// The link was recorded and roles were synced.
    Linked { account: ExternalAccountId, name: String },
    /// The link was recorded but role sync failed: success with a warning
    /// to retry the sync manually.
    LinkedSyncWarning { account: ExternalAccountId, name: String },
    /// The requester is already linked (their own side violated
    /// uniqueness, or the conflicting account showed no distinct owner).
    AlreadyLinked,
    /// The external account is owned by a different requester, named here.
    OwnedByOther { owner: RequesterId },
    /// A storage failure; the request failed closed.
    StoreError,
}

/// What the ownership lookup after a conflict reported.
#[derive(Clone, Copy, PartialEq, Eq, Structural, Debug)]
pub enum OwnerOutcome {
    /// Some requester owns the conflicting external account.
    Found { owner: RequesterId },
    /// No record claims the external account.
    NoOwner,
    /// The store could not answer; the request must fail closed.
    LookupFailed,
}

/// Whether the post-link role sync succeeded.
#[derive(Clone, Copy, PartialEq, Eq, Structural, Debug)]
pub enum SyncOutcome {
    Synced,
    Failed,
}

/// Where one link request stands between two blocking calls.
#[derive(PartialEq, Eq, Debug)]
pub enum LinkState {
    /// Nothing done yet: the raw request.
    Start { requester: RequesterId, username: String },
    /// The username was valid and the lookup is in flight.
    AwaitingLookup { requester: RequesterId },
    /// The account was resolved and the store write is in flight.
    AwaitingCreate { requester: RequesterId, account: ExternalAccountId, name: String },
    /// The write conflicted and the ownership lookup is in flight.
    AwaitingOwner { requester: RequesterId, account: ExternalAccountId, name: String },
    /// The link is committed and the role sync is in flight.
    AwaitingSync { requester: RequesterId, account: ExternalAccountId, name: String },
    /// The request is finished; its reply has been issued.
    Done,
}

/// The answer of the blocking call a state was waiting on.
#[derive(PartialEq, Eq, Debug)]
pub enum LinkEvent {
    /// Start working on the request.
    Begin,
    LookupFinished(LookupOutcome),
    CreateFinished(CreateOutcome),
    OwnerFinished(OwnerOutcome),
    SyncFinished(SyncOutcome),
}

/// The one blocking call (or final reply) the caller must perform next.
#[derive(PartialEq, Eq, Debug)]
pub enum LinkAction {
    /// Resolve the username against the identity lookup service.
    Lookup { username: String },
    /// Attempt the atomic store insert.
    CreateLink { requester: RequesterId, account: ExternalAccountId },
    /// Ask the store which requester owns the conflicting account.
    FindOwner { account: ExternalAccountId },
    /// Trigger the best-effort role sync.
    Sync { requester: RequesterId },
    /// Send the reply; the request is finished.
    Reply(Reply),
}

/// Which events can answer which states: each waiting state accepts
/// exactly the outcome of the call it issued, and a finished request
/// accepts nothing.
pub open spec fn state_accepts(state: LinkState, event: LinkEvent) -> bool {
    match (state, event) {
        (LinkState::Start { .. }, LinkEvent::Begin) => true,
        (LinkState::AwaitingLookup { .. }, LinkEvent::LookupFinished(_)) => true,
        (LinkState::AwaitingCreate { .. }, LinkEvent::CreateFinished(_)) => true,
        (LinkState::AwaitingOwner { .. }, LinkEvent::OwnerFinished(_)) => true,
        (LinkState::AwaitingSync { .. }, LinkEvent::SyncFinished(_)) => true,
        _ => false,
    }
}

/// The reconciler's full decision table. An invalid username fails before
/// any call; every lookup failure ends the request without touching the
/// store; a conflicting write is disambiguated through ownership, failing
/// closed when ownership cannot be determined; and a sync failure only
/// downgrades the success reply.
pub open spec fn step_spec(state: LinkState, event: LinkEvent) -> (LinkState, LinkAction) {
    match (state, event) {
        (LinkState::Start { requester, username }, LinkEvent::Begin) => if valid_username(
            username@,
        ) {
            (LinkState::AwaitingLookup { requester }, LinkAction::Lookup { username })
        } else {
            (LinkState::Done, LinkAction::Reply(Reply::InvalidInput))
        },
        (LinkState::AwaitingLookup { requester }, LinkEvent::LookupFinished(outcome)) => match outcome {
            LookupOutcome::Found { account, name } => (
                LinkState::AwaitingCreate { requester, account, name },
                LinkAction::CreateLink { requester, account },
            ),
            LookupOutcome::NotFound => (
                LinkState::Done,
                LinkAction::Reply(Reply::LookupNotFound),
            ),
            LookupOutcome::TransportFailed => (
                LinkState::Done,
                LinkAction::Reply(Reply::LookupTransportError),
            ),
            LookupOutcome::ServerError { .. } => (
                LinkState::Done,
                LinkAction::Reply(Reply::LookupServerError),
            ),
            LookupOutcome::Unparseable { .. } => (
                LinkState::Done,
                LinkAction::Reply(Reply::LookupUnparseable),
            ),
        },
        (
            LinkState::AwaitingCreate { requester, account, name },
            LinkEvent::CreateFinished(outcome),
        ) => match outcome {
            CreateOutcome::Created => (
                LinkState::AwaitingSync { requester, account, name },
                LinkAction::Sync { requester },
            ),
            CreateOutcome::Conflict => (
                LinkState::AwaitingOwner { requester, account, name },
                LinkAction::FindOwner { account },
            ),
            CreateOutcome::StoreFailed => (LinkState::Done, LinkAction::Reply(Reply::StoreError)),
        },
        (
            LinkState::AwaitingOwner { requester, account, name },
            LinkEvent::OwnerFinished(outcome),
        ) => match outcome {
            OwnerOutcome::Found { owner } => if owner == requester {
                (LinkState::Done, LinkAction::Reply(Reply::AlreadyLinked))
            } else {
                (LinkState::Done, LinkAction::Reply(Reply::OwnedByOther { owner }))
            },
            OwnerOutcome::NoOwner => (LinkState::Done, LinkAction::Reply(Reply::AlreadyLinked)),
            OwnerOutcome::LookupFailed => (LinkState::Done, LinkAction::Reply(Reply::StoreError)),
        },
        (
            LinkState::AwaitingSync { requester, account, name },
            LinkEvent::SyncFinished(outcome),
        ) => match outcome {
            SyncOutcome::Synced => (
                LinkState::Done,
                LinkAction::Reply(Reply::Linked { account, name }),
            ),
            SyncOutcome::Failed => (
                LinkState::Done,
                LinkAction::Reply(Reply::LinkedSyncWarning { account, name }),
            ),
        },
        _ => arbitrary(),
    }
}

/// One decision step: consumes the state and the answering event, and
/// yields the next state together with the one call (or reply) the caller
/// must perform before the next step.
pub fn step(state: LinkState, event: LinkEvent) -> (r: (LinkState, LinkAction))
    requires
        state_accepts(state, event),
    ensures
        r == step_spec(state, event),
{
    match (state, event) {
        (LinkState::Start { requester, username }, LinkEvent::Begin) => {
            if validate_username(username.as_str()) {
                (LinkState::AwaitingLookup { requester }, LinkAction::Lookup { username })
            } else {
                (LinkState::Done, LinkAction::Reply(Reply::InvalidInput))
            }
        },
        (LinkState::AwaitingLookup { requester }, LinkEvent::LookupFinished(outcome)) => match outcome {
            LookupOutcome::Found { account, name } => (
                LinkState::AwaitingCreate { requester, account, name },
                LinkAction::CreateLink { requester, account },
            ),
            LookupOutcome::NotFound => (
                LinkState::Done,
                LinkAction::Reply(Reply::LookupNotFound),
            ),
            LookupOutcome::TransportFailed => (
                LinkState::Done,
                LinkAction::Reply(Reply::LookupTransportError),
            ),
            LookupOutcome::ServerError { .. } => (
                LinkState::Done,
                LinkAction::Reply(Reply::LookupServerError),
            ),
            LookupOutcome::Unparseable { .. } => (
                LinkState::Done,
                LinkAction::Reply(Reply::LookupUnparseable),
            ),
        },
        (
            LinkState::AwaitingCreate { requester, account, name },
            LinkEvent::CreateFinished(outcome),
        ) => match outcome {
            CreateOutcome::Created => (
                LinkState::AwaitingSync { requester, account, name },
                LinkAction::Sync { requester },
            ),
            CreateOutcome::Conflict => (
                LinkState::AwaitingOwner { requester, account, name },
                LinkAction::FindOwner { account },
            ),
            CreateOutcome::StoreFailed => (LinkState::Done, LinkAction::Reply(Reply::StoreError)),
        },
        (
            LinkState::AwaitingOwner { requester, account, name },
            LinkEvent::OwnerFinished(outcome),
        ) => match outcome {
            OwnerOutcome::Found { owner } => if owner == requester {
                (LinkState::Done, LinkAction::Reply(Reply::AlreadyLinked))
            } else {
                (LinkState::Done, LinkAction::Reply(Reply::OwnedByOther { owner }))
            },
            OwnerOutcome::NoOwner => (LinkState::Done, LinkAction::Reply(Reply::AlreadyLinked)),
            OwnerOutcome::LookupFailed => (LinkState::Done, LinkAction::Reply(Reply::StoreError)),
        },
        (
            LinkState::AwaitingSync { requester, account, name },
            LinkEvent::SyncFinished(outcome),
        ) => match outcome {
            SyncOutcome::Synced => (
                LinkState::Done,
                LinkAction::Reply(Reply::Linked { account, name }),
            ),
            SyncOutcome::Failed => (
                LinkState::Done,
                LinkAction::Reply(Reply::LinkedSyncWarning { account, name }),
            ),
        },
        _ => vstd::pervasive::unreached(),
    }
}

/// How the store side of a link attempt ended, after conflict
/// disambiguation.
#[derive(Clone, Copy, PartialEq, Eq, Structural, Debug)]
pub enum AttemptOutcome {
    /// The pair was recorded.
    Linked,
    /// The requester is already linked: their own id violated uniqueness,
    /// or the conflicting account showed no distinct owner.
    ConflictSelf,
    /// The external account is owned by a different requester.
    ConflictOther { owner: RequesterId },
}

/// The store side of one link attempt as a single mathematical step: a
/// fresh pair is recorded; otherwise the record stays as it was and the
/// conflict is classified by who owns the claimed account.
pub open spec fn attempt_link_spec(
    s: Seq<LinkRecord>,
    requester: RequesterId,
    account: ExternalAccountId,
) -> (Seq<LinkRecord>, AttemptOutcome) {
    if create_accepted(s, requester, account) {
        (s.push(LinkRecord { requester, account }), AttemptOutcome::Linked)
    } else {
        match owner_of(s, account) {
            Some(owner) => if owner == requester {
                (s, AttemptOutcome::ConflictSelf)
            } else {
                (s, AttemptOutcome::ConflictOther { owner })
            },
            None => (s, AttemptOutcome::ConflictSelf),
        }
    }
}

/// The two-step store protocol of one link attempt: try the atomic insert,
/// and on a conflict ask the store who owns the claimed account — the
/// requester itself (or nobody distinct) means "already linked", anyone
/// else names the other owner.
pub fn attempt_link(store: &mut LinkStore, requester: RequesterId, account: ExternalAccountId) -> (r:
    AttemptOutcome)
    requires
        old(store).wf(),
    ensures
        final(store).wf(),
        final(store)@ == attempt_link_spec(old(store)@, requester, account).0,
        r == attempt_link_spec(old(store)@, requester, account).1,
{
    match store.create_link(requester, account) {
        CreateOutcome::Created => AttemptOutcome::Linked,
        CreateOutcome::Conflict => match store.find_owner(account) {
            Some(owner) => if owner == requester {
                AttemptOutcome::ConflictSelf
            } else {
                AttemptOutcome::ConflictOther { owner }
            },
            None => AttemptOutcome::ConflictSelf,
        },
        CreateOutcome::StoreFailed => vstd::pervasive::unreached(),
    }
}

/// Law (idempotence): a requester already linked to this exact external
/// account gets `ConflictSelf`, and the store keeps exactly the records it
/// had — never a duplicate.
pub proof fn lemma_relink_is_conflict_self(
    s: Seq<LinkRecord>,
    requester: RequesterId,
    account: ExternalAccountId,
)
    requires
        links_unique(s),
        s.contains(LinkRecord { requester, account }),
    ensures
        attempt_link_spec(s, requester, account) == (s, AttemptOutcome::ConflictSelf),
{
    let rec = LinkRecord { requester, account };
    let i = choose|i: int| 0 <= i < s.len() && s[i] == rec;
    assert(s[i].account == account);
    assert(!create_accepted(s, requester, account));
    let k = choose|k: int| 0 <= k < s.len() && (#[trigger] s[k]).account == account;
    lemma_at_most_one_record(s, k, i);
    assert(owner_of(s, account) == Some(requester));
}

/// Law (conflict disambiguation): when the claimed external account is
/// owned by a different requester, the attempt yields `ConflictOther`
/// naming that owner, and no record is created for the attempting
/// requester.
pub proof fn lemma_foreign_owner_is_conflict_other(
    s: Seq<LinkRecord>,
    owner: RequesterId,
    requester: RequesterId,
    account: ExternalAccountId,
)
    requires
        links_unique(s),
        owner_of(s, account) == Some(owner),
        owner != requester,
    ensures
        attempt_link_spec(s, requester, account) == (s, AttemptOutcome::ConflictOther { owner }),
{
    assert(exists|i: int| 0 <= i < s.len() && (#[trigger] s[i]).account == account);
    let k = choose|k: int| 0 <= k < s.len() && (#[trigger] s[k]).account == account;
    assert(!create_accepted(s, requester, account));
}

/// Law: for any well-formed username, a lookup not-found answer ends the
/// request with exactly the `LookupNotFound` reply, and neither step asks
/// for a store write.
pub proof fn lemma_not_found_writes_nothing(requester: RequesterId, username: String)
    requires
        valid_username(username@),
    ensures
        ({
            let (s1, a1) = step_spec(
                LinkState::Start { requester, username },
                LinkEvent::Begin,
            );
            let (s2, a2) = step_spec(s1, LinkEvent::LookupFinished(LookupOutcome::NotFound));
            &&& a1 == (LinkAction::Lookup { username })
            &&& !(a1 is CreateLink)
            &&& s2 is Done
            &&& a2 == LinkAction::Reply(Reply::LookupNotFound)
            &&& !(a2 is CreateLink)
        }),
{
}

/// Law: the event-driven machine and the store protocol agree. From the
/// store-write state, feeding the machine the store's own answers — the
/// insert's outcome, then on a conflict the owner the store reports —
/// finishes the request with exactly the reply that classifies the
/// attempt: the sync-dependent success reply for a recorded link,
/// "already linked" when the requester (or nobody distinct) owns the
/// account, and the other owner named otherwise.
pub proof fn lemma_step_agrees_with_store(
    s: Seq<LinkRecord>,
    requester: RequesterId,
    account: ExternalAccountId,
    name: String,
    sync: SyncOutcome,
)
    requires
        links_unique(s),
    ensures
        ({
            let state = LinkState::AwaitingCreate { requester, account, name };
            let outcome = attempt_link_spec(s, requester, account).1;
            match outcome {
                AttemptOutcome::Linked => ({
                    let (st1, a1) = step_spec(
                        state,
                        LinkEvent::CreateFinished(CreateOutcome::Created),
                    );
                    let (st2, a2) = step_spec(st1, LinkEvent::SyncFinished(sync));
                    &&& a1 == (LinkAction::Sync { requester })
                    &&& st2 is Done
                    &&& a2 == LinkAction::Reply(
                        if sync is Synced {
                            Reply::Linked { account, name }
                        } else {
                            Reply::LinkedSyncWarning { account, name }
                        },
                    )
                }),
                AttemptOutcome::ConflictSelf => ({
                    let (st1, a1) = step_spec(
                        state,
                        LinkEvent::CreateFinished(CreateOutcome::Conflict),
                    );
                    let owner_event = match owner_of(s, account) {
                        Some(owner) => OwnerOutcome::Found { owner },
                        None => OwnerOutcome::NoOwner,
                    };
                    let (st2, a2) = step_spec(st1, LinkEvent::OwnerFinished(owner_event));
                    &&& a1 == (LinkAction::FindOwner { account })
                    &&& st2 is Done
                    &&& a2 == LinkAction::Reply(Reply::AlreadyLinked)
                }),
                AttemptOutcome::ConflictOther { owner } => ({
                    let (st1, a1) = step_spec(
                        state,
                        LinkEvent::CreateFinished(CreateOutcome::Conflict),
                    );
                    let (st2, a2) = step_spec(
                        st1,
                        LinkEvent::OwnerFinished(OwnerOutcome::Found { owner }),
                    );
                    &&& a1 == (LinkAction::FindOwner { account })
                    &&& st2 is Done
                    &&& a2 == LinkAction::Reply(Reply::OwnedByOther { owner })
                }),
            }
        }),
{
    let outcome = attempt_link_spec(s, requester, account).1;
    if outcome is ConflictOther {
        assert(owner_of(s, account) matches Some(o) && o != requester);
    }
}

/// Law (partial failure): once the link is committed, a failing role sync
/// only downgrades the reply to success-with-a-warning — the step neither
/// revisits the store nor withdraws the record, and no action of the
/// machine ever removes one.
pub proof fn lemma_sync_failure_keeps_link(
    requester: RequesterId,
    account: ExternalAccountId,
    name: String,
)
    ensures
        ({
            let (s, a) = step_spec(
                LinkState::AwaitingSync { requester, account, name },
                LinkEvent::SyncFinished(SyncOutcome::Failed),
            );
            &&& s is Done
            &&& a == LinkAction::Reply(Reply::LinkedSyncWarning { account, name })
        }),
{
}

} // verus!
