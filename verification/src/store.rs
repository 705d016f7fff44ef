//! The link store: a collection of link records with bidirectional
//! uniqueness enforced by the store itself, atomically per call, so that
//! racing link attempts need no caller-side locking.

use vstd::prelude::*;

use crate::ids::ExternalAccountId;
use crate::ids::LinkRecord;
use crate::ids::RequesterId;

verus! {

/// Bidirectional uniqueness: no two records share a requester, and no two
/// records share an external account.
pub open spec fn links_unique(s: Seq<LinkRecord>) -> bool {
    forall|i: int, j: int|
        0 <= i < s.len() && 0 <= j < s.len() && i != j ==> (#[trigger] s[i]).requester != (
        #[trigger] s[j]).requester && s[i].account != s[j].account
}

/// A fresh pair may be recorded exactly when neither of its sides already
/// appears in any record.
pub open spec fn create_accepted(
    s: Seq<LinkRecord>,
    requester: RequesterId,
    account: ExternalAccountId,
) -> bool {
    forall|i: int|
        0 <= i < s.len() ==> (#[trigger] s[i]).requester != requester && s[i].account != account
}

/// The requester that currently owns `account`, if any record claims it.
pub open spec fn owner_of(s: Seq<LinkRecord>, account: ExternalAccountId) -> Option<RequesterId> {
    if exists|i: int| 0 <= i < s.len() && (#[trigger] s[i]).account == account {
        let i = choose|i: int| 0 <= i < s.len() && (#[trigger] s[i]).account == account;
        Some(s[i].requester)
    } else {
        None
    }
}

/// What one `create_link` attempt reported. A conflict does not say which
/// side violated uniqueness: the reconciler disambiguates with `find_owner`.
#[derive(Clone, Copy, PartialEq, Eq, Structural, Debug)]
pub enum CreateOutcome {
    /// The record was durably created.
    Created,
    /// A uniqueness violation on either side; nothing was changed.
    Conflict,
    /// Any other storage failure; fatal to the request.
    StoreFailed,
}

/// An in-memory link store. It holds the uniqueness invariant itself:
/// `create_link` either records a fresh pair or rejects it atomically.
pub struct LinkStore {
    records: Vec<LinkRecord>,
}

impl View for LinkStore {
    type V = Seq<LinkRecord>;

    closed spec fn view(&self) -> Seq<LinkRecord> {
        self.records@
    }
}

impl LinkStore {
    /// The store's standing invariant: bidirectional uniqueness.
    pub open spec fn wf(&self) -> bool {
        links_unique(self@)
    }

    /// An empty store: no requester and no external account is linked.
    pub fn new() -> (s: Self)
        ensures
            s@ == Seq::<LinkRecord>::empty(),
            s.wf(),
    {
        LinkStore { records: Vec::new() }
    }

    /// How many links exist.
    pub fn len(&self) -> (n: usize)
        ensures
            n == self@.len(),
    {
        self.records.len()
    }

    /// Atomic insert-if-unique: records the pair exactly when neither side
    /// appears yet, and otherwise reports a conflict and changes nothing.
    /// This in-memory store has no other failure, so it never reports
    /// `StoreFailed`.
    pub fn create_link(&mut self, requester: RequesterId, account: ExternalAccountId) -> (r:
        CreateOutcome)
        requires
            old(self).wf(),
        ensures
            final(self).wf(),
            create_accepted(old(self)@, requester, account) ==> r == CreateOutcome::Created
                && final(self)@ == old(self)@.push(LinkRecord { requester, account }),
            !create_accepted(old(self)@, requester, account) ==> r == CreateOutcome::Conflict
                && final(self)@ == old(self)@,
    {
        let n = self.records.len();
        let mut i: usize = 0;
        while i < n
            invariant
                n == self.records.len(),
                i <= n,
                old(self).wf(),
                self@ == old(self)@,
                forall|j: int|
                    0 <= j < i ==> (#[trigger] self.records@[j]).requester != requester
                        && self.records@[j].account != account,
            decreases n - i,
        {
            let rec = self.records[i];
            if rec.requester == requester || rec.account == account {
                return CreateOutcome::Conflict;
            }
            i += 1;
        }
        proof {
            lemma_unique_after_create(self@, requester, account);
        }
        self.records.push(LinkRecord { requester, account });
        CreateOutcome::Created
    }

    /// Point lookup: the requester that owns `account`, if any.
    pub fn find_owner(&self, account: ExternalAccountId) -> (r: Option<RequesterId>)
        requires
            self.wf(),
        ensures
            r == owner_of(self@, account),
    {
        let n = self.records.len();
        let mut i: usize = 0;
        while i < n
            invariant
                n == self.records.len(),
                i <= n,
                self.wf(),
                forall|j: int| 0 <= j < i ==> (#[trigger] self.records@[j]).account != account,
            decreases n - i,
        {
            let rec = self.records[i];
            if rec.account == account {
                proof {
                    let k = choose|k: int| 0 <= k < self@.len() && (#[trigger] self@[k]).account
                        == account;
                    lemma_at_most_one_record(self@, k, i as int);
                }
                return Some(rec.requester);
            }
            i += 1;
        }
        None
    }
}

/// Law: in a unique store, at most one record references any given
/// requester or any given external account — two records that share either
/// side are one and the same.
pub proof fn lemma_at_most_one_record(s: Seq<LinkRecord>, i: int, j: int)
    requires
        links_unique(s),
        0 <= i < s.len(),
        0 <= j < s.len(),
        s[i].requester == s[j].requester || s[i].account == s[j].account,
    ensures
        i == j,
{
}

/// Law: recording an accepted pair preserves bidirectional uniqueness, so
/// every store grown only by `create_link` stays unique.
pub proof fn lemma_unique_after_create(
    s: Seq<LinkRecord>,
    requester: RequesterId,
    account: ExternalAccountId,
)
    requires
        links_unique(s),
        create_accepted(s, requester, account),
    ensures
        links_unique(s.push(LinkRecord { requester, account })),
{
    let t = s.push(LinkRecord { requester, account });
    assert forall|i: int, j: int|
        0 <= i < t.len() && 0 <= j < t.len() && i != j implies (#[trigger] t[i]).requester != (
    #[trigger] t[j]).requester && t[i].account != t[j].account by {
        if i < s.len() && j < s.len() {
            assert(t[i] == s[i] && t[j] == s[j]);
        } else if i == s.len() {
            assert(t[i] == (LinkRecord { requester, account }) && t[j] == s[j]);
        } else {
            assert(t[j] == (LinkRecord { requester, account }) && t[i] == s[i]);
        }
    }
}

/// Law: of two racing attempts that touch the same requester or the same
/// external account, at most one is accepted — once the first pair is
/// recorded, the store no longer accepts the second.
pub proof fn lemma_race_second_loses(
    s: Seq<LinkRecord>,
    first: LinkRecord,
    requester: RequesterId,
    account: ExternalAccountId,
)
    requires
        create_accepted(s, first.requester, first.account),
        requester == first.requester || account == first.account,
    ensures
        !create_accepted(s.push(first), requester, account),
{
    let t = s.push(first);
    assert(t[s.len() as int] == first);
}

} // verus!
