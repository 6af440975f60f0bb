//! Reconciliation of the desired records against one provider, over its
//! domains in turn. For each domain the listing is fetched page by page; the
//! records are then diffed by (type, content); all deletes run, then all
//! creates, and each failed operation adds one to the failure count.
//!
//! The pass is a state machine: `next_action` says what to do, and the caller
//! performs it and hands the result back to `on_outcome`.
use vstd::prelude::*;
use crate::record::RecordKey;

verus! {

/// A record that a provider reports, with its provider-assigned id.
#[derive(Debug)]
pub struct RemoteRecord {
    pub id: String,
    pub kind: String,
    pub name: String,
    pub content: String,
}

impl RemoteRecord {
    pub open spec fn key_pair(self) -> (Seq<char>, Seq<char>) {
        (self.kind@, self.content@)
    }

    pub fn duplicate(&self) -> (r: RemoteRecord)
        ensures
            r == *self,
    {
        RemoteRecord {
            id: self.id.clone(),
            kind: self.kind.clone(),
            name: self.name.clone(),
            content: self.content.clone(),
        }
    }
}

pub open spec fn desired_keys(desired: Seq<RecordKey>) -> Seq<(Seq<char>, Seq<char>)> {
    desired.map_values(|k: RecordKey| k.view_pair())
}

pub open spec fn remote_keys(remote: Seq<RemoteRecord>) -> Seq<(Seq<char>, Seq<char>)> {
    remote.map_values(|r: RemoteRecord| r.key_pair())
}

/// The remote records that no desired record matches, in listing order.
pub open spec fn pending_to_delete(desired: Seq<RecordKey>, remote: Seq<RemoteRecord>) -> Seq<
    RemoteRecord,
> {
    remote.filter(|r: RemoteRecord| !desired_keys(desired).contains(r.key_pair()))
}

/// The desired records that no remote record matches, in desired order.
pub open spec fn pending_to_create(desired: Seq<RecordKey>, remote: Seq<RemoteRecord>) -> Seq<
    RecordKey,
> {
    desired.filter(|k: RecordKey| !remote_keys(remote).contains(k.view_pair()))
}

/// The mutations that make one domain match the desired records.
#[derive(Debug)]
pub struct Plan {
    pub to_delete: Vec<RemoteRecord>,
    pub to_create: Vec<RecordKey>,
}

fn desired_has(desired: &Vec<RecordKey>, r: &RemoteRecord) -> (b: bool)
    ensures
        b == desired_keys(desired@).contains(r.key_pair()),
{
    let mut i: usize = 0;
    while i < desired.len()
        invariant
            i <= desired.len(),
            forall|j: int| 0 <= j < i ==> desired@[j].view_pair() != r.key_pair(),
        decreases desired.len() - i,
    {
        if desired[i].kind == r.kind && desired[i].content == r.content {
            assert(desired_keys(desired@)[i as int] == r.key_pair());
            return true;
        }
        i = i + 1;
    }
    assert(!desired_keys(desired@).contains(r.key_pair())) by {
        if desired_keys(desired@).contains(r.key_pair()) {
            let j = choose|j: int|
                0 <= j < desired_keys(desired@).len() && desired_keys(desired@)[j]
                    == r.key_pair();
            assert(desired@[j].view_pair() == r.key_pair());
        }
    }
    false
}

fn remote_has(remote: &Vec<RemoteRecord>, k: &RecordKey) -> (b: bool)
    ensures
        b == remote_keys(remote@).contains(k.view_pair()),
{
    let mut i: usize = 0;
    while i < remote.len()
        invariant
            i <= remote.len(),
            forall|j: int| 0 <= j < i ==> remote@[j].key_pair() != k.view_pair(),
        decreases remote.len() - i,
    {
        if remote[i].kind == k.kind && remote[i].content == k.content {
            assert(remote_keys(remote@)[i as int] == k.view_pair());
            return true;
        }
        i = i + 1;
    }
    assert(!remote_keys(remote@).contains(k.view_pair())) by {
        if remote_keys(remote@).contains(k.view_pair()) {
            let j = choose|j: int|
                0 <= j < remote_keys(remote@).len() && remote_keys(remote@)[j] == k.view_pair();
            assert(remote@[j].key_pair() == k.view_pair());
        }
    }
    false
}

/// Diffs the desired records against the remote ones by (type, content).
pub fn plan_changes(desired: &Vec<RecordKey>, remote: &Vec<RemoteRecord>) -> (r: Plan)
    ensures
        r.to_delete@ == pending_to_delete(desired@, remote@),
        r.to_create@ == pending_to_create(desired@, remote@),
{
    let ghost stale = |r: RemoteRecord| !desired_keys(desired@).contains(r.key_pair());
    let ghost missing = |k: RecordKey| !remote_keys(remote@).contains(k.view_pair());
    let mut to_delete: Vec<RemoteRecord> = Vec::new();
    let mut i: usize = 0;
    while i < remote.len()
        invariant
            i <= remote.len(),
            stale == (|r: RemoteRecord| !desired_keys(desired@).contains(r.key_pair())),
            to_delete@ == remote@.subrange(0, i as int).filter(stale),
        decreases remote.len() - i,
    {
        let ghost next = remote@.subrange(0, i + 1);
        assert(next.drop_last() =~= remote@.subrange(0, i as int));
        if !desired_has(desired, &remote[i]) {
            to_delete.push(remote[i].duplicate());
            assert(next.filter(stale) == remote@.subrange(0, i as int).filter(stale).push(
                remote@[i as int],
            )) by {
                reveal(Seq::filter);
            }
        } else {
            assert(next.filter(stale) == remote@.subrange(0, i as int).filter(stale)) by {
                reveal(Seq::filter);
            }
        }
        i = i + 1;
    }
    assert(remote@.subrange(0, remote.len() as int) =~= remote@);
    let mut to_create: Vec<RecordKey> = Vec::new();
    let mut i: usize = 0;
    while i < desired.len()
        invariant
            i <= desired.len(),
            missing == (|k: RecordKey| !remote_keys(remote@).contains(k.view_pair())),
            to_create@ == desired@.subrange(0, i as int).filter(missing),
        decreases desired.len() - i,
    {
        let ghost next = desired@.subrange(0, i + 1);
        assert(next.drop_last() =~= desired@.subrange(0, i as int));
        if !remote_has(remote, &desired[i]) {
            to_create.push(desired[i].duplicate());
            assert(next.filter(missing) == desired@.subrange(0, i as int).filter(missing).push(
                desired@[i as int],
            )) by {
                reveal(Seq::filter);
            }
        } else {
            assert(next.filter(missing) == desired@.subrange(0, i as int).filter(missing)) by {
                reveal(Seq::filter);
            }
        }
        i = i + 1;
    }
    assert(desired@.subrange(0, desired.len() as int) =~= desired@);
    Plan { to_delete, to_create }
}

/// Where a pass stands within the current domain.
#[derive(Clone, Copy, Debug, PartialEq, Eq, Structural)]
pub enum Stage {
    Listing,
    Deleting,
    Creating,
    Finished,
}

/// What the caller is to do next.
#[derive(Debug)]
pub enum Action {
    /// Fetch page `page` (counting from one) of the listing of domain `domain`.
    FetchPage { domain: usize, page: u64 },
    /// Delete `record` from domain `domain`.
    Delete { domain: usize, record: RemoteRecord },
    /// Create the record `key` in domain `domain`.
    Create { domain: usize, key: RecordKey },
    /// The pass is over, with this many failed operations.
    Finish { failures: u64 },
}

/// What came of the last action.
#[derive(Debug)]
pub enum Outcome {
    /// One page of the listing.
    Listed(Vec<RemoteRecord>),
    /// The listing request failed, or its reply was not a listing.
    ListFailed,
    /// The delete or create succeeded.
    Applied,
    /// The delete or create failed: transport, an unreadable reply, or the
    /// provider reporting failure.
    Failed,
}

/// One more, except that a count at the largest `u64` stays there.
pub open spec fn bump(n: nat) -> nat {
    if n < u64::MAX {
        n + 1
    } else {
        n
    }
}

/// The state of a pass, as mathematical values.
pub struct PassState {
    pub desired: Seq<RecordKey>,
    pub domain_count: nat,
    pub page_size: nat,
    pub domain: nat,
    pub stage: Stage,
    pub page: nat,
    pub listed: Seq<RemoteRecord>,
    pub to_delete: Seq<RemoteRecord>,
    pub to_create: Seq<RecordKey>,
    pub cursor: nat,
    pub failures: nat,
}

impl PassState {
    /// The pass at the start of domain `d`, or finished when no domain is left.
    pub open spec fn start_domain(self, d: nat) -> PassState {
        PassState {
            domain: if d < self.domain_count {
                d
            } else {
                self.domain_count
            },
            stage: if d < self.domain_count {
                Stage::Listing
            } else {
                Stage::Finished
            },
            page: 1,
            listed: Seq::empty(),
            to_delete: Seq::empty(),
            to_create: Seq::empty(),
            cursor: 0,
            ..self
        }
    }

    /// A new pass over `domain_count` domains.
    pub open spec fn initial(desired: Seq<RecordKey>, domain_count: nat, page_size: nat) -> PassState {
        PassState {
            desired,
            domain_count,
            page_size,
            domain: 0,
            stage: Stage::Listing,
            page: 1,
            listed: Seq::empty(),
            to_delete: Seq::empty(),
            to_create: Seq::empty(),
            cursor: 0,
            failures: 0,
        }.start_domain(0)
    }

    /// The listing is complete: plan, then start on the deletes, on the
    /// creates, or on the next domain when there is nothing to do.
    pub open spec fn begin_changes(self) -> PassState {
        let del = pending_to_delete(self.desired, self.listed);
        let cre = pending_to_create(self.desired, self.listed);
        if del.len() > 0 {
            PassState { stage: Stage::Deleting, to_delete: del, to_create: cre, cursor: 0, ..self }
        } else if cre.len() > 0 {
            PassState { stage: Stage::Creating, to_delete: del, to_create: cre, cursor: 0, ..self }
        } else {
            self.start_domain(self.domain + 1)
        }
    }

    /// One delete or create is done, failed or not.
    pub open spec fn change_done(self, failed: bool) -> PassState {
        let s = PassState {
            failures: if failed {
                bump(self.failures)
            } else {
                self.failures
            },
            cursor: self.cursor + 1,
            ..self
        };
        if self.stage == Stage::Deleting {
            if s.cursor < s.to_delete.len() {
                s
            } else if s.to_create.len() > 0 {
                PassState { stage: Stage::Creating, cursor: 0, ..s }
            } else {
                s.start_domain(s.domain + 1)
            }
        } else {
            if s.cursor < s.to_create.len() {
                s
            } else {
                s.start_domain(s.domain + 1)
            }
        }
    }

    /// The pass after `o`. An outcome that does not answer the current
    /// stage changes nothing.
    pub open spec fn after(self, o: Outcome) -> PassState {
        match o {
            Outcome::Listed(page) => if self.stage == Stage::Listing {
                let s = PassState { listed: self.listed + page@, ..self };
                if page@.len() == self.page_size {
                    PassState { page: bump(self.page), ..s }
                } else {
                    s.begin_changes()
                }
            } else {
                self
            },
            Outcome::ListFailed => if self.stage == Stage::Listing {
                PassState { failures: bump(self.failures), ..self }.start_domain(self.domain + 1)
            } else {
                self
            },
            Outcome::Applied => if self.stage == Stage::Deleting || self.stage == Stage::Creating {
                self.change_done(false)
            } else {
                self
            },
            Outcome::Failed => if self.stage == Stage::Deleting || self.stage == Stage::Creating {
                self.change_done(true)
            } else {
                self
            },
        }
    }

    /// What to do in this state.
    pub open spec fn action(self) -> Action {
        match self.stage {
            Stage::Listing => Action::FetchPage { domain: self.domain as usize, page: self.page as u64 },
            Stage::Deleting => Action::Delete {
                domain: self.domain as usize,
                record: self.to_delete[self.cursor as int],
            },
            Stage::Creating => Action::Create {
                domain: self.domain as usize,
                key: self.to_create[self.cursor as int],
            },
            Stage::Finished => Action::Finish { failures: self.failures as u64 },
        }
    }

    /// The consistency of a pass. Deletes and creates are only ever those
    /// planned from a complete listing of the current domain.
    pub open spec fn wf(self) -> bool {
        &&& self.page_size > 0
        &&& self.domain_count <= usize::MAX
        &&& self.domain <= self.domain_count
        &&& (self.stage == Stage::Finished <==> self.domain == self.domain_count)
        &&& 1 <= self.page <= u64::MAX
        &&& self.failures <= u64::MAX
        &&& (self.stage == Stage::Deleting || self.stage == Stage::Creating) ==> {
            &&& self.to_delete == pending_to_delete(self.desired, self.listed)
            &&& self.to_create == pending_to_create(self.desired, self.listed)
        }
        &&& self.stage == Stage::Deleting ==> self.cursor < self.to_delete.len()
        &&& self.stage == Stage::Creating ==> self.cursor < self.to_create.len()
    }
}

/// A reconciliation pass of one provider over its domains.
#[derive(Debug)]
pub struct Reconciler {
    pub desired: Vec<RecordKey>,
    pub domain_count: usize,
    pub page_size: usize,
    pub domain: usize,
    pub stage: Stage,
    pub page: u64,
    pub listed: Vec<RemoteRecord>,
    pub to_delete: Vec<RemoteRecord>,
    pub to_create: Vec<RecordKey>,
    pub cursor: usize,
    pub failures: u64,
}

impl View for Reconciler {
    type V = PassState;

    open spec fn view(&self) -> PassState {
        PassState {
            desired: self.desired@,
            domain_count: self.domain_count as nat,
            page_size: self.page_size as nat,
            domain: self.domain as nat,
            stage: self.stage,
            page: self.page as nat,
            listed: self.listed@,
            to_delete: self.to_delete@,
            to_create: self.to_create@,
            cursor: self.cursor as nat,
            failures: self.failures as nat,
        }
    }
}

impl Reconciler {
    /// A pass that brings `domain_count` domains to the desired records,
    /// listing `page_size` records a page.
    pub fn new(desired: Vec<RecordKey>, domain_count: usize, page_size: usize) -> (r: Reconciler)
        requires
            page_size > 0,
        ensures
            r@.wf(),
            r@ == PassState::initial(desired@, domain_count as nat, page_size as nat),
    {
        let mut r = Reconciler {
            desired,
            domain_count,
            page_size,
            domain: 0,
            stage: Stage::Listing,
            page: 1,
            listed: Vec::new(),
            to_delete: Vec::new(),
            to_create: Vec::new(),
            cursor: 0,
            failures: 0,
        };
        r.start_domain(0);
        r
    }

    fn start_domain(&mut self, d: usize)
        requires
            d <= old(self).domain_count,
            old(self).page_size > 0,
            old(self).page >= 1,
        ensures
            final(self)@ == old(self)@.start_domain(d as nat),
            final(self)@.wf(),
    {
        if d < self.domain_count {
            self.domain = d;
            self.stage = Stage::Listing;
        } else {
            self.domain = self.domain_count;
            self.stage = Stage::Finished;
        }
        self.page = 1;
        self.listed = Vec::new();
        self.to_delete = Vec::new();
        self.to_create = Vec::new();
        self.cursor = 0;
    }

    fn begin_changes(&mut self)
        requires
            old(self)@.wf(),
            old(self).stage == Stage::Listing,
        ensures
            final(self)@ == old(self)@.begin_changes(),
            final(self)@.wf(),
    {
        let plan = plan_changes(&self.desired, &self.listed);
        if plan.to_delete.len() > 0 {
            self.stage = Stage::Deleting;
            self.to_delete = plan.to_delete;
            self.to_create = plan.to_create;
            self.cursor = 0;
        } else if plan.to_create.len() > 0 {
            self.stage = Stage::Creating;
            self.to_delete = plan.to_delete;
            self.to_create = plan.to_create;
            self.cursor = 0;
        } else {
            let d = self.domain + 1;
            self.start_domain(d);
        }
    }

    fn change_done(&mut self, failed: bool)
        requires
            old(self)@.wf(),
            old(self).stage == Stage::Deleting || old(self).stage == Stage::Creating,
        ensures
            final(self)@ == old(self)@.change_done(failed),
            final(self)@.wf(),
    {
        if failed {
            self.failures = self.failures.saturating_add(1);
        }
        let n_delete = self.to_delete.len();
        let n_create = self.to_create.len();
        assert(self.cursor < n_delete || self.cursor < n_create);
        self.cursor = self.cursor + 1;
        if self.stage == Stage::Deleting {
            if self.cursor < self.to_delete.len() {
            } else if self.to_create.len() > 0 {
                self.stage = Stage::Creating;
                self.cursor = 0;
            } else {
                let d = self.domain + 1;
                self.start_domain(d);
            }
        } else {
            if self.cursor < self.to_create.len() {
            } else {
                let d = self.domain + 1;
                self.start_domain(d);
            }
        }
    }

    /// What to do next.
    pub fn next_action(&self) -> (r: Action)
        requires
            self@.wf(),
        ensures
            r == self@.action(),
    {
        match self.stage {
            Stage::Listing => Action::FetchPage { domain: self.domain, page: self.page },
            Stage::Deleting => Action::Delete {
                domain: self.domain,
                record: self.to_delete[self.cursor].duplicate(),
            },
            Stage::Creating => Action::Create {
                domain: self.domain,
                key: self.to_create[self.cursor].duplicate(),
            },
            Stage::Finished => Action::Finish { failures: self.failures },
        }
    }

    /// Takes the result of the last action and moves the pass on.
    pub fn on_outcome(&mut self, o: Outcome)
        requires
            old(self)@.wf(),
        ensures
            final(self)@.wf(),
            final(self)@ == old(self)@.after(o),
    {
        match o {
            Outcome::Listed(page) => {
                if self.stage == Stage::Listing {
                    let mut page = page;
                    let n = page.len();
                    self.listed.append(&mut page);
                    if n == self.page_size {
                        self.page = self.page.saturating_add(1);
                    } else {
                        self.begin_changes();
                    }
                }
            },
            Outcome::ListFailed => {
                if self.stage == Stage::Listing {
                    self.failures = self.failures.saturating_add(1);
                    let d = self.domain + 1;
                    self.start_domain(d);
                }
            },
            Outcome::Applied => {
                if self.stage == Stage::Deleting || self.stage == Stage::Creating {
                    self.change_done(false);
                }
            },
            Outcome::Failed => {
                if self.stage == Stage::Deleting || self.stage == Stage::Creating {
                    self.change_done(true);
                }
            },
        }
    }

    pub fn is_finished(&self) -> (r: bool)
        ensures
            r == (self.stage == Stage::Finished),
    {
        self.stage == Stage::Finished
    }

    /// Failed operations so far.
    pub fn failures(&self) -> (r: u64)
        ensures
            r == self.failures,
    {
        self.failures
    }
}

proof fn lemma_filter_rejects_all<A>(s: Seq<A>, p: spec_fn(A) -> bool)
    requires
        forall|i: int| 0 <= i < s.len() ==> !p(#[trigger] s[i]),
    ensures
        s.filter(p) == Seq::<A>::empty(),
    decreases s.len(),
{
    reveal(Seq::filter);
    if s.len() > 0 {
        lemma_filter_rejects_all(s.drop_last(), p);
        assert(!p(s[s.len() - 1]));
    }
}

/// When the remote records and the desired ones hold the same (type,
/// content) keys, a pass plans no delete and no create.
pub proof fn lemma_in_sync_needs_no_change(desired: Seq<RecordKey>, remote: Seq<RemoteRecord>)
    requires
        forall|i: int|
            0 <= i < remote.len() ==> desired_keys(desired).contains(#[trigger] remote[i].key_pair()),
        forall|i: int|
            0 <= i < desired.len() ==> remote_keys(remote).contains(#[trigger] desired[i].view_pair()),
    ensures
        pending_to_delete(desired, remote) == Seq::<RemoteRecord>::empty(),
        pending_to_create(desired, remote) == Seq::<RecordKey>::empty(),
{
    lemma_filter_rejects_all(
        remote,
        |r: RemoteRecord| !desired_keys(desired).contains(r.key_pair()),
    );
    lemma_filter_rejects_all(desired, |k: RecordKey| !remote_keys(remote).contains(k.view_pair()));
}

/// A failed delete or create moves the pass on exactly as a successful one
/// would, to the same next operation or domain, and adds one failure.
pub proof fn lemma_failure_is_isolated(s: PassState)
    requires
        s.wf(),
        s.stage == Stage::Deleting || s.stage == Stage::Creating,
        s.failures < u64::MAX,
    ensures
        s.after(Outcome::Failed) == (PassState {
            failures: s.failures + 1,
            ..s.after(Outcome::Applied)
        }),
{
}

/// No outcome takes a failure back: once one operation has failed, the pass
/// ends with a nonzero count.
pub proof fn lemma_failures_never_decrease(s: PassState, o: Outcome)
    ensures
        s.after(o).failures >= s.failures,
{
}

/// A listing page of exactly the page size is followed by a fetch of the
/// next page of the same domain; any other page ends that domain's listing.
pub proof fn lemma_pagination(s: PassState, page: Vec<RemoteRecord>)
    requires
        s.wf(),
        s.stage == Stage::Listing,
        s.page < u64::MAX,
    ensures
        page@.len() == s.page_size ==> s.after(Outcome::Listed(page)).action() == (
        Action::FetchPage { domain: s.domain as usize, page: (s.page + 1) as u64 }),
        page@.len() != s.page_size ==> s.after(Outcome::Listed(page)).stage != Stage::Listing
            || s.after(Outcome::Listed(page)).domain != s.domain,
{
}

} // verus!
