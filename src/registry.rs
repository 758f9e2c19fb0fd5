//! Whitelist and ban registry for experts: pure status transitions guarded by
//! an administrator, plus a profile reference that verified experts maintain.
use vstd::prelude::*;

use crate::types::Address;

verus! {

/// Most experts that one batch call may name.
pub const MAX_BATCH: usize = 20;

/// Longest profile reference accepted, in bytes.
pub const MAX_URI_LEN: usize = 64;

#[derive(Clone, Copy, Debug, PartialEq, Eq, Structural)]
pub enum ExpertStatus {
    Unverified,
    Verified,
    Banned,
}

#[derive(Clone, Copy, Debug, PartialEq, Eq, Structural)]
pub enum RegistryError {
    AlreadyInitialized,
    NotInitialized,
    AdminOnly,
    ExpertNotFound,
    AlreadyVerified,
    AlreadyBanned,
    ExpertVecMax,
    UriTooLong,
    NotVerified,
}

/// What the registry stores for an expert.
#[derive(Clone, Debug)]
pub struct ExpertRecord {
    pub status: ExpertStatus,
    /// Time of the last change.
    pub updated_at: u64,
    /// Profile reference, such as an `ipfs://` link.
    pub data_uri: Vec<u8>,
}

/// The abstract value of an `ExpertRecord`.
pub struct ExpertProfile {
    pub status: ExpertStatus,
    pub updated_at: u64,
    pub data_uri: Seq<u8>,
}

impl ExpertRecord {
    pub open spec fn profile(&self) -> ExpertProfile {
        ExpertProfile { status: self.status, updated_at: self.updated_at, data_uri: self.data_uri@ }
    }
}

/// Observable record of each registry change.
#[derive(Clone, Debug)]
pub enum RegistryEvent {
    StatusChanged {
        expert: Address,
        old_status: ExpertStatus,
        new_status: ExpertStatus,
        admin: Address,
    },
    ProfileUpdated { expert: Address, new_uri: Vec<u8> },
}

/// The abstract state: the administrator once set, each known expert's
/// profile, and the events emitted so far.
pub struct RegistryState {
    pub admin: Option<Address>,
    pub experts: Map<Address, ExpertProfile>,
    pub events: Seq<RegistryEvent>,
}

/// An expert's status; one the registry has never seen is `Unverified`.
pub open spec fn status_of(m: Map<Address, ExpertProfile>, a: Address) -> ExpertStatus {
    if m.contains_key(a) {
        m[a].status
    } else {
        ExpertStatus::Unverified
    }
}

/// An expert's profile reference; empty for one never seen.
pub open spec fn uri_of(m: Map<Address, ExpertProfile>, a: Address) -> Seq<u8> {
    if m.contains_key(a) {
        m[a].data_uri
    } else {
        Seq::empty()
    }
}

/// The profile an expert gets when moved to `target` at `now`: a ban keeps
/// the reference, a batch verification clears it.
pub open spec fn restamp(
    m: Map<Address, ExpertProfile>,
    a: Address,
    target: ExpertStatus,
    now: u64,
) -> ExpertProfile {
    ExpertProfile {
        status: target,
        updated_at: now,
        data_uri: if target == ExpertStatus::Banned {
            uri_of(m, a)
        } else {
            Seq::empty()
        },
    }
}

/// A batch that moves every named expert to `target` goes through: no
/// expert is named twice and none already has that status.
pub open spec fn batch_ok(m: Map<Address, ExpertProfile>, experts: Seq<Address>, target: ExpertStatus) -> bool {
    &&& experts.no_duplicates()
    &&& forall|i: int| 0 <= i < experts.len() ==> status_of(m, #[trigger] experts[i]) != target
}

/// The experts after a successful batch.
pub open spec fn batch_result(
    m: Map<Address, ExpertProfile>,
    experts: Seq<Address>,
    target: ExpertStatus,
    now: u64,
) -> Map<Address, ExpertProfile> {
    Map::new(
        |a: Address| m.contains_key(a) || experts.contains(a),
        |a: Address|
            if experts.contains(a) {
                restamp(m, a, target, now)
            } else {
                m[a]
            },
    )
}

/// The status-change events of a successful batch, one per expert in order.
pub open spec fn batch_events(
    m: Map<Address, ExpertProfile>,
    experts: Seq<Address>,
    target: ExpertStatus,
    admin: Address,
) -> Seq<RegistryEvent> {
    experts.map_values(
        |a: Address|
            RegistryEvent::StatusChanged {
                expert: a,
                old_status: status_of(m, a),
                new_status: target,
                admin,
            },
    )
}

proof fn lemma_index_of_unique(s: Seq<Address>, i: int)
    requires
        s.no_duplicates(),
        0 <= i < s.len(),
    ensures
        s.index_of(s[i]) == i,
{
    assert(0 <= i < s.len() && s[i] == s[i]);
}

/// A fresh copy of `src`.
fn copy_bytes(src: &Vec<u8>) -> (r: Vec<u8>)
    ensures
        r@ == src@,
{
    let mut out: Vec<u8> = Vec::new();
    let mut k: usize = 0;
    while k < src.len()
        invariant
            k <= src@.len(),
            out@ == src@.subrange(0, k as int),
        decreases src.len() - k,
    {
        out.push(src[k]);
        k = k + 1;
        assert(out@ =~= src@.subrange(0, k as int));
    }
    assert(out@ =~= src@);
    out
}

/// The expert registry.
pub struct IdentityRegistryContract {
    admin: Option<Address>,
    experts: Vec<Address>,
    records: Vec<ExpertRecord>,
    events: Vec<RegistryEvent>,
}

impl View for IdentityRegistryContract {
    type V = RegistryState;

    closed spec fn view(&self) -> RegistryState {
        RegistryState {
            admin: self.admin,
            experts: Map::new(
                |a: Address| self.experts@.contains(a),
                |a: Address| self.records@[self.experts@.index_of(a)].profile(),
            ),
            events: self.events@,
        }
    }
}

impl IdentityRegistryContract {
    /// The experts and their records line up, one record per expert.
    pub closed spec fn wf(&self) -> bool {
        &&& self.experts@.len() == self.records@.len()
        &&& self.experts@.no_duplicates()
    }

    /// A registry with no administrator and no experts.
    pub fn new() -> (r: Self)
        ensures
            r.wf(),
            r@.admin is None,
            r@.experts == Map::<Address, ExpertProfile>::empty(),
            r@.events == Seq::<RegistryEvent>::empty(),
    {
        let r = IdentityRegistryContract {
            admin: None,
            experts: Vec::new(),
            records: Vec::new(),
            events: Vec::new(),
        };
        assert(r@.experts =~= Map::<Address, ExpertProfile>::empty());
        assert(r@.events =~= Seq::<RegistryEvent>::empty());
        r
    }

    fn find(&self, expert: Address) -> (r: Option<usize>)
        ensures
            r matches Some(i) ==> i < self.experts@.len() && self.experts@[i as int] == expert,
            r is None ==> !self.experts@.contains(expert),
    {
        let mut i: usize = 0;
        while i < self.experts.len()
            invariant
                i <= self.experts@.len(),
                forall|k: int| 0 <= k < i ==> self.experts@[k] != expert,
            decreases self.experts.len() - i,
        {
            if self.experts[i] == expert {
                return Some(i);
            }
            i = i + 1;
        }
        None
    }

    /// Stores `record` for `expert`, replacing any earlier one.
    fn put(&mut self, expert: Address, record: ExpertRecord)
        requires
            old(self).wf(),
        ensures
            final(self).wf(),
            final(self)@.admin == old(self)@.admin,
            final(self)@.events == old(self)@.events,
            final(self)@.experts == old(self)@.experts.insert(expert, record.profile()),
    {
        let ghost old_experts = self.experts@;
        let ghost old_records = self.records@;
        let ghost p = record.profile();
        match self.find(expert) {
            Some(i) => {
                self.records.set(i, record);
                proof {
                    lemma_index_of_unique(old_experts, i as int);
                    assert forall|a: Address| #[trigger]
                        self@.experts.contains_key(a) implies self@.experts[a] == old(
                        self,
                    )@.experts.insert(expert, p)[a] by {
                        if a != expert {
                            let k = old_experts.index_of(a);
                            assert(0 <= k < old_experts.len() && old_experts[k] == a);
                            assert(k != i);
                        }
                    }
                    assert(self@.experts =~= old(self)@.experts.insert(expert, p));
                }
            },
            None => {
                self.experts.push(expert);
                self.records.push(record);
                proof {
                    let n = old_experts.len() as int;
                    assert(self.experts@.no_duplicates()) by {
                        assert forall|x: int, y: int|
                            0 <= x < self.experts@.len() && 0 <= y < self.experts@.len() && x
                                != y implies self.experts@[x] != self.experts@[y] by {
                            if x == n {
                                assert(old_experts.contains(self.experts@[y]) || y == n);
                            } else if y == n {
                                assert(old_experts.contains(self.experts@[x]));
                            }
                        }
                    }
                    lemma_index_of_unique(self.experts@, n);
                    assert forall|a: Address| #[trigger]
                        self@.experts.contains_key(a) implies self@.experts[a] == old(
                        self,
                    )@.experts.insert(expert, p)[a] by {
                        if a != expert {
                            let k = old_experts.index_of(a);
                            assert(self.experts@[n] == expert);
                            assert(exists|j: int| 0 <= j < self.experts@.len() && self.experts@[j] == a);
                            let j = choose|j: int| 0 <= j < self.experts@.len() && self.experts@[j] == a;
                            assert(j != n);
                            assert(old_experts[j] == a);
                            lemma_index_of_unique(old_experts, j);
                            lemma_index_of_unique(self.experts@, j);
                        }
                    }
                    assert forall|a: Address| #[trigger]
                        self@.experts.contains_key(a) <==> old(self)@.experts.insert(
                        expert,
                        p,
                    ).contains_key(a) by {
                        if a != expert && self@.experts.contains_key(a) {
                            let j = choose|j: int| 0 <= j < self.experts@.len() && self.experts@[j] == a;
                            assert(old_experts[j] == a);
                        }
                        if old_experts.contains(a) {
                            let j = choose|j: int| 0 <= j < old_experts.len() && old_experts[j] == a;
                            assert(self.experts@[j] == a);
                        }
                    }
                    assert(self@.experts =~= old(self)@.experts.insert(expert, p));
                }
            },
        }
    }

    /// Sets the administrator, once; a second call fails with
    /// `AlreadyInitialized`.
    pub fn init(&mut self, admin: Address) -> (r: Result<(), RegistryError>)
        requires
            old(self).wf(),
        ensures
            final(self).wf(),
            old(self)@.admin is Some ==> r == Err::<(), RegistryError>(
                RegistryError::AlreadyInitialized,
            ) && final(self)@ == old(self)@,
            old(self)@.admin is None ==> r is Ok && final(self)@ == (RegistryState {
                admin: Some(admin),
                ..old(self)@
            }),
    {
        if self.admin.is_some() {
            return Err(RegistryError::AlreadyInitialized);
        }
        self.admin = Some(admin);
        Ok(())
    }

    /// The status of `expert`.
    pub fn get_status(&self, expert: Address) -> (r: ExpertStatus)
        requires
            self.wf(),
        ensures
            r == status_of(self@.experts, expert),
    {
        match self.find(expert) {
            Some(i) => {
                proof {
                    lemma_index_of_unique(self.experts@, i as int);
                }
                self.records[i].status
            },
            None => ExpertStatus::Unverified,
        }
    }

    /// Whether `expert` is currently `Verified`.
    pub fn is_verified(&self, expert: Address) -> (r: bool)
        requires
            self.wf(),
        ensures
            r == (status_of(self@.experts, expert) == ExpertStatus::Verified),
    {
        self.get_status(expert) == ExpertStatus::Verified
    }

    /// The stored record of `expert`, if any.
    pub fn get_record(&self, expert: Address) -> (r: Option<&ExpertRecord>)
        requires
            self.wf(),
        ensures
            r is Some <==> self@.experts.contains_key(expert),
            r matches Some(rec) ==> rec.profile() == self@.experts[expert],
    {
        match self.find(expert) {
            Some(i) => {
                proof {
                    lemma_index_of_unique(self.experts@, i as int);
                }
                Some(&self.records[i])
            },
            None => None,
        }
    }

    /// The administrator, once set.
    pub fn admin(&self) -> (r: Option<Address>)
        ensures
            r == self@.admin,
    {
        self.admin
    }

    /// Every event emitted so far, oldest first.
    pub fn events(&self) -> (r: &Vec<RegistryEvent>)
        ensures
            r@ == self@.events,
    {
        &self.events
    }

    /// The administrator, checked against the caller.
    fn authorize(&self, caller: Address) -> (r: Result<Address, RegistryError>)
        ensures
            self@.admin is None ==> r == Err::<Address, RegistryError>(
                RegistryError::NotInitialized,
            ),
            self@.admin matches Some(a) ==> (if a == caller {
                r == Ok::<Address, RegistryError>(a)
            } else {
                r == Err::<Address, RegistryError>(RegistryError::AdminOnly)
            }),
    {
        match self.admin {
            Some(a) => if a == caller {
                Ok(a)
            } else {
                Err(RegistryError::AdminOnly)
            },
            None => Err(RegistryError::NotInitialized),
        }
    }

    /// Verifies `expert` with profile reference `data_uri`, on behalf of the
    /// administrator `caller`. Fails with `NotInitialized`, `AdminOnly`,
    /// `AlreadyVerified` or `UriTooLong`, in that order, changing nothing.
    pub fn add_expert(&mut self, caller: Address, expert: Address, data_uri: Vec<u8>, now: u64) -> (r:
        Result<(), RegistryError>)
        requires
            old(self).wf(),
        ensures
            final(self).wf(),
            old(self)@.admin is None ==> r == Err::<(), RegistryError>(
                RegistryError::NotInitialized,
            ),
            old(self)@.admin matches Some(a) ==> {
                let st = status_of(old(self)@.experts, expert);
                if a != caller {
                    r == Err::<(), RegistryError>(RegistryError::AdminOnly)
                } else if st == ExpertStatus::Verified {
                    r == Err::<(), RegistryError>(RegistryError::AlreadyVerified)
                } else if data_uri@.len() > MAX_URI_LEN {
                    r == Err::<(), RegistryError>(RegistryError::UriTooLong)
                } else {
                    &&& r is Ok
                    &&& final(self)@.experts == old(self)@.experts.insert(
                        expert,
                        ExpertProfile {
                            status: ExpertStatus::Verified,
                            updated_at: now,
                            data_uri: data_uri@,
                        },
                    )
                    &&& final(self)@.events == old(self)@.events.push(
                        RegistryEvent::StatusChanged {
                            expert,
                            old_status: st,
                            new_status: ExpertStatus::Verified,
                            admin: a,
                        },
                    )
                }
            },
            r is Err ==> final(self)@ == old(self)@,
            final(self)@.admin == old(self)@.admin,
    {
        let admin = match self.authorize(caller) {
            Ok(a) => a,
            Err(e) => return Err(e),
        };
        let current = self.get_status(expert);
        if current == ExpertStatus::Verified {
            return Err(RegistryError::AlreadyVerified);
        }
        if data_uri.len() > MAX_URI_LEN {
            return Err(RegistryError::UriTooLong);
        }
        self.put(expert, ExpertRecord { status: ExpertStatus::Verified, updated_at: now, data_uri });
        self.events.push(
            RegistryEvent::StatusChanged {
                expert,
                old_status: current,
                new_status: ExpertStatus::Verified,
                admin,
            },
        );
        Ok(())
    }

    /// The profile reference stored for `expert`, or an empty one.
    fn stored_uri(&self, expert: Address) -> (r: Vec<u8>)
        requires
            self.wf(),
        ensures
            r@ == uri_of(self@.experts, expert),
    {
        match self.find(expert) {
            Some(i) => {
                proof {
                    lemma_index_of_unique(self.experts@, i as int);
                }
                copy_bytes(&self.records[i].data_uri)
            },
            None => Vec::new(),
        }
    }

    /// Bans `expert`, keeping its profile reference, on behalf of the
    /// administrator `caller`. Fails with `NotInitialized`, `AdminOnly` or
    /// `AlreadyBanned`, in that order, changing nothing.
    pub fn ban_expert(&mut self, caller: Address, expert: Address, now: u64) -> (r: Result<
        (),
        RegistryError,
    >)
        requires
            old(self).wf(),
        ensures
            final(self).wf(),
            old(self)@.admin is None ==> r == Err::<(), RegistryError>(
                RegistryError::NotInitialized,
            ),
            old(self)@.admin matches Some(a) ==> {
                let st = status_of(old(self)@.experts, expert);
                if a != caller {
                    r == Err::<(), RegistryError>(RegistryError::AdminOnly)
                } else if st == ExpertStatus::Banned {
                    r == Err::<(), RegistryError>(RegistryError::AlreadyBanned)
                } else {
                    &&& r is Ok
                    &&& final(self)@.experts == old(self)@.experts.insert(
                        expert,
                        restamp(old(self)@.experts, expert, ExpertStatus::Banned, now),
                    )
                    &&& final(self)@.events == old(self)@.events.push(
                        RegistryEvent::StatusChanged {
                            expert,
                            old_status: st,
                            new_status: ExpertStatus::Banned,
                            admin: a,
                        },
                    )
                }
            },
            r is Err ==> final(self)@ == old(self)@,
            final(self)@.admin == old(self)@.admin,
    {
        let admin = match self.authorize(caller) {
            Ok(a) => a,
            Err(e) => return Err(e),
        };
        let current = self.get_status(expert);
        if current == ExpertStatus::Banned {
            return Err(RegistryError::AlreadyBanned);
        }
        let data_uri = self.stored_uri(expert);
        self.put(expert, ExpertRecord { status: ExpertStatus::Banned, updated_at: now, data_uri });
        self.events.push(
            RegistryEvent::StatusChanged {
                expert,
                old_status: current,
                new_status: ExpertStatus::Banned,
                admin,
            },
        );
        Ok(())
    }

    /// Replaces the profile reference of `expert`, the authenticated caller,
    /// who must be `Verified`. Fails with `UriTooLong` or `NotVerified`, in
    /// that order, changing nothing.
    pub fn update_profile(&mut self, expert: Address, new_uri: Vec<u8>, now: u64) -> (r: Result<
        (),
        RegistryError,
    >)
        requires
            old(self).wf(),
        ensures
            final(self).wf(),
            new_uri@.len() > MAX_URI_LEN ==> r == Err::<(), RegistryError>(
                RegistryError::UriTooLong,
            ),
            new_uri@.len() <= MAX_URI_LEN && status_of(old(self)@.experts, expert)
                != ExpertStatus::Verified ==> r == Err::<(), RegistryError>(
                RegistryError::NotVerified,
            ),
            new_uri@.len() <= MAX_URI_LEN && status_of(old(self)@.experts, expert)
                == ExpertStatus::Verified ==> {
                &&& r is Ok
                &&& final(self)@.experts == old(self)@.experts.insert(
                    expert,
                    ExpertProfile {
                        status: ExpertStatus::Verified,
                        updated_at: now,
                        data_uri: new_uri@,
                    },
                )
                &&& final(self)@.events.len() == old(self)@.events.len() + 1
                &&& final(self)@.events.last() matches RegistryEvent::ProfileUpdated {
                    expert: e,
                    new_uri: u,
                } && e == expert && u@ == new_uri@
            },
            r is Err ==> final(self)@ == old(self)@,
            final(self)@.admin == old(self)@.admin,
    {
        if new_uri.len() > MAX_URI_LEN {
            return Err(RegistryError::UriTooLong);
        }
        let status = self.get_status(expert);
        if status != ExpertStatus::Verified {
            return Err(RegistryError::NotVerified);
        }
        let event_uri = copy_bytes(&new_uri);
        self.put(expert, ExpertRecord { status, updated_at: now, data_uri: new_uri });
        self.events.push(RegistryEvent::ProfileUpdated { expert, new_uri: event_uri });
        Ok(())
    }
    /// Whether a batch may move every expert in `experts` to `target`.
    fn check_batch(&self, experts: &Vec<Address>, target: ExpertStatus) -> (r: bool)
        requires
            self.wf(),
        ensures
            r == batch_ok(self@.experts, experts@, target),
    {
        let mut i: usize = 0;
        while i < experts.len()
            invariant
                self.wf(),
                i <= experts@.len(),
                forall|k: int| 0 <= k < i ==> status_of(self@.experts, #[trigger] experts@[k]) != target,
                forall|x: int, y: int|
                    0 <= x < i && 0 <= y < i && x != y ==> experts@[x] != experts@[y],
            decreases experts.len() - i,
        {
            if self.get_status(experts[i]) == target {
                return false;
            }
            let mut j: usize = 0;
            while j < i
                invariant
                    j <= i < experts@.len(),
                    forall|y: int| 0 <= y < j ==> experts@[y] != experts@[i as int],
                decreases i - j,
            {
                if experts[j] == experts[i] {
                    assert(!experts@.no_duplicates()) by {
                        assert(experts@[j as int] == experts@[i as int]);
                    }
                    return false;
                }
                j = j + 1;
            }
            i = i + 1;
        }
        true
    }

    /// Moves every expert in `experts` to `target`, one event each.
    fn apply_batch(&mut self, admin: Address, experts: &Vec<Address>, target: ExpertStatus, now: u64)
        requires
            old(self).wf(),
            batch_ok(old(self)@.experts, experts@, target),
        ensures
            final(self).wf(),
            final(self)@.admin == old(self)@.admin,
            final(self)@.experts == batch_result(old(self)@.experts, experts@, target, now),
            final(self)@.events == old(self)@.events + batch_events(
                old(self)@.experts,
                experts@,
                target,
                admin,
            ),
    {
        let ghost m0 = self@.experts;
        let ghost e0 = self@.events;
        let ghost a0 = self@.admin;
        assert(batch_result(m0, experts@.take(0), target, now) =~= m0);
        assert(e0 + batch_events(m0, experts@.take(0), target, admin) =~= e0);
        let mut i: usize = 0;
        while i < experts.len()
            invariant
                self.wf(),
                i <= experts@.len(),
                self@.admin == a0,
                batch_ok(m0, experts@, target),
                self@.experts == batch_result(m0, experts@.take(i as int), target, now),
                self@.events == e0 + batch_events(m0, experts@.take(i as int), target, admin),
            decreases experts.len() - i,
        {
            let e = experts[i];
            let ghost before = experts@.take(i as int);
            let ghost after = experts@.take(i + 1);
            assert(after =~= before.push(e));
            assert(!before.contains(e)) by {
                if before.contains(e) {
                    let k = choose|k: int| 0 <= k < before.len() && before[k] == e;
                    assert(experts@[k] == experts@[i as int]);
                }
            }
            let current = self.get_status(e);
            let data_uri = if target == ExpertStatus::Banned {
                self.stored_uri(e)
            } else {
                Vec::new()
            };
            self.put(e, ExpertRecord { status: target, updated_at: now, data_uri });
            self.events.push(
                RegistryEvent::StatusChanged { expert: e, old_status: current, new_status: target, admin },
            );
            proof {
                assert(status_of(m0, e) != target);
                assert forall|a: Address| after.contains(a) <==> (before.contains(a) || a == e) by {
                    if after.contains(a) && a != e {
                        let k = choose|k: int| 0 <= k < after.len() && after[k] == a;
                        assert(before[k] == a);
                    }
                    if before.contains(a) {
                        let k = choose|k: int| 0 <= k < before.len() && before[k] == a;
                        assert(after[k] == a);
                    }
                    if a == e {
                        assert(after[i as int] == a);
                    }
                }
                assert(self@.experts =~= batch_result(m0, after, target, now));
                assert(self@.events =~= e0 + batch_events(m0, after, target, admin));
            }
            i = i + 1;
        }
        assert(experts@.take(i as int) =~= experts@);
    }

    /// Verifies every expert in `experts`, clearing their profile references,
    /// on behalf of the administrator `caller`. The batch is all or nothing:
    /// it fails with `ExpertVecMax` when it names more than `MAX_BATCH`
    /// experts, then `NotInitialized`, `AdminOnly`, and `AlreadyVerified` when
    /// an expert is already verified or named twice.
    pub fn batch_add_experts(&mut self, caller: Address, experts: Vec<Address>, now: u64) -> (r:
        Result<(), RegistryError>)
        requires
            old(self).wf(),
        ensures
            final(self).wf(),
            experts@.len() > MAX_BATCH ==> r == Err::<(), RegistryError>(
                RegistryError::ExpertVecMax,
            ),
            experts@.len() <= MAX_BATCH && old(self)@.admin is None ==> r == Err::<
                (),
                RegistryError,
            >(RegistryError::NotInitialized),
            experts@.len() <= MAX_BATCH ==> (old(self)@.admin matches Some(a) ==> {
                if a != caller {
                    r == Err::<(), RegistryError>(RegistryError::AdminOnly)
                } else if !batch_ok(old(self)@.experts, experts@, ExpertStatus::Verified) {
                    r == Err::<(), RegistryError>(RegistryError::AlreadyVerified)
                } else {
                    &&& r is Ok
                    &&& final(self)@.experts == batch_result(
                        old(self)@.experts,
                        experts@,
                        ExpertStatus::Verified,
                        now,
                    )
                    &&& final(self)@.events == old(self)@.events + batch_events(
                        old(self)@.experts,
                        experts@,
                        ExpertStatus::Verified,
                        a,
                    )
                }
            }),
            r is Err ==> final(self)@ == old(self)@,
            final(self)@.admin == old(self)@.admin,
    {
        if experts.len() > MAX_BATCH {
            return Err(RegistryError::ExpertVecMax);
        }
        let admin = match self.authorize(caller) {
            Ok(a) => a,
            Err(e) => return Err(e),
        };
        if !self.check_batch(&experts, ExpertStatus::Verified) {
            return Err(RegistryError::AlreadyVerified);
        }
        self.apply_batch(admin, &experts, ExpertStatus::Verified, now);
        Ok(())
    }

    /// Bans every expert in `experts`, keeping their profile references, on
    /// behalf of the administrator `caller`. The batch is all or nothing: it
    /// fails with `ExpertVecMax` when it names more than `MAX_BATCH` experts,
    /// then `NotInitialized`, `AdminOnly`, and `AlreadyBanned` when an expert
    /// is already banned or named twice.
    pub fn batch_ban_experts(&mut self, caller: Address, experts: Vec<Address>, now: u64) -> (r:
        Result<(), RegistryError>)
        requires
            old(self).wf(),
        ensures
            final(self).wf(),
            experts@.len() > MAX_BATCH ==> r == Err::<(), RegistryError>(
                RegistryError::ExpertVecMax,
            ),
            experts@.len() <= MAX_BATCH && old(self)@.admin is None ==> r == Err::<
                (),
                RegistryError,
            >(RegistryError::NotInitialized),
            experts@.len() <= MAX_BATCH ==> (old(self)@.admin matches Some(a) ==> {
                if a != caller {
                    r == Err::<(), RegistryError>(RegistryError::AdminOnly)
                } else if !batch_ok(old(self)@.experts, experts@, ExpertStatus::Banned) {
                    r == Err::<(), RegistryError>(RegistryError::AlreadyBanned)
                } else {
                    &&& r is Ok
                    &&& final(self)@.experts == batch_result(
                        old(self)@.experts,
                        experts@,
                        ExpertStatus::Banned,
                        now,
                    )
                    &&& final(self)@.events == old(self)@.events + batch_events(
                        old(self)@.experts,
                        experts@,
                        ExpertStatus::Banned,
                        a,
                    )
                }
            }),
            r is Err ==> final(self)@ == old(self)@,
            final(self)@.admin == old(self)@.admin,
    {
        if experts.len() > MAX_BATCH {
            return Err(RegistryError::ExpertVecMax);
        }
        let admin = match self.authorize(caller) {
            Ok(a) => a,
            Err(e) => return Err(e),
        };
        if !self.check_batch(&experts, ExpertStatus::Banned) {
            return Err(RegistryError::AlreadyBanned);
        }
        self.apply_batch(admin, &experts, ExpertStatus::Banned, now);
        Ok(())
    }
}

} // verus!
