//! The timelock proposal state machine.
//!
//! One `TimelockModule` instance serves one subDAO: it records every approved
//! proposal the subDAO submits, holds it while the parent organization's veto
//! window is open, and transitions it to Executed, Overruled or
//! ExecutionFailed. The module's proposal table is exclusively owned by the
//! instance; callers interact only through the operations here.

use crate::types::{
    Config, ConfigView, ContractError, Duration, ProposalMessage, ProposalStatus, ProposalView,
    SingleChoiceProposal,
};
use vstd::prelude::*;

verus! {

/// Default number of proposals returned by a listing when the caller gives no
/// limit.
pub const DEFAULT_LIMIT: u64 = 30;

/// Largest page a listing ever returns; a caller-supplied limit is clamped
/// to it.
pub const MAX_LIMIT: u64 = 100;

/// Mathematical value of a [`TimelockModule`]: its configuration and its
/// proposal table, ascending by id.
pub struct TimelockView {
    pub config: ConfigView,
    pub proposals: Seq<ProposalView>,
}

/// The proposal views of a stored proposal table.
pub open spec fn views_of(props: Seq<SingleChoiceProposal>) -> Seq<ProposalView> {
    props.map_values(|p: SingleChoiceProposal| p@)
}

/// The message views of a stored message list.
pub open spec fn msg_views(msgs: Seq<ProposalMessage>) -> Seq<Seq<u8>> {
    msgs.map_values(|m: ProposalMessage| m@)
}

/// The table holds strictly ascending ids; in particular every id occurs at
/// most once.
pub open spec fn sorted_by_id(props: Seq<ProposalView>) -> bool {
    forall|i: int, j: int| 0 <= i < j < props.len() ==> props[i].id < props[j].id
}

pub open spec fn contains_id(props: Seq<ProposalView>, id: u64) -> bool {
    exists|i: int| 0 <= i < props.len() && props[i].id == id
}

pub open spec fn index_of_id(props: Seq<ProposalView>, id: u64) -> int {
    choose|i: int| 0 <= i < props.len() && props[i].id == id
}

/// The record stored under `id`, if any.
pub open spec fn lookup(props: Seq<ProposalView>, id: u64) -> Option<ProposalView> {
    if contains_id(props, id) {
        Some(props[index_of_id(props, id)])
    } else {
        None
    }
}

/// `post` is `pre` with the record for `p.id` created or overwritten by `p`,
/// and no other record touched.
pub open spec fn record_updated(
    pre: Seq<ProposalView>,
    post: Seq<ProposalView>,
    p: ProposalView,
) -> bool {
    &&& sorted_by_id(post)
    &&& lookup(post, p.id) == Some(p)
    &&& forall|x: u64| x != p.id ==> lookup(post, x) == lookup(pre, x)
}

/// Outcome of an overrule command: the owner may cancel a proposal exactly
/// while it is timelocked.
pub open spec fn overrule_verdict(s: TimelockView, sender: Seq<char>, id: u64) -> Result<
    (),
    ContractError,
> {
    if s.config.owner != sender {
        Err(ContractError::Unauthorized {})
    } else {
        match lookup(s.proposals, id) {
            Option::None => Err(ContractError::NoSuchProposal { id }),
            Option::Some(p) => if p.status != ProposalStatus::Timelocked {
                Err(ContractError::WrongStatus { status: p.status })
            } else {
                Ok(())
            },
        }
    }
}

/// Outcome of an execute command: anyone may execute a timelocked proposal
/// once the wall-clock lock interval has elapsed; a height-based voting
/// period cannot be compared with the lock timestamp and is rejected.
pub open spec fn execute_verdict(
    s: TimelockView,
    id: u64,
    now: u64,
    max_voting_period: Duration,
) -> Result<(), ContractError> {
    match lookup(s.proposals, id) {
        Option::None => Err(ContractError::NoSuchProposal { id }),
        Option::Some(p) => if p.status != ProposalStatus::Timelocked {
            Err(ContractError::WrongStatus { status: p.status })
        } else {
            match max_voting_period {
                Duration::Height(_) => Err(ContractError::CantCreateOverrule {}),
                Duration::Time(d) => if (now as int) < p.timelock_ts + d {
                    Err(ContractError::TimeLocked {})
                } else {
                    Ok(())
                },
            }
        },
    }
}

/// Whether a listing that starts after `start_after` includes `p`.
pub open spec fn included(p: ProposalView, start_after: Option<u64>) -> bool {
    match start_after {
        Option::None => true,
        Option::Some(s) => p.id > s,
    }
}

/// The first `limit` records of `props` that come after the exclusive bound
/// `start_after`, in table order.
pub open spec fn page_of(props: Seq<ProposalView>, start_after: Option<u64>, limit: int) -> Seq<
    ProposalView,
>
    decreases props.len(),
{
    if props.len() == 0 || limit <= 0 {
        Seq::empty()
    } else if included(props[0], start_after) {
        seq![props[0]] + page_of(props.drop_first(), start_after, limit - 1)
    } else {
        page_of(props.drop_first(), start_after, limit)
    }
}

/// The page size a listing uses: the caller's limit clamped to
/// [`MAX_LIMIT`], or [`DEFAULT_LIMIT`] when no limit is given. A caller can
/// never request an unbounded result set.
pub open spec fn effective_limit(limit: Option<u64>) -> u64 {
    match limit {
        Option::None => DEFAULT_LIMIT,
        Option::Some(l) => if l > MAX_LIMIT {
            MAX_LIMIT
        } else {
            l
        },
    }
}

/// The fire-and-forget request a successful timelock emits toward the
/// overrule admission endpoint, asking it to create the veto proposal for
/// this timelock and proposal id.
#[derive(Debug, PartialEq, Eq)]
pub struct OverruleRequest {
    /// The overrule admission endpoint to address.
    pub target: String,
    /// This timelock module's own identity.
    pub timelock_contract: String,
    /// The subDAO proposal id the veto proposal is about.
    pub proposal_id: u64,
}

/// A per-subDAO timelock: configuration plus the table of timelocked
/// proposals, kept ascending by id.
#[derive(Debug, PartialEq, Eq)]
pub struct TimelockModule {
    pub config: Config,
    pub proposals: Vec<SingleChoiceProposal>,
}

impl View for TimelockModule {
    type V = TimelockView;

    open spec fn view(&self) -> TimelockView {
        TimelockView { config: self.config@, proposals: views_of(self.proposals@) }
    }
}

proof fn lemma_ids_unique(props: Seq<ProposalView>, i: int, j: int)
    requires
        sorted_by_id(props),
        0 <= i < props.len(),
        0 <= j < props.len(),
        i != j,
    ensures
        props[i].id != props[j].id,
{
}

proof fn lemma_lookup_at(props: Seq<ProposalView>, i: int)
    requires
        sorted_by_id(props),
        0 <= i < props.len(),
    ensures
        lookup(props, props[i].id) == Some(props[i]),
{
    let id = props[i].id;
    assert(contains_id(props, id));
    let k = index_of_id(props, id);
    assert(0 <= k < props.len() && props[k].id == id);
    if k != i {
        lemma_ids_unique(props, i, k);
    }
}

proof fn lemma_lookup_none(props: Seq<ProposalView>, id: u64)
    requires
        forall|i: int| 0 <= i < props.len() ==> props[i].id != id,
    ensures
        lookup(props, id) is None,
{
}

/// Overwriting the record at `i` with one of the same id updates exactly that
/// record.
proof fn lemma_lookup_update(props: Seq<ProposalView>, i: int, p: ProposalView)
    requires
        sorted_by_id(props),
        0 <= i < props.len(),
        p.id == props[i].id,
    ensures
        record_updated(props, props.update(i, p), p),
{
    let n = props.update(i, p);
    assert(forall|k: int| 0 <= k < n.len() ==> n[k].id == props[k].id);
    assert(sorted_by_id(n));
    lemma_lookup_at(n, i);
    assert forall|x: u64| x != p.id implies lookup(n, x) == lookup(props, x) by {
        if contains_id(props, x) {
            let k = index_of_id(props, x);
            assert(0 <= k < props.len() && props[k].id == x);
            assert(k != i);
            lemma_lookup_at(props, k);
            lemma_lookup_at(n, k);
        } else {
            assert(forall|k: int| 0 <= k < props.len() ==> props[k].id != x);
            lemma_lookup_none(props, x);
            lemma_lookup_none(n, x);
        }
    }
}

/// Inserting a record at its sorted position creates exactly that record.
proof fn lemma_lookup_insert(props: Seq<ProposalView>, i: int, p: ProposalView)
    requires
        sorted_by_id(props),
        0 <= i <= props.len(),
        forall|k: int| 0 <= k < i ==> props[k].id < p.id,
        forall|k: int| i <= k < props.len() ==> props[k].id > p.id,
    ensures
        record_updated(props, props.insert(i, p), p),
{
    let n = props.insert(i, p);
    props.insert_ensures(i, p);
    assert forall|a: int, b: int| 0 <= a < b < n.len() implies n[a].id < n[b].id by {
        if a < i {
            assert(n[a] == props[a]);
        }
        if b < i {
            assert(n[b] == props[b]);
        }
        if a > i {
            assert(n[a] == props[a - 1]);
        }
        if b > i {
            assert(n[b] == props[b - 1]);
        }
    }
    lemma_lookup_at(n, i);
    assert forall|x: u64| x != p.id implies lookup(n, x) == lookup(props, x) by {
        if contains_id(props, x) {
            let k = index_of_id(props, x);
            assert(0 <= k < props.len() && props[k].id == x);
            lemma_lookup_at(props, k);
            if k < i {
                assert(n[k] == props[k]);
                lemma_lookup_at(n, k);
            } else {
                assert(n[k + 1] == props[k]);
                lemma_lookup_at(n, k + 1);
            }
        } else {
            assert(forall|k: int| 0 <= k < props.len() ==> props[k].id != x);
            assert forall|k: int| 0 <= k < n.len() implies n[k].id != x by {
                if k < i {
                    assert(n[k] == props[k]);
                } else if k == i {
                    assert(n[k] == p);
                } else {
                    assert(n[k] == props[k - 1]);
                }
            }
            lemma_lookup_none(props, x);
            lemma_lookup_none(n, x);
        }
    }
}

/// First position whose id is at least `id`; `props.len()` if every id is
/// smaller.
fn find_pos(props: &Vec<SingleChoiceProposal>, id: u64) -> (r: usize)
    ensures
        r <= props@.len(),
        forall|k: int| 0 <= k < r ==> views_of(props@)[k].id < id,
        r < props@.len() ==> views_of(props@)[r as int].id >= id,
{
    let mut i: usize = 0;
    while i < props.len() && props[i].id < id
        invariant
            i <= props@.len(),
            forall|k: int| 0 <= k < i ==> views_of(props@)[k].id < id,
        decreases props@.len() - i,
    {
        proof {
            assert(views_of(props@)[i as int].id == props@[i as int].id);
        }
        i += 1;
    }
    i
}

impl TimelockModule {
    /// The module's internal invariant: the proposal table is strictly
    /// ascending by id.
    pub open spec fn wf(&self) -> bool {
        sorted_by_id(self@.proposals)
    }

    /// Creates a timelock deployment for one subDAO. `owner` is the parent
    /// organization, `overrule_pre_propose` the admission endpoint asked to
    /// create veto proposals, `subdao` the subDAO served.
    pub fn instantiate(owner: String, overrule_pre_propose: String, subdao: String) -> (s: Self)
        ensures
            s.wf(),
            s@.config == (ConfigView { owner: owner@, overrule_pre_propose: overrule_pre_propose@, subdao: subdao@ }),
            s@.proposals == Seq::<ProposalView>::empty(),
    {
        let s = TimelockModule {
            config: Config { owner, overrule_pre_propose, subdao },
            proposals: Vec::new(),
        };
        proof {
            assert(s@.proposals =~= Seq::<ProposalView>::empty());
        }
        s
    }

    /// Records an approved subDAO proposal as Timelocked, timestamped `now`,
    /// and emits the request that asks the overrule admission endpoint to
    /// create the matching veto proposal. Only the configured subDAO may
    /// submit. The request is fire-and-forget: a failure to create the veto
    /// proposal must never block later execution, so it is not reflected
    /// here. A resubmitted id overwrites the existing record.
    pub fn execute_timelock_proposal(
        &mut self,
        sender: &String,
        proposal_id: u64,
        msgs: Vec<ProposalMessage>,
        now: u64,
        self_address: &String,
    ) -> (r: Result<OverruleRequest, ContractError>)
        requires
            old(self).wf(),
        ensures
            final(self).wf(),
            sender@ != old(self)@.config.subdao ==> r == Err::<OverruleRequest, ContractError>(
                ContractError::Unauthorized {},
            ) && final(self)@ == old(self)@,
            sender@ == old(self)@.config.subdao ==> {
                &&& r matches Ok(req)
                &&& req.target@ == old(self)@.config.overrule_pre_propose
                &&& req.timelock_contract@ == self_address@
                &&& req.proposal_id == proposal_id
                &&& final(self)@.config == old(self)@.config
                &&& record_updated(
                    old(self)@.proposals,
                    final(self)@.proposals,
                    ProposalView {
                        id: proposal_id,
                        msgs: msg_views(msgs@),
                        timelock_ts: now,
                        status: ProposalStatus::Timelocked,
                    },
                )
            },
    {
        if !(self.config.subdao == *sender) {
            return Err(ContractError::Unauthorized {});
        }
        let proposal = SingleChoiceProposal {
            id: proposal_id,
            msgs,
            timelock_ts: now,
            status: ProposalStatus::Timelocked,
        };
        let ghost pv = proposal@;
        let pos = find_pos(&self.proposals, proposal_id);
        let ghost pre = self@.proposals;
        if pos < self.proposals.len() && self.proposals[pos].id == proposal_id {
            let _ = self.proposals.remove(pos);
            self.proposals.insert(pos, proposal);
            proof {
                assert(views_of(self.proposals@) =~= pre.update(pos as int, pv));
                lemma_lookup_update(pre, pos as int, pv);
            }
        } else {
            self.proposals.insert(pos, proposal);
            proof {
                assert(views_of(self.proposals@) =~= pre.insert(pos as int, pv));
                assert forall|k: int| pos <= k < pre.len() implies pre[k].id > proposal_id by {
                    if k > pos {
                        assert(pre[pos as int].id < pre[k].id);
                    }
                }
                lemma_lookup_insert(pre, pos as int, pv);
            }
        }
        Ok(
            OverruleRequest {
                target: self.config.overrule_pre_propose.clone(),
                timelock_contract: self_address.clone(),
                proposal_id,
            },
        )
    }

    /// Executes a timelocked proposal once its lock interval has elapsed,
    /// marking it Executed and returning the payload messages to dispatch
    /// (each to be applied with a failure callback keyed by this proposal
    /// id). `max_voting_period` is the parent proposal engine's configured
    /// voting duration, which defines the lock interval; callers obtain it
    /// from that engine's configuration query.
    pub fn execute_execute_proposal(
        &mut self,
        proposal_id: u64,
        now: u64,
        max_voting_period: Duration,
    ) -> (r: Result<Vec<ProposalMessage>, ContractError>)
        requires
            old(self).wf(),
        ensures
            final(self).wf(),
            r is Ok <==> execute_verdict(old(self)@, proposal_id, now, max_voting_period) is Ok,
            r matches Err(e) ==> execute_verdict(old(self)@, proposal_id, now, max_voting_period)
                == Err::<(), ContractError>(e) && final(self)@ == old(self)@,
            r matches Ok(out) ==> {
                &&& lookup(old(self)@.proposals, proposal_id) matches Some(p)
                &&& msg_views(out@) == p.msgs
                &&& final(self)@.config == old(self)@.config
                &&& record_updated(
                    old(self)@.proposals,
                    final(self)@.proposals,
                    ProposalView { status: ProposalStatus::Executed, ..p },
                )
            },
    {
        let pos = find_pos(&self.proposals, proposal_id);
        let ghost pre = self@.proposals;
        if pos >= self.proposals.len() || self.proposals[pos].id != proposal_id {
            proof {
                assert forall|k: int| 0 <= k < pre.len() implies pre[k].id != proposal_id by {
                    if k >= pos {
                        assert(pre[pos as int].id <= pre[k].id);
                    }
                }
                lemma_lookup_none(pre, proposal_id);
            }
            return Err(ContractError::NoSuchProposal { id: proposal_id });
        }
        proof {
            lemma_lookup_at(pre, pos as int);
        }
        if !(self.proposals[pos].status == ProposalStatus::Timelocked) {
            return Err(ContractError::WrongStatus { status: self.proposals[pos].status });
        }
        let duration: u64 = match max_voting_period {
            Duration::Height(_) => {
                return Err(ContractError::CantCreateOverrule {});
            },
            Duration::Time(d) => d,
        };
        if (now as u128) < (self.proposals[pos].timelock_ts as u128) + (duration as u128) {
            return Err(ContractError::TimeLocked {});
        }
        let mut p = self.proposals.remove(pos);
        let out = p.duplicate();
        p.status = ProposalStatus::Executed;
        let ghost pv = p@;
        self.proposals.insert(pos, p);
        proof {
            assert(views_of(self.proposals@) =~= pre.update(pos as int, pv));
            lemma_lookup_update(pre, pos as int, pv);
        }
        Ok(out.msgs)
    }

    /// Cancels a timelocked proposal on the owner's (the parent
    /// organization's) command, marking it Overruled. No payload message of
    /// an overruled proposal is ever dispatched; this is the enforcement
    /// point of the whole mechanism.
    pub fn execute_overrule_proposal(&mut self, sender: &String, proposal_id: u64) -> (r: Result<
        (),
        ContractError,
    >)
        requires
            old(self).wf(),
        ensures
            final(self).wf(),
            r == overrule_verdict(old(self)@, sender@, proposal_id),
            r is Err ==> final(self)@ == old(self)@,
            r is Ok ==> {
                &&& lookup(old(self)@.proposals, proposal_id) matches Some(p)
                &&& final(self)@.config == old(self)@.config
                &&& record_updated(
                    old(self)@.proposals,
                    final(self)@.proposals,
                    ProposalView { status: ProposalStatus::Overruled, ..p },
                )
            },
    {
        if !(self.config.owner == *sender) {
            return Err(ContractError::Unauthorized {});
        }
        let pos = find_pos(&self.proposals, proposal_id);
        let ghost pre = self@.proposals;
        if pos >= self.proposals.len() || self.proposals[pos].id != proposal_id {
            proof {
                assert forall|k: int| 0 <= k < pre.len() implies pre[k].id != proposal_id by {
                    if k >= pos {
                        assert(pre[pos as int].id <= pre[k].id);
                    }
                }
                lemma_lookup_none(pre, proposal_id);
            }
            return Err(ContractError::NoSuchProposal { id: proposal_id });
        }
        proof {
            lemma_lookup_at(pre, pos as int);
        }
        if !(self.proposals[pos].status == ProposalStatus::Timelocked) {
            return Err(ContractError::WrongStatus { status: self.proposals[pos].status });
        }
        let mut p = self.proposals.remove(pos);
        p.status = ProposalStatus::Overruled;
        let ghost pv = p@;
        self.proposals.insert(pos, p);
        proof {
            assert(views_of(self.proposals@) =~= pre.update(pos as int, pv));
            lemma_lookup_update(pre, pos as int, pv);
        }
        Ok(())
    }

    /// Failure callback from the execution substrate: a dispatched payload
    /// message of `proposal_id` failed to apply. The record is downgraded to
    /// ExecutionFailed whatever its current status (last write wins: message
    /// execution and status commit are not atomic across the substrate's
    /// command boundary).
    pub fn reply(&mut self, proposal_id: u64) -> (r: Result<(), ContractError>)
        requires
            old(self).wf(),
        ensures
            final(self).wf(),
            lookup(old(self)@.proposals, proposal_id) is None ==> r == Err::<(), ContractError>(
                ContractError::NoSuchProposal { id: proposal_id },
            ) && final(self)@ == old(self)@,
            lookup(old(self)@.proposals, proposal_id) matches Some(p) ==> {
                &&& r is Ok
                &&& final(self)@.config == old(self)@.config
                &&& record_updated(
                    old(self)@.proposals,
                    final(self)@.proposals,
                    ProposalView { status: ProposalStatus::ExecutionFailed, ..p },
                )
            },
    {
        let pos = find_pos(&self.proposals, proposal_id);
        let ghost pre = self@.proposals;
        if pos >= self.proposals.len() || self.proposals[pos].id != proposal_id {
            proof {
                assert forall|k: int| 0 <= k < pre.len() implies pre[k].id != proposal_id by {
                    if k >= pos {
                        assert(pre[pos as int].id <= pre[k].id);
                    }
                }
                lemma_lookup_none(pre, proposal_id);
            }
            return Err(ContractError::NoSuchProposal { id: proposal_id });
        }
        proof {
            lemma_lookup_at(pre, pos as int);
        }
        let mut p = self.proposals.remove(pos);
        p.status = ProposalStatus::ExecutionFailed;
        let ghost pv = p@;
        self.proposals.insert(pos, p);
        proof {
            assert(views_of(self.proposals@) =~= pre.update(pos as int, pv));
            lemma_lookup_update(pre, pos as int, pv);
        }
        Ok(())
    }

    /// Partially reconfigures the module on the owner's command. The served
    /// subDAO is never reassigned (a deliberate policy choice: a deployed
    /// timelock stays bound to its subDAO).
    pub fn execute_update_config(
        &mut self,
        sender: &String,
        new_owner: Option<String>,
        new_overrule_pre_propose: Option<String>,
    ) -> (r: Result<(), ContractError>)
        requires
            old(self).wf(),
        ensures
            final(self).wf(),
            sender@ != old(self)@.config.owner ==> r == Err::<(), ContractError>(
                ContractError::Unauthorized {},
            ) && final(self)@ == old(self)@,
            sender@ == old(self)@.config.owner ==> {
                &&& r is Ok
                &&& final(self)@.proposals == old(self)@.proposals
                &&& final(self)@.config.owner == (match new_owner {
                    Some(o) => o@,
                    None => old(self)@.config.owner,
                })
                &&& final(self)@.config.overrule_pre_propose == (match new_overrule_pre_propose {
                    Some(t) => t@,
                    None => old(self)@.config.overrule_pre_propose,
                })
                &&& final(self)@.config.subdao == old(self)@.config.subdao
            },
    {
        if !(self.config.owner == *sender) {
            return Err(ContractError::Unauthorized {});
        }
        if let Some(owner) = new_owner {
            self.config.owner = owner;
        }
        if let Some(target) = new_overrule_pre_propose {
            self.config.overrule_pre_propose = target;
        }
        Ok(())
    }

    /// The current configuration.
    pub fn query_config(&self) -> (r: Config)
        ensures
            r == self.config,
    {
        self.config.duplicate()
    }

    /// The record stored under `proposal_id`.
    pub fn query_proposal(&self, proposal_id: u64) -> (r: Result<SingleChoiceProposal, ContractError>)
        requires
            self.wf(),
        ensures
            lookup(self@.proposals, proposal_id) matches Some(p) ==> r matches Ok(q) && q@ == p,
            lookup(self@.proposals, proposal_id) is None ==> r == Err::<
                SingleChoiceProposal,
                ContractError,
            >(ContractError::NoSuchProposal { id: proposal_id }),
    {
        let pos = find_pos(&self.proposals, proposal_id);
        let ghost pre = self@.proposals;
        if pos >= self.proposals.len() || self.proposals[pos].id != proposal_id {
            proof {
                assert forall|k: int| 0 <= k < pre.len() implies pre[k].id != proposal_id by {
                    if k >= pos {
                        assert(pre[pos as int].id <= pre[k].id);
                    }
                }
                lemma_lookup_none(pre, proposal_id);
            }
            return Err(ContractError::NoSuchProposal { id: proposal_id });
        }
        proof {
            lemma_lookup_at(pre, pos as int);
        }
        Ok(self.proposals[pos].duplicate())
    }

    /// Lists stored proposals ascending by id, starting after the exclusive
    /// bound `start_after`, at most `limit` of them — clamped to
    /// [`MAX_LIMIT`], with [`DEFAULT_LIMIT`] when no limit is given: a
    /// caller can never request an unbounded result set.
    pub fn query_list_proposals(&self, start_after: Option<u64>, limit: Option<u64>) -> (r:
        ProposalListResponse)
        requires
            self.wf(),
        ensures
            views_of(r.proposals@) == page_of(
                self@.proposals,
                start_after,
                effective_limit(limit) as int,
            ),
    {
        let lim: u64 = match limit {
            Some(l) => if l > MAX_LIMIT {
                MAX_LIMIT
            } else {
                l
            },
            None => DEFAULT_LIMIT,
        };
        let ghost all = self@.proposals;
        let mut out: Vec<SingleChoiceProposal> = Vec::new();
        let mut i: usize = 0;
        proof {
            assert(all.skip(0) =~= all);
            assert(views_of(out@) =~= Seq::<ProposalView>::empty());
        }
        while i < self.proposals.len() && (out.len() as u64) < lim
            invariant
                i <= self.proposals@.len(),
                out@.len() <= lim,
                all == self@.proposals,
                views_of(out@) + page_of(all.skip(i as int), start_after, lim - out@.len())
                    =~= page_of(all, start_after, lim as int),
            decreases self.proposals@.len() - i,
        {
            let ghost out0 = out@;
            let ghost i0 = i as int;
            let p = &self.proposals[i];
            let keep: bool = match start_after {
                Some(s) => p.id > s,
                None => true,
            };
            if keep {
                out.push(p.duplicate());
            }
            i += 1;
            proof {
                let rest = all.skip(i0);
                assert(rest[0] == all[i0]);
                assert(rest.drop_first() =~= all.skip(i0 + 1));
                assert(included(all[i0], start_after) == keep);
                if keep {
                    assert(views_of(out@) =~= views_of(out0) + seq![all[i0]]);
                    assert(views_of(out0) + page_of(rest, start_after, lim - out0.len())
                        =~= (views_of(out0) + seq![all[i0]]) + page_of(
                        all.skip(i0 + 1),
                        start_after,
                        lim - out@.len(),
                    ));
                }
            }
        }
        proof {
            if i == self.proposals@.len() {
                assert(all.skip(i as int) =~= Seq::<ProposalView>::empty());
            }
            assert(page_of(all.skip(i as int), start_after, lim - out@.len())
                =~= Seq::<ProposalView>::empty());
            assert(views_of(out@) =~= page_of(all, start_after, lim as int));
        }
        ProposalListResponse { proposals: out }
    }

    /// Answers one query message against the current state.
    pub fn query(&self, msg: QueryMsg) -> (r: Result<QueryResponse, ContractError>)
        requires
            self.wf(),
        ensures
            msg matches QueryMsg::Config {} ==> (r matches Ok(QueryResponse::Config(c)) && c
                == self.config),
            msg matches QueryMsg::Proposal { proposal_id } ==> match lookup(
                self@.proposals,
                proposal_id,
            ) {
                Option::Some(p) => r matches Ok(QueryResponse::Proposal(q)) && q@ == p,
                Option::None => r == Err::<QueryResponse, ContractError>(
                    ContractError::NoSuchProposal { id: proposal_id },
                ),
            },
            msg matches QueryMsg::ListProposals { start_after, limit } ==> (r matches Ok(
                QueryResponse::List(l),
            ) && views_of(l.proposals@) == page_of(
                self@.proposals,
                start_after,
                effective_limit(limit) as int,
            )),
    {
        match msg {
            QueryMsg::Config {} => Ok(QueryResponse::Config(self.query_config())),
            QueryMsg::Proposal { proposal_id } => match self.query_proposal(proposal_id) {
                Ok(p) => Ok(QueryResponse::Proposal(p)),
                Err(e) => Err(e),
            },
            QueryMsg::ListProposals { start_after, limit } => Ok(
                QueryResponse::List(self.query_list_proposals(start_after, limit)),
            ),
        }
    }
}

/// Query messages understood by a timelock module.
#[derive(Debug, PartialEq, Eq)]
pub enum QueryMsg {
    /// The module's configuration.
    Config {},
    /// The record stored under one proposal id.
    Proposal { proposal_id: u64 },
    /// The stored proposals ascending by id, paginated; `start_after` is an
    /// exclusive bound.
    ListProposals { start_after: Option<u64>, limit: Option<u64> },
}

/// Answers to [`QueryMsg`].
#[derive(Debug, PartialEq, Eq)]
pub enum QueryResponse {
    Config(Config),
    Proposal(SingleChoiceProposal),
    List(ProposalListResponse),
}

/// The page of proposals a listing returns.
#[derive(Debug, PartialEq, Eq)]
pub struct ProposalListResponse {
    pub proposals: Vec<SingleChoiceProposal>,
}

/// A timelocked proposal is recorded exactly as submitted: immediately after
/// the transition, looking its id up yields status Timelocked, the original
/// messages unchanged, and the submission timestamp.
pub proof fn law_timelock_records_submission(
    pre: TimelockView,
    post: TimelockView,
    proposal_id: u64,
    msgs: Seq<Seq<u8>>,
    now: u64,
)
    requires
        record_updated(
            pre.proposals,
            post.proposals,
            ProposalView {
                id: proposal_id,
                msgs,
                timelock_ts: now,
                status: ProposalStatus::Timelocked,
            },
        ),
    ensures
        lookup(post.proposals, proposal_id) matches Some(p) && p.status
            == ProposalStatus::Timelocked && p.msgs == msgs && p.timelock_ts == now,
{
}

/// Before `timelock_ts + duration` an execute command always fails
/// TimeLocked; at or after the threshold it succeeds whenever the proposal is
/// still Timelocked, no matter how many seconds beyond.
pub proof fn law_execute_timing(
    s: TimelockView,
    proposal_id: u64,
    now: u64,
    d: u64,
    p: ProposalView,
)
    requires
        lookup(s.proposals, proposal_id) == Some(p),
        p.status == ProposalStatus::Timelocked,
    ensures
        (now as int) < p.timelock_ts + d ==> execute_verdict(s, proposal_id, now, Duration::Time(d))
            == Err::<(), ContractError>(ContractError::TimeLocked {}),
        (now as int) >= p.timelock_ts + d ==> execute_verdict(
            s,
            proposal_id,
            now,
            Duration::Time(d),
        ) is Ok,
{
}

/// An overrule command succeeds exactly when the caller is the owner and the
/// proposal is currently Timelocked.
pub proof fn law_overrule_guard(s: TimelockView, sender: Seq<char>, proposal_id: u64)
    ensures
        overrule_verdict(s, sender, proposal_id) is Ok <==> (sender == s.config.owner && (lookup(
            s.proposals,
            proposal_id,
        ) matches Some(p) && p.status == ProposalStatus::Timelocked)),
{
}

/// Overruled is terminal: in any state reached by overruling `proposal_id`,
/// every further execute command on it fails WrongStatus, and so does every
/// further overrule command from the owner.
pub proof fn law_overruled_is_terminal(
    pre: TimelockView,
    post: TimelockView,
    proposal_id: u64,
    p: ProposalView,
    now: u64,
    period: Duration,
    sender: Seq<char>,
)
    requires
        p.id == proposal_id,
        record_updated(
            pre.proposals,
            post.proposals,
            ProposalView { status: ProposalStatus::Overruled, ..p },
        ),
        sender == post.config.owner,
    ensures
        execute_verdict(post, proposal_id, now, period) == Err::<(), ContractError>(
            ContractError::WrongStatus { status: ProposalStatus::Overruled },
        ),
        overrule_verdict(post, sender, proposal_id) == Err::<(), ContractError>(
            ContractError::WrongStatus { status: ProposalStatus::Overruled },
        ),
{
}


} // verus!
