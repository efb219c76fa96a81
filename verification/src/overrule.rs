//! The overrule admission protocol.
//!
//! The admission module fronts the parent organization's generic proposal
//! engine. It accepts veto-proposal requests from timelock modules, validates
//! that the requesting timelock is genuinely linked to a subDAO the parent
//! recognizes, deduplicates so at most one veto proposal exists per
//! (timelock, subDAO-proposal-id) pair, and composes the proposal submitted
//! to the engine. Every cross-contract query result it judges is handed in
//! by the caller as a plain value.

use crate::decimal::{dec_digits, push_decimal};
use crate::types::ProposalStatus;
use vstd::prelude::*;
use vstd::string::StringExecFns;

verus! {

/// Deposit requirement of a pre-propose module. This admission module never
/// requires one; the type exists so the delegated configuration query can
/// say so explicitly.
#[derive(Debug, PartialEq, Eq)]
pub struct DepositInfo {
    pub denom: String,
    pub amount: u64,
}

impl DepositInfo {
    /// A deep copy, equal to the original.
    pub fn duplicate(&self) -> (r: Self)
        ensures
            r == *self,
    {
        DepositInfo { denom: self.denom.clone(), amount: self.amount }
    }
}

/// Configuration of the generic pre-propose base this module extends.
#[derive(Debug, PartialEq, Eq)]
pub struct PreProposeConfig {
    /// The deposit a proposer must escrow; never required here.
    pub deposit_info: Option<DepositInfo>,
    /// Whether anyone (not only members) may trigger a proposal.
    pub open_proposal_submission: bool,
}

impl PreProposeConfig {
    /// A deep copy, equal to the original.
    pub fn duplicate(&self) -> (r: Self)
        ensures
            r == *self,
    {
        let deposit_info = match &self.deposit_info {
            Some(d) => Some(d.duplicate()),
            None => None,
        };
        PreProposeConfig { deposit_info, open_proposal_submission: self.open_proposal_submission }
    }
}

/// Whether the contract is currently paused.
#[derive(Debug, PartialEq, Eq)]
pub enum PauseInfoResponse {
    Paused { until_height: u64 },
    Unpaused {},
}

/// Every failure the admission protocol can report. A failed request leaves
/// the admission records unchanged.
#[derive(Clone, Copy, Debug, PartialEq, Eq, Structural)]
pub enum PreProposeOverruleError {
    /// The proposal-submission path was invoked with a message other than a
    /// propose-overrule request; this module accepts exactly one shape.
    MessageUnsupported {},
    /// The claimed subDAO is not registered with the parent organization.
    ForbiddenSubdao {},
    /// The subDAO and the requesting timelock disagree about their mutual
    /// linkage.
    SubdaoMisconfigured {},
    /// The referenced subDAO proposal is not currently timelocked.
    ProposalWrongState {},
    /// A veto proposal for this (timelock, proposal-id) pair already exists;
    /// carries its id.
    AlreadyExists { id: u64 },
}

/// The one proposal shape this module admits.
#[derive(Debug, PartialEq, Eq)]
pub enum ProposeMessage {
    ProposeOverrule { timelock_contract: String, proposal_id: u64 },
}

/// Command messages of the admission module: the generic pre-propose
/// submission path plus the base module's configuration update.
#[derive(Debug, PartialEq, Eq)]
pub enum ExecuteMsg {
    Propose { msg: ProposeMessage },
    UpdateConfig { deposit_info: Option<DepositInfo>, open_proposal_submission: bool },
}

/// Mathematical value of an [`OverruleRecord`].
pub struct RecordView {
    pub timelock: Seq<char>,
    pub subdao_proposal_id: u64,
    pub overrule_proposal_id: u64,
}

/// The admission record for one admitted veto request: which timelock asked,
/// for which subDAO proposal, and the id of the veto proposal created in the
/// parent's proposal engine.
#[derive(Debug, PartialEq, Eq)]
pub struct OverruleRecord {
    pub timelock: String,
    pub subdao_proposal_id: u64,
    pub overrule_proposal_id: u64,
}

impl View for OverruleRecord {
    type V = RecordView;

    open spec fn view(&self) -> RecordView {
        RecordView {
            timelock: self.timelock@,
            subdao_proposal_id: self.subdao_proposal_id,
            overrule_proposal_id: self.overrule_proposal_id,
        }
    }
}

/// The veto proposal composed for the parent's generic proposal engine: its
/// texts, its single embedded command (overrule `proposal_id` at
/// `timelock_contract`), and the proposer it is attributed to.
#[derive(Debug, PartialEq, Eq)]
pub struct VetoProposal {
    pub title: String,
    pub description: String,
    pub timelock_contract: String,
    pub proposal_id: u64,
    pub proposer: String,
}

/// The record views of a stored record table.
pub open spec fn record_views(records: Seq<OverruleRecord>) -> Seq<RecordView> {
    records.map_values(|r: OverruleRecord| r@)
}

/// The address views of a stored address list.
pub open spec fn addr_views(addrs: Seq<String>) -> Seq<Seq<char>> {
    addrs.map_values(|a: String| a@)
}

/// Whether `addrs` holds the address `x`.
pub open spec fn contains_addr(addrs: Seq<Seq<char>>, x: Seq<char>) -> bool {
    exists|i: int| 0 <= i < addrs.len() && addrs[i] == x
}

/// Whether `r` is the record of the (timelock, subDAO-proposal-id) pair.
pub open spec fn key_matches(r: RecordView, timelock: Seq<char>, proposal_id: u64) -> bool {
    r.timelock == timelock && r.subdao_proposal_id == proposal_id
}

pub open spec fn contains_key(records: Seq<RecordView>, timelock: Seq<char>, proposal_id: u64) -> bool {
    exists|i: int| 0 <= i < records.len() && key_matches(records[i], timelock, proposal_id)
}

pub open spec fn index_of_key(records: Seq<RecordView>, timelock: Seq<char>, proposal_id: u64) -> int {
    choose|i: int| 0 <= i < records.len() && key_matches(records[i], timelock, proposal_id)
}

/// The record stored for the pair, if any.
pub open spec fn lookup_record(records: Seq<RecordView>, timelock: Seq<char>, proposal_id: u64) -> Option<RecordView> {
    if contains_key(records, timelock, proposal_id) {
        Some(records[index_of_key(records, timelock, proposal_id)])
    } else {
        None
    }
}

/// At most one record exists per (timelock, subDAO-proposal-id) pair.
pub open spec fn records_wf(records: Seq<RecordView>) -> bool {
    forall|i: int, j: int|
        0 <= i < j < records.len() ==> !(records[i].timelock == records[j].timelock
            && records[i].subdao_proposal_id == records[j].subdao_proposal_id)
}

/// `post` is `pre` plus exactly one new record: the pair now maps to
/// `overrule_proposal_id`, and no other pair's record changed.
pub open spec fn record_created(
    pre: Seq<RecordView>,
    post: Seq<RecordView>,
    timelock: Seq<char>,
    proposal_id: u64,
    overrule_proposal_id: u64,
) -> bool {
    &&& records_wf(post)
    &&& lookup_record(post, timelock, proposal_id) == Some(
        RecordView { timelock, subdao_proposal_id: proposal_id, overrule_proposal_id },
    )
    &&& forall|t: Seq<char>, i: u64|
        !(t == timelock && i == proposal_id) ==> lookup_record(post, t, i) == lookup_record(
            pre,
            t,
            i,
        )
}

/// Outcome of the admission algorithm, judged over the caller-supplied query
/// results, in the order the checks run: linkage, registration, proposal
/// state, deduplication.
///
/// * `timelock` — the timelock the request claims to come from;
/// * `timelock_subdao` — the subDAO that timelock's configuration names;
/// * `subdao_timelock` — the timelock that subDAO names as its own;
/// * `registered` — the parent organization's registered subDAO set;
/// * `status` — the status of the proposal in the requesting timelock.
pub open spec fn admission_verdict(
    records: Seq<RecordView>,
    timelock: Seq<char>,
    proposal_id: u64,
    timelock_subdao: Seq<char>,
    subdao_timelock: Seq<char>,
    registered: Seq<Seq<char>>,
    status: ProposalStatus,
) -> Result<(), PreProposeOverruleError> {
    if subdao_timelock != timelock {
        Err(PreProposeOverruleError::SubdaoMisconfigured {})
    } else if !contains_addr(registered, timelock_subdao) {
        Err(PreProposeOverruleError::ForbiddenSubdao {})
    } else if status != ProposalStatus::Timelocked {
        Err(PreProposeOverruleError::ProposalWrongState {})
    } else {
        match lookup_record(records, timelock, proposal_id) {
            Option::Some(rec) => Err(
                PreProposeOverruleError::AlreadyExists { id: rec.overrule_proposal_id },
            ),
            Option::None => Ok(()),
        }
    }
}

/// Title of the veto proposal for `proposal_id` of the subDAO named
/// `subdao_name`.
pub open spec fn overrule_proposal_title(proposal_id: u64, subdao_name: Seq<char>) -> Seq<char> {
    "Reject the proposal #"@ + dec_digits(proposal_id as int) + " of the '"@ + subdao_name
        + "' subdao"@
}

/// Description of the veto proposal for `proposal_id` of the subDAO named
/// `subdao_name` at address `subdao_address`.
pub open spec fn overrule_proposal_description(
    proposal_id: u64,
    subdao_name: Seq<char>,
    subdao_address: Seq<char>,
) -> Seq<char> {
    "If this proposal will be accepted, the DAO is going to overrule the proposal #"@ + dec_digits(
        proposal_id as int,
    ) + " of '"@ + subdao_name + "' subdao (address "@ + subdao_address + ")"@
}

proof fn lemma_record_at(records: Seq<RecordView>, i: int)
    requires
        records_wf(records),
        0 <= i < records.len(),
    ensures
        lookup_record(records, records[i].timelock, records[i].subdao_proposal_id) == Some(
            records[i],
        ),
{
    let t = records[i].timelock;
    let id = records[i].subdao_proposal_id;
    assert(key_matches(records[i], t, id));
    assert(contains_key(records, t, id));
    let k = index_of_key(records, t, id);
    assert(0 <= k < records.len() && key_matches(records[k], t, id));
}

proof fn lemma_record_none(records: Seq<RecordView>, timelock: Seq<char>, proposal_id: u64)
    requires
        forall|i: int| 0 <= i < records.len() ==> !key_matches(records[i], timelock, proposal_id),
    ensures
        lookup_record(records, timelock, proposal_id) is None,
{
}

/// Appending a record whose pair is absent creates exactly that record.
proof fn lemma_record_push(records: Seq<RecordView>, rec: RecordView)
    requires
        records_wf(records),
        forall|i: int|
            0 <= i < records.len() ==> !key_matches(
                records[i],
                rec.timelock,
                rec.subdao_proposal_id,
            ),
    ensures
        record_created(
            records,
            records.push(rec),
            rec.timelock,
            rec.subdao_proposal_id,
            rec.overrule_proposal_id,
        ),
{
    let n = records.push(rec);
    assert(forall|k: int| 0 <= k < records.len() ==> n[k] == records[k]);
    assert(n[records.len() as int] == rec);
    assert(records_wf(n));
    lemma_record_at(n, records.len() as int);
    assert(lookup_record(n, rec.timelock, rec.subdao_proposal_id) == Some(
        RecordView {
            timelock: rec.timelock,
            subdao_proposal_id: rec.subdao_proposal_id,
            overrule_proposal_id: rec.overrule_proposal_id,
        },
    ));
    assert forall|t: Seq<char>, i: u64|
        !(t == rec.timelock && i == rec.subdao_proposal_id) implies lookup_record(n, t, i)
        == lookup_record(records, t, i) by {
        if contains_key(records, t, i) {
            let k = index_of_key(records, t, i);
            assert(0 <= k < records.len() && key_matches(records[k], t, i));
            lemma_record_at(records, k);
            lemma_record_at(n, k);
        } else {
            assert(forall|k: int|
                0 <= k < records.len() ==> !key_matches(records[k], t, i));
            assert forall|k: int| 0 <= k < n.len() implies !key_matches(n[k], t, i) by {
                if k < records.len() {
                    assert(n[k] == records[k]);
                } else {
                    assert(n[k] == rec);
                }
            }
            lemma_record_none(records, t, i);
            lemma_record_none(n, t, i);
        }
    }
}

/// Whether the stored address list holds `x`.
fn contains_address(addrs: &Vec<String>, x: &String) -> (r: bool)
    ensures
        r == contains_addr(addr_views(addrs@), x@),
{
    let mut i: usize = 0;
    while i < addrs.len()
        invariant
            i <= addrs@.len(),
            forall|k: int| 0 <= k < i ==> addr_views(addrs@)[k] != x@,
        decreases addrs@.len() - i,
    {
        if addrs[i] == *x {
            proof {
                assert(addr_views(addrs@)[i as int] == x@);
            }
            return true;
        }
        proof {
            assert(addr_views(addrs@)[i as int] == addrs@[i as int]@);
        }
        i += 1;
    }
    false
}

/// The overrule-proposal id recorded for the pair, if any.
fn find_record(records: &Vec<OverruleRecord>, timelock: &String, proposal_id: u64) -> (r: Option<
    u64,
>)
    requires
        records_wf(record_views(records@)),
    ensures
        match lookup_record(record_views(records@), timelock@, proposal_id) {
            Option::Some(rec) => r == Some(rec.overrule_proposal_id),
            Option::None => r is None,
        },
{
    let ghost views = record_views(records@);
    let mut i: usize = 0;
    while i < records.len()
        invariant
            i <= records@.len(),
            views == record_views(records@),
            records_wf(views),
            forall|k: int| 0 <= k < i ==> !key_matches(views[k], timelock@, proposal_id),
        decreases records@.len() - i,
    {
        proof {
            assert(views[i as int] == records@[i as int]@);
        }
        if records[i].timelock == *timelock && records[i].subdao_proposal_id == proposal_id {
            proof {
                lemma_record_at(views, i as int);
            }
            return Some(records[i].overrule_proposal_id);
        }
        i += 1;
    }
    proof {
        lemma_record_none(views, timelock@, proposal_id);
    }
    None
}

/// The admission module at the parent tier: the pre-propose base
/// configuration, the parent organization and proposal engine it serves, and
/// the table of veto requests already admitted.
#[derive(Debug, PartialEq, Eq)]
pub struct OverruleAdmission {
    pub config: PreProposeConfig,
    /// The parent organization's core contract.
    pub dao: String,
    /// The parent organization's generic proposal engine, where composed
    /// veto proposals are submitted.
    pub proposal_module: String,
    pub records: Vec<OverruleRecord>,
}

impl OverruleAdmission {
    /// The module's internal invariant: at most one record per
    /// (timelock, subDAO-proposal-id) pair.
    pub open spec fn wf(&self) -> bool {
        records_wf(record_views(self.records@))
    }

    /// Creates the admission module for one parent organization. Submission
    /// is open and no deposit is required: any account may trigger a veto
    /// request, since admission depends on the linkage checks alone.
    pub fn instantiate(proposal_module: String, dao: String) -> (s: Self)
        ensures
            s.wf(),
            s.config == (PreProposeConfig { deposit_info: None, open_proposal_submission: true }),
            s.dao@ == dao@,
            s.proposal_module@ == proposal_module@,
            record_views(s.records@) == Seq::<RecordView>::empty(),
    {
        let s = OverruleAdmission {
            config: PreProposeConfig { deposit_info: None, open_proposal_submission: true },
            dao,
            proposal_module,
            records: Vec::new(),
        };
        proof {
            assert(record_views(s.records@) =~= Seq::<RecordView>::empty());
        }
        s
    }

    /// Accepts the one supported proposal shape, returning the claimed
    /// timelock and subDAO proposal id; every other command on the
    /// proposal-submission path fails MessageUnsupported.
    pub fn accept_message(msg: ExecuteMsg) -> (r: Result<(String, u64), PreProposeOverruleError>)
        ensures
            msg matches ExecuteMsg::Propose {
                msg: ProposeMessage::ProposeOverrule { timelock_contract, proposal_id },
            } ==> (r matches Ok((t, i)) && t@ == timelock_contract@ && i == proposal_id),
            !(msg matches ExecuteMsg::Propose { .. }) ==> r == Err::<
                (String, u64),
                PreProposeOverruleError,
            >(PreProposeOverruleError::MessageUnsupported {}),
    {
        match msg {
            ExecuteMsg::Propose {
                msg: ProposeMessage::ProposeOverrule { timelock_contract, proposal_id },
            } => Ok((timelock_contract, proposal_id)),
            _ => Err(PreProposeOverruleError::MessageUnsupported {}),
        }
    }

    /// Admits or rejects one veto-proposal request and, on admission,
    /// composes the veto proposal for the parent's proposal engine and
    /// records its id.
    ///
    /// The caller resolves the linkage beforehand and hands in the results:
    /// `timelock_subdao` (the subDAO named by the timelock's configuration),
    /// `subdao_timelock` (the timelock that subDAO names as its own),
    /// `subdao_name`, the parent's `registered_subdaos` set, the
    /// `proposal_status` of the proposal inside the requesting timelock, and
    /// the engine's current `proposal_count` (sequential ids: the created
    /// veto proposal gets id `proposal_count + 1`).
    pub fn execute_propose_overrule(
        &mut self,
        proposer: &String,
        timelock_contract: &String,
        proposal_id: u64,
        timelock_subdao: &String,
        subdao_timelock: &String,
        subdao_name: &String,
        registered_subdaos: &Vec<String>,
        proposal_status: ProposalStatus,
        proposal_count: u64,
    ) -> (r: Result<VetoProposal, PreProposeOverruleError>)
        requires
            old(self).wf(),
            proposal_count < u64::MAX,
        ensures
            final(self).wf(),
            final(self).config == old(self).config,
            final(self).dao == old(self).dao,
            final(self).proposal_module == old(self).proposal_module,
            r is Err ==> *final(self) == *old(self),
            r matches Err(e) ==> Err::<(), PreProposeOverruleError>(e) == admission_verdict(
                record_views(old(self).records@),
                timelock_contract@,
                proposal_id,
                timelock_subdao@,
                subdao_timelock@,
                addr_views(registered_subdaos@),
                proposal_status,
            ),
            r is Ok <==> admission_verdict(
                record_views(old(self).records@),
                timelock_contract@,
                proposal_id,
                timelock_subdao@,
                subdao_timelock@,
                addr_views(registered_subdaos@),
                proposal_status,
            ) is Ok,
            r matches Ok(v) ==> {
                &&& v.title@ == overrule_proposal_title(proposal_id, subdao_name@)
                &&& v.description@ == overrule_proposal_description(
                    proposal_id,
                    subdao_name@,
                    timelock_subdao@,
                )
                &&& v.timelock_contract@ == timelock_contract@
                &&& v.proposal_id == proposal_id
                &&& v.proposer@ == proposer@
                &&& record_created(
                    record_views(old(self).records@),
                    record_views(final(self).records@),
                    timelock_contract@,
                    proposal_id,
                    (proposal_count + 1) as u64,
                )
            },
    {
        if !(*subdao_timelock == *timelock_contract) {
            return Err(PreProposeOverruleError::SubdaoMisconfigured {});
        }
        if !contains_address(registered_subdaos, timelock_subdao) {
            return Err(PreProposeOverruleError::ForbiddenSubdao {});
        }
        if !(proposal_status == ProposalStatus::Timelocked) {
            return Err(PreProposeOverruleError::ProposalWrongState {});
        }
        if let Some(existing) = find_record(&self.records, timelock_contract, proposal_id) {
            return Err(PreProposeOverruleError::AlreadyExists { id: existing });
        }
        let ghost pre = record_views(self.records@);
        let overrule_proposal_id = proposal_count + 1;
        let record = OverruleRecord {
            timelock: timelock_contract.clone(),
            subdao_proposal_id: proposal_id,
            overrule_proposal_id,
        };
        let ghost rv = record@;
        self.records.push(record);
        proof {
            assert(record_views(self.records@) =~= pre.push(rv));
            assert forall|k: int| 0 <= k < pre.len() implies !key_matches(
                pre[k],
                rv.timelock,
                rv.subdao_proposal_id,
            ) by {
                if key_matches(pre[k], rv.timelock, rv.subdao_proposal_id) {
                    assert(contains_key(pre, timelock_contract@, proposal_id));
                }
            }
            lemma_record_push(pre, rv);
        }
        let mut title = "Reject the proposal #".to_owned();
        push_decimal(&mut title, proposal_id);
        title.append(" of the '");
        title.append(subdao_name.as_str());
        title.append("' subdao");
        let mut description =
            "If this proposal will be accepted, the DAO is going to overrule the proposal #".to_owned();
        push_decimal(&mut description, proposal_id);
        description.append(" of '");
        description.append(subdao_name.as_str());
        description.append("' subdao (address ");
        description.append(timelock_subdao.as_str());
        description.append(")");
        Ok(
            VetoProposal {
                title,
                description,
                timelock_contract: timelock_contract.clone(),
                proposal_id,
                proposer: proposer.clone(),
            },
        )
    }

    /// The veto-proposal id recorded for the pair, if any.
    pub fn query_overrule_proposal_id(
        &self,
        subdao_proposal_id: u64,
        timelock_address: &String,
    ) -> (r: Option<u64>)
        requires
            self.wf(),
        ensures
            match lookup_record(record_views(self.records@), timelock_address@, subdao_proposal_id) {
                Option::Some(rec) => r == Some(rec.overrule_proposal_id),
                Option::None => r is None,
            },
    {
        find_record(&self.records, timelock_address, subdao_proposal_id)
    }

    /// The pre-propose base configuration.
    pub fn query_config(&self) -> (r: PreProposeConfig)
        ensures
            r == self.config,
    {
        self.config.duplicate()
    }

    /// The parent organization's core contract.
    pub fn query_dao(&self) -> (r: String)
        ensures
            r@ == self.dao@,
    {
        self.dao.clone()
    }

    /// The proposal engine veto proposals are submitted to.
    pub fn query_proposal_module(&self) -> (r: String)
        ensures
            r@ == self.proposal_module@,
    {
        self.proposal_module.clone()
    }

    /// Pause state delegated from the generic base: the admission module
    /// itself has no pause mechanism, so it always reports Unpaused.
    pub fn query_pause_info(&self) -> (r: PauseInfoResponse)
        ensures
            r == (PauseInfoResponse::Unpaused {}),
    {
        PauseInfoResponse::Unpaused {}
    }
}

/// Duplicate veto requests fail idempotently: in any state whose record
/// table already maps the pair to `overrule_proposal_id` — in particular any
/// state reached by admitting it — a second request for the same pair, with
/// the same linkage results, is rejected AlreadyExists carrying exactly that
/// id. Rejection leaves the table unchanged, so no second veto proposal is
/// ever composed.
pub proof fn law_duplicate_request_fails(
    pre: Seq<RecordView>,
    post: Seq<RecordView>,
    timelock: Seq<char>,
    proposal_id: u64,
    overrule_proposal_id: u64,
    timelock_subdao: Seq<char>,
    registered: Seq<Seq<char>>,
    status: ProposalStatus,
)
    requires
        record_created(pre, post, timelock, proposal_id, overrule_proposal_id),
        contains_addr(registered, timelock_subdao),
        status == ProposalStatus::Timelocked,
    ensures
        admission_verdict(post, timelock, proposal_id, timelock_subdao, timelock, registered, status)
            == Err::<(), PreProposeOverruleError>(
            PreProposeOverruleError::AlreadyExists { id: overrule_proposal_id },
        ),
{
}

/// Spoofing resistance: a request from a timelock whose claimed subDAO does
/// not name it back fails SubdaoMisconfigured, and one whose subDAO the
/// parent does not register fails ForbiddenSubdao — in both cases before any
/// record is created or proposal composed.
pub proof fn law_spoofed_request_fails(
    records: Seq<RecordView>,
    timelock: Seq<char>,
    proposal_id: u64,
    timelock_subdao: Seq<char>,
    subdao_timelock: Seq<char>,
    registered: Seq<Seq<char>>,
    status: ProposalStatus,
)
    ensures
        subdao_timelock != timelock ==> admission_verdict(
            records,
            timelock,
            proposal_id,
            timelock_subdao,
            subdao_timelock,
            registered,
            status,
        ) == Err::<(), PreProposeOverruleError>(PreProposeOverruleError::SubdaoMisconfigured {}),
        subdao_timelock == timelock && !contains_addr(registered, timelock_subdao)
            ==> admission_verdict(
            records,
            timelock,
            proposal_id,
            timelock_subdao,
            subdao_timelock,
            registered,
            status,
        ) == Err::<(), PreProposeOverruleError>(PreProposeOverruleError::ForbiddenSubdao {}),
{
}

} // verus!
