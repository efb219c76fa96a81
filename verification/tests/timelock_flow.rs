//! Tests of the timelock state machine: record creation, timing, overrule
//! enforcement, failure callbacks, configuration and listing.

use subdao_timelock::overrule::{OverruleAdmission, PreProposeOverruleError};
use subdao_timelock::timelock::{
    OverruleRequest, ProposalListResponse, QueryMsg, QueryResponse, TimelockModule,
};
use subdao_timelock::types::{
    Config, ContractError, Duration, ProposalMessage, ProposalStatus, SingleChoiceProposal,
};

const OWNER: &str = "neutron1main_dao_core_contract";
const OVERRULE_PRE_PROPOSE: &str = "neutron1main_dao_overrule_preproposal";
const SUBDAO: &str = "neutron1subdao_core_contract";
const TIMELOCK_ADDR: &str = "neutron1timelock_contract";

fn module() -> TimelockModule {
    TimelockModule::instantiate(
        OWNER.to_string(),
        OVERRULE_PRE_PROPOSE.to_string(),
        SUBDAO.to_string(),
    )
}

fn msg(bytes: &[u8]) -> ProposalMessage {
    ProposalMessage { payload: bytes.to_vec() }
}

fn timelock_one(m: &mut TimelockModule, id: u64, ts: u64) -> OverruleRequest {
    m.execute_timelock_proposal(
        &SUBDAO.to_string(),
        id,
        vec![msg(&[1, 2, 3])],
        ts,
        &TIMELOCK_ADDR.to_string(),
    )
    .unwrap()
}

#[test]
fn test_timelock_records_proposal() {
    let mut m = module();
    let request = m
        .execute_timelock_proposal(
            &SUBDAO.to_string(),
            7,
            vec![msg(&[1, 2, 3]), msg(&[4])],
            100,
            &TIMELOCK_ADDR.to_string(),
        )
        .unwrap();
    assert_eq!(request.target, OVERRULE_PRE_PROPOSE.to_string());
    assert_eq!(request.timelock_contract, TIMELOCK_ADDR.to_string());
    assert_eq!(request.proposal_id, 7);

    let p = m.query_proposal(7).unwrap();
    assert_eq!(p.id, 7);
    assert_eq!(p.timelock_ts, 100);
    assert_eq!(p.status, ProposalStatus::Timelocked);
    assert_eq!(p.msgs, vec![msg(&[1, 2, 3]), msg(&[4])]);
}

#[test]
fn test_timelock_unauthorized() {
    let mut m = module();
    let r = m.execute_timelock_proposal(
        &"someone_else".to_string(),
        7,
        vec![msg(&[1])],
        100,
        &TIMELOCK_ADDR.to_string(),
    );
    assert_eq!(r, Err(ContractError::Unauthorized {}));
    assert_eq!(
        m.query_proposal(7),
        Err(ContractError::NoSuchProposal { id: 7 })
    );
}

#[test]
fn test_execute_before_and_after_duration() {
    // scenario: timelock, execute too early, execute in time, failure callback
    let mut m = module();
    timelock_one(&mut m, 7, 100);

    let early = m.execute_execute_proposal(7, 105, Duration::Time(10));
    assert_eq!(early, Err(ContractError::TimeLocked {}));
    assert_eq!(m.query_proposal(7).unwrap().status, ProposalStatus::Timelocked);

    let on_time = m.execute_execute_proposal(7, 110, Duration::Time(10)).unwrap();
    assert_eq!(on_time, vec![msg(&[1, 2, 3])]);
    assert_eq!(m.query_proposal(7).unwrap().status, ProposalStatus::Executed);

    // the dispatched message failed: the substrate calls back
    m.reply(7).unwrap();
    assert_eq!(m.query_proposal(7).unwrap().status, ProposalStatus::ExecutionFailed);
}

#[test]
fn test_execute_wrong_status_and_height_duration() {
    let mut m = module();
    timelock_one(&mut m, 7, 100);

    let height = m.execute_execute_proposal(7, 500, Duration::Height(10));
    assert_eq!(height, Err(ContractError::CantCreateOverrule {}));

    m.execute_execute_proposal(7, 110, Duration::Time(10)).unwrap();
    let again = m.execute_execute_proposal(7, 120, Duration::Time(10));
    assert_eq!(
        again,
        Err(ContractError::WrongStatus { status: ProposalStatus::Executed })
    );
}

#[test]
fn test_overrule_blocks_execution() {
    // scenario: timelock, owner overrules, execution is impossible forever
    let mut m = module();
    timelock_one(&mut m, 7, 100);

    let spoofed = m.execute_overrule_proposal(&"someone_else".to_string(), 7);
    assert_eq!(spoofed, Err(ContractError::Unauthorized {}));

    m.execute_overrule_proposal(&OWNER.to_string(), 7).unwrap();
    assert_eq!(m.query_proposal(7).unwrap().status, ProposalStatus::Overruled);

    let exec = m.execute_execute_proposal(7, 1_000_000, Duration::Time(10));
    assert_eq!(
        exec,
        Err(ContractError::WrongStatus { status: ProposalStatus::Overruled })
    );
    let again = m.execute_overrule_proposal(&OWNER.to_string(), 7);
    assert_eq!(
        again,
        Err(ContractError::WrongStatus { status: ProposalStatus::Overruled })
    );
}

#[test]
fn test_missing_proposal_errors() {
    let mut m = module();
    assert_eq!(
        m.execute_execute_proposal(9, 100, Duration::Time(10)),
        Err(ContractError::NoSuchProposal { id: 9 })
    );
    assert_eq!(
        m.execute_overrule_proposal(&OWNER.to_string(), 9),
        Err(ContractError::NoSuchProposal { id: 9 })
    );
    assert_eq!(m.reply(9), Err(ContractError::NoSuchProposal { id: 9 }));
}

#[test]
fn test_update_config() {
    let mut m = module();
    let r = m.execute_update_config(&"someone_else".to_string(), None, None);
    assert_eq!(r, Err(ContractError::Unauthorized {}));

    m.execute_update_config(&OWNER.to_string(), Some("new_owner".to_string()), None)
        .unwrap();
    let c = m.query_config();
    assert_eq!(
        c,
        Config {
            owner: "new_owner".to_string(),
            overrule_pre_propose: OVERRULE_PRE_PROPOSE.to_string(),
            subdao: SUBDAO.to_string(),
        }
    );

    // the old owner lost the role; the new owner may update the target
    assert_eq!(
        m.execute_update_config(&OWNER.to_string(), None, None),
        Err(ContractError::Unauthorized {})
    );
    m.execute_update_config(
        &"new_owner".to_string(),
        None,
        Some("new_target".to_string()),
    )
    .unwrap();
    assert_eq!(m.query_config().overrule_pre_propose, "new_target".to_string());
    assert_eq!(m.query_config().subdao, SUBDAO.to_string());
}

#[test]
fn test_list_proposals_pagination() {
    let mut m = module();
    for id in [3u64, 1, 8, 5, 2] {
        timelock_one(&mut m, id, 100 + id);
    }
    let ids = |r: ProposalListResponse| -> Vec<u64> {
        r.proposals.iter().map(|p| p.id).collect()
    };

    assert_eq!(ids(m.query_list_proposals(None, None)), vec![1, 2, 3, 5, 8]);
    assert_eq!(ids(m.query_list_proposals(Some(2), None)), vec![3, 5, 8]);
    assert_eq!(ids(m.query_list_proposals(Some(2), Some(2))), vec![3, 5]);
    assert_eq!(ids(m.query_list_proposals(Some(8), None)), vec![]);
    assert_eq!(ids(m.query_list_proposals(None, Some(0))), vec![]);
}

#[test]
fn test_list_proposals_default_limit() {
    let mut m = module();
    let mut id: u64 = 1;
    while id <= 40 {
        timelock_one(&mut m, id, 100);
        id += 1;
    }
    let page = m.query_list_proposals(None, None);
    assert_eq!(page.proposals.len(), 30);
    assert_eq!(page.proposals[0].id, 1);
    assert_eq!(page.proposals[29].id, 30);
    let rest = m.query_list_proposals(Some(30), None);
    assert_eq!(rest.proposals.len(), 10);
    assert_eq!(rest.proposals[9].id, 40);
}

#[test]
fn test_list_proposals_caps_limit() {
    let mut m = module();
    let mut id: u64 = 1;
    while id <= 110 {
        timelock_one(&mut m, id, 100);
        id += 1;
    }
    // a caller-supplied limit is clamped to the fixed maximum of 100
    let capped = m.query_list_proposals(None, Some(u64::MAX));
    assert_eq!(capped.proposals.len(), 100);
    assert_eq!(capped.proposals[99].id, 100);
    let also_capped = m.query_list_proposals(None, Some(105));
    assert_eq!(also_capped.proposals.len(), 100);
    let under_cap = m.query_list_proposals(None, Some(99));
    assert_eq!(under_cap.proposals.len(), 99);
}

#[test]
fn test_query_dispatch() {
    let mut m = module();
    timelock_one(&mut m, 7, 100);

    match m.query(QueryMsg::Config {}).unwrap() {
        QueryResponse::Config(c) => assert_eq!(c.subdao, SUBDAO.to_string()),
        other => panic!("unexpected answer: {:?}", other),
    }
    match m.query(QueryMsg::Proposal { proposal_id: 7 }).unwrap() {
        QueryResponse::Proposal(p) => {
            assert_eq!(
                p,
                SingleChoiceProposal {
                    id: 7,
                    msgs: vec![msg(&[1, 2, 3])],
                    timelock_ts: 100,
                    status: ProposalStatus::Timelocked,
                }
            );
        },
        other => panic!("unexpected answer: {:?}", other),
    }
    match m.query(QueryMsg::ListProposals { start_after: None, limit: None }).unwrap() {
        QueryResponse::List(l) => assert_eq!(l.proposals.len(), 1),
        other => panic!("unexpected answer: {:?}", other),
    }
    assert_eq!(
        m.query(QueryMsg::Proposal { proposal_id: 9 }),
        Err(ContractError::NoSuchProposal { id: 9 })
    );
}

#[test]
fn test_end_to_end_veto_proposal_created() {
    // scenario: a subDAO proposal is approved, timelocked, and the emitted
    // request leads to a veto proposal at the parent tier
    let mut m = module();
    let request = m
        .execute_timelock_proposal(
            &SUBDAO.to_string(),
            7,
            vec![msg(&[9])],
            100,
            &TIMELOCK_ADDR.to_string(),
        )
        .unwrap();

    let mut admission = OverruleAdmission::instantiate(
        "neutron1propose_module".to_string(),
        OWNER.to_string(),
    );
    let submitter = "whatever".to_string();
    let veto = admission
        .execute_propose_overrule(
            &submitter,
            &request.timelock_contract,
            request.proposal_id,
            &SUBDAO.to_string(),
            &TIMELOCK_ADDR.to_string(),
            &"Alpha".to_string(),
            &vec![SUBDAO.to_string()],
            m.query_proposal(7).unwrap().status,
            5,
        )
        .unwrap();
    assert_eq!(veto.title, "Reject the proposal #7 of the 'Alpha' subdao".to_string());
    assert_eq!(veto.proposer, submitter);
    assert_eq!(veto.timelock_contract, TIMELOCK_ADDR.to_string());
    assert_eq!(veto.proposal_id, 7);
}

#[test]
fn test_double_timelock() {
    // a resubmitted proposal id overwrites the record, but the induced second
    // veto request fails with the id recorded by the first
    let mut m = module();
    timelock_one(&mut m, 7, 100);
    let request = timelock_one(&mut m, 7, 150);
    assert_eq!(m.query_proposal(7).unwrap().timelock_ts, 150);

    let mut admission = OverruleAdmission::instantiate(
        "neutron1propose_module".to_string(),
        OWNER.to_string(),
    );
    let args = (
        "whatever".to_string(),
        SUBDAO.to_string(),
        TIMELOCK_ADDR.to_string(),
        "Alpha".to_string(),
        vec![SUBDAO.to_string()],
    );
    let first = admission.execute_propose_overrule(
        &args.0,
        &request.timelock_contract,
        request.proposal_id,
        &args.1,
        &args.2,
        &args.3,
        &args.4,
        ProposalStatus::Timelocked,
        5,
    );
    assert!(first.is_ok());
    let second = admission.execute_propose_overrule(
        &args.0,
        &request.timelock_contract,
        request.proposal_id,
        &args.1,
        &args.2,
        &args.3,
        &args.4,
        ProposalStatus::Timelocked,
        6,
    );
    assert_eq!(second, Err(PreProposeOverruleError::AlreadyExists { id: 6 }));
}
