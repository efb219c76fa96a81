//! Shared data model: proposal records, module configuration, durations and
//! the error taxonomy of the timelock module.

use vstd::prelude::*;

verus! {

/// Lifecycle status of a timelocked proposal.
///
/// `Timelocked` is the only non-terminal status; `Executed` may still be
/// downgraded to `ExecutionFailed` by a later failure callback, because
/// message execution and status commit are not atomic across the execution
/// substrate's command boundary.
#[derive(Clone, Copy, Debug, PartialEq, Eq, Structural)]
pub enum ProposalStatus {
    Timelocked,
    Executed,
    Overruled,
    ExecutionFailed,
}

/// One opaque command payload carried by a proposal. The timelock stores and
/// forwards the bytes without interpreting them; the execution substrate is
/// what eventually decodes and applies them.
#[derive(Debug, PartialEq, Eq)]
pub struct ProposalMessage {
    pub payload: Vec<u8>,
}

impl View for ProposalMessage {
    type V = Seq<u8>;

    open spec fn view(&self) -> Seq<u8> {
        self.payload@
    }
}

impl ProposalMessage {
    /// A deep copy; the bytes of the copy are exactly the bytes of the original.
    pub fn duplicate(&self) -> (r: Self)
        ensures
            r@ == self@,
    {
        let payload = self.payload.clone();
        proof {
            assert(payload@ =~= self.payload@);
        }
        ProposalMessage { payload }
    }
}

/// Mathematical value of a [`SingleChoiceProposal`].
pub struct ProposalView {
    pub id: u64,
    pub msgs: Seq<Seq<u8>>,
    pub timelock_ts: u64,
    pub status: ProposalStatus,
}

/// One subDAO proposal that reached approval and is (or was) held by the
/// timelock: its engine-assigned id, its command payloads, the timestamp at
/// which the lock began, and its lifecycle status.
#[derive(Debug, PartialEq, Eq)]
pub struct SingleChoiceProposal {
    pub id: u64,
    pub msgs: Vec<ProposalMessage>,
    pub timelock_ts: u64,
    pub status: ProposalStatus,
}

impl View for SingleChoiceProposal {
    type V = ProposalView;

    open spec fn view(&self) -> ProposalView {
        ProposalView {
            id: self.id,
            msgs: self.msgs@.map_values(|m: ProposalMessage| m@),
            timelock_ts: self.timelock_ts,
            status: self.status,
        }
    }
}

impl SingleChoiceProposal {
    /// A deep copy; the copy's mathematical value is exactly the original's.
    pub fn duplicate(&self) -> (r: Self)
        ensures
            r@ == self@,
    {
        let mut msgs: Vec<ProposalMessage> = Vec::new();
        let mut i: usize = 0;
        while i < self.msgs.len()
            invariant
                i <= self.msgs.len(),
                msgs@.len() == i,
                forall|k: int| 0 <= k < i ==> msgs@[k]@ == self.msgs@[k]@,
            decreases self.msgs.len() - i,
        {
            msgs.push(self.msgs[i].duplicate());
            i += 1;
        }
        proof {
            assert(msgs@.map_values(|m: ProposalMessage| m@) =~= self.msgs@.map_values(
                |m: ProposalMessage| m@,
            ));
        }
        let r = SingleChoiceProposal {
            id: self.id,
            msgs,
            timelock_ts: self.timelock_ts,
            status: self.status,
        };
        proof {
            assert(r@ =~= self@);
        }
        r
    }
}

/// Mathematical value of a [`Config`].
pub struct ConfigView {
    pub owner: Seq<char>,
    pub overrule_pre_propose: Seq<char>,
    pub subdao: Seq<char>,
}

/// Configuration of one timelock deployment.
///
/// All three identities are validated addresses at write time (the substrate's
/// address validation runs before any of them reaches this core). In a
/// correctly configured deployment `owner` and `subdao` are distinct
/// organizations; nothing here depends on it, but the roles they grant are
/// meant for different principals.
#[derive(Debug, PartialEq, Eq)]
pub struct Config {
    /// Identity of the parent organization; the only principal allowed to
    /// overrule a proposal or to reconfigure this module.
    pub owner: String,
    /// Identity of the overrule admission endpoint asked to create veto
    /// proposals.
    pub overrule_pre_propose: String,
    /// Identity of the subDAO this module serves; the only principal allowed
    /// to submit proposals for timelocking. Reassigning a deployed module to
    /// a different subDAO is deliberately not supported: no operation updates
    /// this field.
    pub subdao: String,
}

impl View for Config {
    type V = ConfigView;

    open spec fn view(&self) -> ConfigView {
        ConfigView {
            owner: self.owner@,
            overrule_pre_propose: self.overrule_pre_propose@,
            subdao: self.subdao@,
        }
    }
}

impl Config {
    /// A copy; the copy's mathematical value is exactly the original's.
    pub fn duplicate(&self) -> (r: Self)
        ensures
            r@ == self@,
            r == *self,
    {
        Config {
            owner: self.owner.clone(),
            overrule_pre_propose: self.overrule_pre_propose.clone(),
            subdao: self.subdao.clone(),
        }
    }
}

/// A voting duration of a proposal engine: either a wall-clock interval in
/// seconds or a number of blocks. Only time-based durations are comparable
/// with the timelock's wall-clock timestamps.
#[derive(Clone, Copy, Debug, PartialEq, Eq, Structural)]
pub enum Duration {
    /// A number of blocks.
    Height(u64),
    /// A wall-clock interval, in seconds.
    Time(u64),
}

/// Every failure a timelock operation can report. Each failed command leaves
/// the module's records unchanged.
#[derive(Clone, Copy, Debug, PartialEq, Eq, Structural)]
pub enum ContractError {
    /// The caller lacks the role (subdao or owner) the command requires.
    Unauthorized {},
    /// The command was attempted against a record not in the required status;
    /// carries the status the record actually had.
    WrongStatus { status: ProposalStatus },
    /// Execution was attempted before the lock interval elapsed.
    TimeLocked {},
    /// The parent proposal engine uses a block-height-based duration, which
    /// cannot be compared with the wall-clock timelock timestamp.
    CantCreateOverrule {},
    /// The referenced proposal id is unknown to this module.
    NoSuchProposal { id: u64 },
}

/// An arbitrary (key, value) entry registered in a core contract's item list
/// at instantiation time.
#[derive(Debug, PartialEq, Eq)]
pub struct InitialItem {
    /// The name of the item.
    pub key: String,
    /// The value the item holds at instantiation time.
    pub value: String,
}

/// Migration entry message of a governance module.
#[derive(Debug, PartialEq, Eq)]
pub enum MigrateMsg {
    FromV1 { dao_uri: Option<String> },
    FromCompatible {},
}

} // verus!
