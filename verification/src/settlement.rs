use vstd::prelude::*;

use crate::address::Address;
use crate::address_map::AddressMap;
use crate::model::{
    initialize_effect, register_effect, report_step, set_token_effect, ContractView, StepOutcome,
};
use crate::node::{fresh_node, paid_amount, payout_due, product_fits, reported_node, NodeInfo, BPS_SCALE};

verus! {

/// Why the settlement contract refused a request.
#[derive(Clone, Copy, Debug, PartialEq, Eq, PartialOrd, Ord)]
pub enum SettlementError {
    /// The contract already has an administrator.
    AlreadyInitialized,
    /// Reserved under its number; no request returns it.
    NotInitialized,
    /// The caller is not the administrator.
    Unauthorized,
    /// The node is not registered.
    NodeNotFound,
    /// The oracle did not vouch for the report.
    ReportNotVerified,
    /// Reserved under its number; no request returns it.
    NoFunds,
    /// A report arrived while another was being settled.
    Reentrancy,
}

impl SettlementError {
    /// The number under which the ledger reports this error.
    pub open spec fn error_code(&self) -> u32 {
        match self {
            SettlementError::AlreadyInitialized => 1,
            SettlementError::NotInitialized => 2,
            SettlementError::Unauthorized => 3,
            SettlementError::NodeNotFound => 4,
            SettlementError::ReportNotVerified => 5,
            SettlementError::NoFunds => 6,
            SettlementError::Reentrancy => 7,
        }
    }

    /// The number under which the ledger reports this error.
    pub fn code(&self) -> (c: u32)
        ensures
            c == self.error_code(),
    {
        match self {
            SettlementError::AlreadyInitialized => 1,
            SettlementError::NotInitialized => 2,
            SettlementError::Unauthorized => 3,
            SettlementError::NodeNotFound => 4,
            SettlementError::ReportNotVerified => 5,
            SettlementError::NoFunds => 6,
            SettlementError::Reentrancy => 7,
        }
    }
}

/// The key bytes of an optional address.
pub open spec fn key_of(a: Option<Address>) -> Option<Seq<u8>> {
    match a {
        Some(a) => Some(a@),
        None => None,
    }
}

/// A transfer of tokens from a depositor to the settlement contract.
#[derive(Debug)]
pub struct DepositTransfer {
    /// The token contract that moves the funds.
    pub token: Address,
    /// The account that pays.
    pub from: Address,
    /// The amount moved.
    pub amount: i128,
}

/// A transfer of tokens from the settlement contract to a node.
#[derive(Debug)]
pub struct PayoutTransfer {
    /// The token contract that moves the funds.
    pub token: Address,
    /// The node that is paid.
    pub to: Address,
    /// The amount moved.
    pub amount: i128,
}

/// What a verified report owes, before the contract's balance caps it.
enum PayoutPlan {
    /// Nothing is owed.
    Nothing,
    /// `amount` is owed; the contract's balance in `token` caps what is paid.
    Owed { token: Address, amount: i128 },
}

/// An uptime report about a node, as submitted by an oracle.
pub struct OracleReport {
    /// The node the report is about.
    pub node: Address,
    /// The node's uptime, in basis points.
    pub uptime: u64,
    /// When the uptime was measured.
    pub timestamp: u64,
    /// The oracle's signature over the report.
    pub signature: [u8; 64],
}

/// What the host learned since the previous step of a report.
#[derive(Clone, Copy, Debug, PartialEq, Eq)]
pub enum ReportEvent {
    /// The report has just been submitted.
    Submitted,
    /// The oracle contract answered whether it vouches for the report.
    Verified(bool),
    /// The contract's balance in its token was read.
    Balance(i128),
}

/// What the host must do next for a report.
#[derive(Debug)]
pub enum ReportAction {
    /// Ask the oracle contract `oracle` to verify the report's node, uptime,
    /// timestamp and signature, and come back with its answer.
    AskOracle { oracle: Address, node: Address, uptime: u64, timestamp: u64, signature: [u8; 64] },
    /// Read the contract's balance in this token, and come back with it.
    ReadBalance(Address),
    /// The report is settled; make the payout, if there is one.
    Settled(Option<PayoutTransfer>),
    /// The report is refused.
    Refused(SettlementError),
}

/// What an action hands the host, as the report model describes it.
pub open spec fn outcome_of(a: ReportAction) -> StepOutcome {
    match a {
        ReportAction::AskOracle { oracle, .. } => StepOutcome::AskOracle(oracle@),
        ReportAction::ReadBalance(token) => StepOutcome::ReadBalance(token@),
        ReportAction::Settled(None) => StepOutcome::Settled(0),
        ReportAction::Settled(Some(t)) => StepOutcome::Settled(t.amount as int),
        ReportAction::Refused(e) => StepOutcome::Refused(e),
    }
}

/// The state of the settlement contract: each entry that the contract keeps
/// on the ledger, absent until it is first written.
pub struct SettlementContract {
    /// The administrator, set once at initialization.
    pub admin: Option<Address>,
    /// The oracle contract that verifies uptime reports.
    pub oracle_contract: Option<Address>,
    /// The token in which deposits and payouts are made.
    pub token: Option<Address>,
    /// The guard that is up while an oracle report is being settled.
    pub in_progress: Option<bool>,
    /// The registered nodes.
    pub nodes: AddressMap<NodeInfo>,
}

impl View for SettlementContract {
    type V = ContractView;

    open spec fn view(&self) -> ContractView {
        ContractView {
            admin: key_of(self.admin),
            oracle_contract: key_of(self.oracle_contract),
            token: key_of(self.token),
            in_progress: self.in_progress,
            nodes: self.nodes@,
        }
    }
}

impl SettlementContract {
    /// Whether the contract has been initialized.
    pub open spec fn is_initialized(&self) -> bool {
        self@.is_initialized()
    }

    /// Whether a report is being settled; an unset guard counts as down.
    pub open spec fn guard_up(&self) -> bool {
        self@.guard_up()
    }

    /// Whether `node` is registered.
    pub open spec fn registered(&self, node: Seq<u8>) -> bool {
        self@.registered(node)
    }

    /// The record of `node`.
    pub open spec fn node_info(&self, node: Seq<u8>) -> NodeInfo {
        self@.node_info(node)
    }

    /// Whether the payout for a verified report about `node` can be worked out.
    pub open spec fn payout_defined(&self, node: Seq<u8>, uptime: u64) -> bool {
        self@.payout_defined(node, uptime)
    }

    /// What a verified report pays, given the balance read for it.
    pub open spec fn report_paid(
        &self,
        node: Seq<u8>,
        uptime: u64,
        contract_balance: Option<i128>,
    ) -> int {
        self@.report_paid(node, uptime, contract_balance)
    }

    /// Whether a verified report about `node` can be settled.
    pub open spec fn settle_defined(
        &self,
        node: Seq<u8>,
        uptime: u64,
        contract_balance: Option<i128>,
    ) -> bool {
        self@.settle_defined(node, uptime, contract_balance)
    }

    /// The payout that a verified report of `uptime` owes a node with record
    /// `info`, or `None` when the scaled escrow overflows.
    fn compute_payout_due(info: &NodeInfo, uptime: u64) -> (r: Option<i128>)
        ensures
            r is None <==> !product_fits(*info, uptime),
            r matches Some(due) ==> due == payout_due(*info, uptime),
    {
        if uptime < info.uptime_threshold {
            return Some(0);
        }
        match info.escrow_amount.checked_mul(uptime as i128) {
            Some(product) => Some(product / BPS_SCALE),
            None => None,
        }
    }

    /// Whether `other` holds the same administrator, oracle, token and nodes.
    pub open spec fn same_entries_but_guard(&self, other: &SettlementContract) -> bool {
        &&& self.admin == other.admin
        &&& self.oracle_contract == other.oracle_contract
        &&& self.token == other.token
        &&& self.nodes@ == other.nodes@
    }

    /// Whether the next step of a report about `node` can be taken on `event`.
    pub open spec fn report_step_defined(&self, node: Seq<u8>, uptime: u64, event: ReportEvent) -> bool {
        self@.report_step_defined(node, uptime, event)
    }

    /// A contract with nothing stored yet.
    pub fn new() -> (c: Self)
        ensures
            c.admin is None,
            c.oracle_contract is None,
            c.token is None,
            c.in_progress is None,
            c.nodes@ == Map::<Seq<u8>, NodeInfo>::empty(),
    {
        SettlementContract {
            admin: None,
            oracle_contract: None,
            token: None,
            in_progress: None,
            nodes: AddressMap::new(),
        }
    }

    /// Stores the administrator and the oracle contract, and lowers the
    /// report guard; refused once the contract has an administrator.
    pub fn initialize(&mut self, admin: Address, oracle_contract: Address) -> (r: Result<
        (),
        SettlementError,
    >)
        ensures
            final(self)@ == initialize_effect(old(self)@, admin@, oracle_contract@).0,
            r == initialize_effect(old(self)@, admin@, oracle_contract@).1,
            old(self).is_initialized() ==> r == Err::<(), SettlementError>(
                SettlementError::AlreadyInitialized,
            ) && *final(self) == *old(self),
            !old(self).is_initialized() ==> r == Ok::<(), SettlementError>(()) && key_of(final(self).admin) == Some(admin@) && key_of(final(self).oracle_contract) == Some(oracle_contract@)
                && final(self).in_progress == Some(false) && final(self).token == old(self).token
                && final(self).nodes@ == old(self).nodes@,
    {
        if self.admin.is_some() {
            return Err(SettlementError::AlreadyInitialized);
        }
        self.admin = Some(admin);
        self.oracle_contract = Some(oracle_contract);
        self.in_progress = Some(false);
        Ok(())
    }

    /// Whether `caller` is the administrator.
    fn is_admin(&self, caller: &Address) -> (r: bool)
        requires
            self.is_initialized(),
        ensures
            r == (key_of(self.admin) == Some(caller@)),
    {
        match &self.admin {
            Some(stored) => stored.same_as(caller),
            None => false,
        }
    }

    /// Sets the token of deposits and payouts, provided `admin` is the
    /// administrator.
    pub fn set_token(&mut self, admin: &Address, token: Address) -> (r: Result<(), SettlementError>)
        requires
            old(self).is_initialized(),
        ensures
            final(self)@ == set_token_effect(old(self)@, admin@, token@).0,
            r == set_token_effect(old(self)@, admin@, token@).1,
            key_of(old(self).admin) != Some(admin@) ==> r == Err::<(), SettlementError>(
                SettlementError::Unauthorized,
            ) && *final(self) == *old(self),
            key_of(old(self).admin) == Some(admin@) ==> r == Ok::<(), SettlementError>(())
                && key_of(final(self).token) == Some(token@) && final(self).admin == old(self).admin && final(self).oracle_contract == old(self).oracle_contract && final(self).in_progress == old(self).in_progress && final(self).nodes@ == old(self).nodes@,
    {
        if !self.is_admin(admin) {
            return Err(SettlementError::Unauthorized);
        }
        self.token = Some(token);
        Ok(())
    }

    /// Registers `node` with its uptime threshold and escrow, provided
    /// `admin` is the administrator; a node registered again starts afresh.
    pub fn register_node(
        &mut self,
        admin: &Address,
        node: Address,
        uptime_threshold: u64,
        escrow_amount: i128,
    ) -> (r: Result<(), SettlementError>)
        requires
            old(self).is_initialized(),
        ensures
            final(self)@ == register_effect(
                old(self)@,
                admin@,
                node@,
                uptime_threshold,
                escrow_amount,
            ).0,
            r == register_effect(old(self)@, admin@, node@, uptime_threshold, escrow_amount).1,
            key_of(old(self).admin) != Some(admin@) ==> r == Err::<(), SettlementError>(
                SettlementError::Unauthorized,
            ) && *final(self) == *old(self),
            key_of(old(self).admin) == Some(admin@) ==> r == Ok::<(), SettlementError>(())
                && final(self).nodes@ == old(self).nodes@.insert(
                node@,
                fresh_node(uptime_threshold, escrow_amount),
            ) && final(self).admin == old(self).admin && final(self).oracle_contract == old(self).oracle_contract && final(self).token == old(self).token && final(self).in_progress
                == old(self).in_progress,
    {
        if !self.is_admin(admin) {
            return Err(SettlementError::Unauthorized);
        }
        let info = NodeInfo {
            uptime_threshold,
            escrow_amount,
            last_report_time: 0,
            cumulative_uptime: 0,
            total_paid: 0,
        };
        self.nodes.set(node, info);
        Ok(())
    }

    /// The transfer that a deposit of `amount` by `from` makes into the
    /// contract; none when the amount is not positive.
    pub fn deposit(&self, from: Address, amount: i128) -> (r: Option<DepositTransfer>)
        requires
            amount > 0 ==> self.token is Some,
        ensures
            r is None <==> amount <= 0,
            r matches Some(t) ==> key_of(self.token) == Some(t.token@) && t.from@ == from@
                && t.amount == amount,
    {
        if amount <= 0 {
            return None;
        }
        let token = self.token.as_ref().unwrap().duplicate();
        Some(DepositTransfer { token, from, amount })
    }

    /// Raises the report guard and names the oracle contract that must
    /// verify the report; refused while the guard is up.
    fn begin_report(&mut self) -> (r: Result<Address, SettlementError>)
        requires
            old(self).guard_up() || old(self).oracle_contract is Some,
        ensures
            old(self).guard_up() ==> r == Err::<Address, SettlementError>(
                SettlementError::Reentrancy,
            ) && *final(self) == *old(self),
            !old(self).guard_up() ==> (r matches Ok(oracle) && key_of(old(self).oracle_contract)
                == Some(oracle@) && final(self).in_progress == Some(true)
                && final(self).same_entries_but_guard(old(self))),
    {
        let up = match self.in_progress {
            Some(flag) => flag,
            None => false,
        };
        if up {
            return Err(SettlementError::Reentrancy);
        }
        self.in_progress = Some(true);
        let oracle = self.oracle_contract.as_ref().unwrap().duplicate();
        Ok(oracle)
    }

    /// What a verified report of `uptime` about `node` owes; `None` where the
    /// payout cannot be worked out (unregistered node, overflowing escrow,
    /// or no token while something is owed).
    fn plan_payout(&self, node: &Address, uptime: u64) -> (r: Option<PayoutPlan>)
        ensures
            r is None <==> !self.payout_defined(node@, uptime),
            r matches Some(PayoutPlan::Nothing) ==> payout_due(self.node_info(node@), uptime)
                <= 0,
            r matches Some(PayoutPlan::Owed { token, amount }) ==> payout_due(
                self.node_info(node@),
                uptime,
            ) > 0 && amount == payout_due(self.node_info(node@), uptime) && key_of(self.token)
                == Some(token@),
    {
        let info = match self.nodes.get(node) {
            Some(info) => info,
            None => return None,
        };
        let due = match Self::compute_payout_due(&info, uptime) {
            Some(due) => due,
            None => return None,
        };
        if due <= 0 {
            return Some(PayoutPlan::Nothing);
        }
        match &self.token {
            Some(token) => Some(PayoutPlan::Owed { token: token.duplicate(), amount: due }),
            None => None,
        }
    }

    /// Whether a verified report can be settled with the balance read for it.
    fn can_settle_report(
        &self,
        node: &Address,
        uptime: u64,
        contract_balance: Option<i128>,
    ) -> (r: bool)
        ensures
            r == self.settle_defined(node@, uptime, contract_balance),
    {
        let info = match self.nodes.get(node) {
            Some(info) => info,
            None => return false,
        };
        let due = match Self::compute_payout_due(&info, uptime) {
            Some(due) => due,
            None => return false,
        };
        if due > 0 && self.token.is_none() {
            return false;
        }
        if (due > 0) != contract_balance.is_some() {
            return false;
        }
        let paid: i128 = match contract_balance {
            Some(balance) => {
                if due > 0 {
                    let capped = if due > balance {
                        balance
                    } else {
                        due
                    };
                    if capped > 0 {
                        capped
                    } else {
                        0
                    }
                } else {
                    0
                }
            },
            None => 0,
        };
        if info.total_paid.checked_add(paid).is_none() {
            return false;
        }
        info.cumulative_uptime.checked_add(uptime).is_some()
    }

    /// Settles an oracle report about `node` once the oracle has answered
    /// `verified`. A verified report records its timestamp and uptime and
    /// pays what is owed, capped by `contract_balance`; an unverified one is
    /// refused. Either way the report guard comes down.
    fn settle_report(
        &mut self,
        node: &Address,
        uptime: u64,
        timestamp: u64,
        verified: bool,
        contract_balance: Option<i128>,
    ) -> (r: Result<Option<PayoutTransfer>, SettlementError>)
        requires
            verified ==> old(self).settle_defined(node@, uptime, contract_balance),
        ensures
            final(self).in_progress == Some(false),
            final(self).admin == old(self).admin,
            final(self).oracle_contract == old(self).oracle_contract,
            final(self).token == old(self).token,
            !verified ==> r == Err::<Option<PayoutTransfer>, SettlementError>(
                SettlementError::ReportNotVerified,
            ) && final(self).nodes@ == old(self).nodes@,
            verified ==> r is Ok && final(self).nodes@ == old(self).nodes@.insert(
                node@,
                reported_node(
                    old(self).node_info(node@),
                    uptime,
                    timestamp,
                    old(self).report_paid(node@, uptime, contract_balance),
                ),
            ),
            verified ==> (r matches Ok(t) && (t is Some <==> old(self).report_paid(
                node@,
                uptime,
                contract_balance,
            ) > 0)),
            r matches Ok(Some(t)) ==> t.to@ == node@ && key_of(old(self).token) == Some(t.token@)
                && t.amount == old(self).report_paid(node@, uptime, contract_balance),
    {
        if !verified {
            self.in_progress = Some(false);
            return Err(SettlementError::ReportNotVerified);
        }
        let mut info = self.nodes.get(node).unwrap();
        let due = Self::compute_payout_due(&info, uptime).unwrap();
        let mut transfer: Option<PayoutTransfer> = None;
        if due > 0 {
            let balance = contract_balance.unwrap();
            let capped = if due > balance {
                balance
            } else {
                due
            };
            if capped > 0 {
                let token = self.token.as_ref().unwrap().duplicate();
                transfer = Some(PayoutTransfer { token, to: node.duplicate(), amount: capped });
                info.total_paid = info.total_paid + capped;
            }
        }
        info.last_report_time = timestamp;
        info.cumulative_uptime = info.cumulative_uptime + uptime;
        self.nodes.set(node.duplicate(), info);
        self.in_progress = Some(false);
        Ok(transfer)
    }

    /// Whether the next step of `report` can be taken on `event`.
    pub fn report_step_ready(&self, report: &OracleReport, event: ReportEvent) -> (r: bool)
        ensures
            r == self.report_step_defined(report.node@, report.uptime, event),
    {
        match event {
            ReportEvent::Submitted => {
                let up = match self.in_progress {
                    Some(flag) => flag,
                    None => false,
                };
                up || self.oracle_contract.is_some()
            },
            ReportEvent::Verified(verified) => {
                let up = match self.in_progress {
                    Some(flag) => flag,
                    None => false,
                };
                if !up {
                    return false;
                }
                if !verified {
                    return true;
                }
                match self.plan_payout(&report.node, report.uptime) {
                    None => false,
                    Some(PayoutPlan::Nothing) => self.can_settle_report(
                        &report.node,
                        report.uptime,
                        None,
                    ),
                    Some(PayoutPlan::Owed { .. }) => true,
                }
            },
            ReportEvent::Balance(balance) => {
                let up = match self.in_progress {
                    Some(flag) => flag,
                    None => false,
                };
                up && self.can_settle_report(&report.node, report.uptime, Some(balance))
            },
        }
    }

    /// Takes the next step of an oracle report. A submitted report raises
    /// the report guard, unless it is up already, and asks the oracle; a
    /// report the oracle refuses is refused; a verified report that owes
    /// something asks for the balance; the report is then settled: its
    /// timestamp and uptime are recorded, what is owed is paid up to the
    /// balance, and the guard comes down.
    pub fn submit_oracle_report(&mut self, report: &OracleReport, event: ReportEvent) -> (a:
        ReportAction)
        requires
            old(self).report_step_defined(report.node@, report.uptime, event),
        ensures
            final(self)@ == report_step(
                old(self)@,
                report.node@,
                report.uptime,
                report.timestamp,
                event,
            ).0,
            outcome_of(a) == report_step(
                old(self)@,
                report.node@,
                report.uptime,
                report.timestamp,
                event,
            ).1,
            a matches ReportAction::AskOracle { node, uptime, timestamp, signature, .. } ==> node@
                == report.node@ && uptime == report.uptime && timestamp == report.timestamp
                && signature == report.signature,
            a matches ReportAction::Settled(Some(t)) ==> t.to@ == report.node@ && old(
                self,
            )@.token == Some(t.token@) && t.amount > 0,
            !(a is Settled) ==> final(self)@.nodes == old(self)@.nodes,
            a matches ReportAction::Settled(t) ==> {
                let before = old(self)@.nodes[report.node@];
                let after = final(self)@.nodes[report.node@];
                &&& final(self)@.nodes.contains_key(report.node@)
                &&& after.uptime_threshold == before.uptime_threshold
                &&& after.escrow_amount == before.escrow_amount
                &&& after.last_report_time == report.timestamp
                &&& after.cumulative_uptime == before.cumulative_uptime + report.uptime
                &&& (t is None ==> after.total_paid == before.total_paid)
                &&& (t matches Some(x) ==> after.total_paid == before.total_paid + x.amount
                    && report.uptime >= before.uptime_threshold)
                &&& final(self).in_progress == Some(false)
            },
    {
        match event {
            ReportEvent::Submitted => match self.begin_report() {
                Ok(oracle) => ReportAction::AskOracle {
                    oracle,
                    node: report.node.duplicate(),
                    uptime: report.uptime,
                    timestamp: report.timestamp,
                    signature: report.signature,
                },
                Err(e) => ReportAction::Refused(e),
            },
            ReportEvent::Verified(false) => {
                match self.settle_report(&report.node, report.uptime, report.timestamp, false, None) {
                    Ok(t) => ReportAction::Settled(t),
                    Err(e) => ReportAction::Refused(e),
                }
            },
            ReportEvent::Verified(true) => {
                match self.plan_payout(&report.node, report.uptime).unwrap() {
                    PayoutPlan::Owed { token, .. } => ReportAction::ReadBalance(token),
                    PayoutPlan::Nothing => {
                        match self.settle_report(
                            &report.node,
                            report.uptime,
                            report.timestamp,
                            true,
                            None,
                        ) {
                            Ok(t) => ReportAction::Settled(t),
                            Err(e) => ReportAction::Refused(e),
                        }
                    },
                }
            },
            ReportEvent::Balance(balance) => {
                match self.settle_report(
                    &report.node,
                    report.uptime,
                    report.timestamp,
                    true,
                    Some(balance),
                ) {
                    Ok(t) => ReportAction::Settled(t),
                    Err(e) => ReportAction::Refused(e),
                }
            },
        }
    }

    /// The record of `node`; refused when the node is not registered.
    pub fn get_node_info(&self, node: &Address) -> (r: Result<NodeInfo, SettlementError>)
        ensures
            self.registered(node@) ==> r == Ok::<NodeInfo, SettlementError>(
                self.node_info(node@),
            ),
            !self.registered(node@) ==> r == Err::<NodeInfo, SettlementError>(
                SettlementError::NodeNotFound,
            ),
    {
        match self.nodes.get(node) {
            Some(info) => Ok(info),
            None => Err(SettlementError::NodeNotFound),
        }
    }

    /// The administrator.
    pub fn get_admin(&self) -> (a: Address)
        requires
            self.admin is Some,
        ensures
            key_of(self.admin) == Some(a@),
    {
        self.admin.as_ref().unwrap().duplicate()
    }

    /// The oracle contract that verifies reports.
    pub fn get_oracle_contract(&self) -> (a: Address)
        requires
            self.oracle_contract is Some,
        ensures
            key_of(self.oracle_contract) == Some(a@),
    {
        self.oracle_contract.as_ref().unwrap().duplicate()
    }

    /// The token whose balance held by the contract is its balance.
    pub fn balance_token(&self) -> (a: Address)
        requires
            self.token is Some,
        ensures
            key_of(self.token) == Some(a@),
    {
        self.token.as_ref().unwrap().duplicate()
    }
}

/// Each error has a code of its own, from 1 to 7.
pub proof fn lemma_error_codes_distinct(a: SettlementError, b: SettlementError)
    ensures
        1 <= a.error_code() <= 7,
        a != b ==> a.error_code() != b.error_code(),
{
}

} // verus!
