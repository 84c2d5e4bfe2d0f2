use vstd::prelude::*;

use crate::node::{
    fresh_node, lemma_payout_never_overdraws, paid_amount, payout_due, product_fits,
    reported_node, NodeInfo,
};
use crate::settlement::{ReportEvent, SettlementError};

verus! {

/// The settlement contract's stored entries, with addresses as key bytes.
#[verifier::ext_equal]
pub struct ContractView {
    pub admin: Option<Seq<u8>>,
    pub oracle_contract: Option<Seq<u8>>,
    pub token: Option<Seq<u8>>,
    pub in_progress: Option<bool>,
    pub nodes: Map<Seq<u8>, NodeInfo>,
}

/// What a step of a report hands the host, with addresses as key bytes and
/// a payout as its amount (zero when nothing is paid).
pub enum StepOutcome {
    AskOracle(Seq<u8>),
    ReadBalance(Seq<u8>),
    Settled(int),
    Refused(SettlementError),
}

/// A request that changes the contract's entries, with addresses as key bytes.
pub enum Request {
    Initialize(Seq<u8>, Seq<u8>),
    SetToken(Seq<u8>, Seq<u8>),
    RegisterNode(Seq<u8>, Seq<u8>, u64, i128),
    ReportStep(Seq<u8>, u64, u64, ReportEvent),
}

impl ContractView {
    /// Whether the contract has been initialized.
    pub open spec fn is_initialized(self) -> bool {
        self.admin is Some
    }

    /// Whether a report is being settled; an unset guard counts as down.
    pub open spec fn guard_up(self) -> bool {
        self.in_progress == Some(true)
    }

    /// Whether `node` is registered.
    pub open spec fn registered(self, node: Seq<u8>) -> bool {
        self.nodes.contains_key(node)
    }

    /// The record of `node`.
    pub open spec fn node_info(self, node: Seq<u8>) -> NodeInfo {
        self.nodes[node]
    }

    /// Whether the payout for a verified report about `node` can be worked out:
    /// the node is registered, the scaled escrow fits, and a token is set
    /// when something is owed.
    pub open spec fn payout_defined(self, node: Seq<u8>, uptime: u64) -> bool {
        &&& self.registered(node)
        &&& product_fits(self.node_info(node), uptime)
        &&& payout_due(self.node_info(node), uptime) > 0 ==> self.token is Some
    }

    /// What a verified report pays, given the balance that was read when
    /// something is owed.
    pub open spec fn report_paid(
        self,
        node: Seq<u8>,
        uptime: u64,
        contract_balance: Option<i128>,
    ) -> int {
        let due = payout_due(self.node_info(node), uptime);
        match contract_balance {
            Some(b) => paid_amount(due, b as int),
            None => 0,
        }
    }

    /// Whether a verified report about `node` can be settled: the payout can
    /// be worked out, a balance was read exactly when something is owed, and
    /// the node's totals stay within the ledger's integers.
    pub open spec fn settle_defined(
        self,
        node: Seq<u8>,
        uptime: u64,
        contract_balance: Option<i128>,
    ) -> bool {
        let info = self.node_info(node);
        &&& self.payout_defined(node, uptime)
        &&& (payout_due(info, uptime) > 0 <==> contract_balance is Some)
        &&& info.total_paid + self.report_paid(node, uptime, contract_balance) <= i128::MAX
        &&& info.cumulative_uptime + uptime <= u64::MAX
    }

    /// Whether the next step of a report about `node` can be taken on `event`
    /// without the ledger stopping the contract: the oracle contract is known
    /// when a report opens, an answer comes while the report is open, and a
    /// verified report can be settled.
    pub open spec fn report_step_defined(self, node: Seq<u8>, uptime: u64, event: ReportEvent) -> bool {
        match event {
            ReportEvent::Submitted => self.guard_up() || self.oracle_contract is Some,
            ReportEvent::Verified(verified) => self.guard_up() && (verified ==> {
                &&& self.payout_defined(node, uptime)
                &&& payout_due(self.node_info(node), uptime) <= 0 ==> self.settle_defined(
                    node,
                    uptime,
                    None,
                )
            }),
            ReportEvent::Balance(balance) => self.guard_up() && self.settle_defined(
                node,
                uptime,
                Some(balance),
            ),
        }
    }

    /// Whether `other` holds the same administrator and oracle contract.
    pub open spec fn same_setup(self, other: ContractView) -> bool {
        self.admin == other.admin && self.oracle_contract == other.oracle_contract
    }
}

/// The entries after a verified report about `node` that paid `paid`: the
/// node's record is updated and the guard comes down.
pub open spec fn settled_view(
    v: ContractView,
    node: Seq<u8>,
    uptime: u64,
    timestamp: u64,
    paid: int,
) -> ContractView {
    ContractView {
        in_progress: Some(false),
        nodes: v.nodes.insert(node, reported_node(v.node_info(node), uptime, timestamp, paid)),
        ..v
    }
}

/// One step of a report about `node`: the entries after it and what it hands
/// the host.
pub open spec fn report_step(
    v: ContractView,
    node: Seq<u8>,
    uptime: u64,
    timestamp: u64,
    event: ReportEvent,
) -> (ContractView, StepOutcome) {
    match event {
        ReportEvent::Submitted => if v.guard_up() {
            (v, StepOutcome::Refused(SettlementError::Reentrancy))
        } else {
            (
                ContractView { in_progress: Some(true), ..v },
                StepOutcome::AskOracle(v.oracle_contract->0),
            )
        },
        ReportEvent::Verified(false) => (
            ContractView { in_progress: Some(false), ..v },
            StepOutcome::Refused(SettlementError::ReportNotVerified),
        ),
        ReportEvent::Verified(true) => if payout_due(v.node_info(node), uptime) > 0 {
            (v, StepOutcome::ReadBalance(v.token->0))
        } else {
            (settled_view(v, node, uptime, timestamp, 0), StepOutcome::Settled(0))
        },
        ReportEvent::Balance(balance) => {
            let paid = v.report_paid(node, uptime, Some(balance));
            (settled_view(v, node, uptime, timestamp, paid), StepOutcome::Settled(paid))
        },
    }
}

/// Initialization: refused once there is an administrator, else it stores
/// the administrator and oracle contract and lowers the guard.
pub open spec fn initialize_effect(v: ContractView, admin: Seq<u8>, oracle_contract: Seq<u8>) -> (
    ContractView,
    Result<(), SettlementError>,
) {
    if v.admin is Some {
        (v, Err(SettlementError::AlreadyInitialized))
    } else {
        (
            ContractView {
                admin: Some(admin),
                oracle_contract: Some(oracle_contract),
                in_progress: Some(false),
                ..v
            },
            Ok(()),
        )
    }
}

/// Setting the token: refused unless `caller` is the administrator.
pub open spec fn set_token_effect(v: ContractView, caller: Seq<u8>, token: Seq<u8>) -> (
    ContractView,
    Result<(), SettlementError>,
) {
    if v.admin != Some(caller) {
        (v, Err(SettlementError::Unauthorized))
    } else {
        (ContractView { token: Some(token), ..v }, Ok(()))
    }
}

/// Registering a node: refused unless `caller` is the administrator, else the
/// node's record starts afresh.
pub open spec fn register_effect(
    v: ContractView,
    caller: Seq<u8>,
    node: Seq<u8>,
    uptime_threshold: u64,
    escrow_amount: i128,
) -> (ContractView, Result<(), SettlementError>) {
    if v.admin != Some(caller) {
        (v, Err(SettlementError::Unauthorized))
    } else {
        (
            ContractView {
                nodes: v.nodes.insert(node, fresh_node(uptime_threshold, escrow_amount)),
                ..v
            },
            Ok(()),
        )
    }
}

/// The entries after a request. A request that the ledger would stop (one
/// whose precondition fails) is undone by the ledger and leaves them as
/// they were.
pub open spec fn apply(v: ContractView, req: Request) -> ContractView {
    match req {
        Request::Initialize(admin, oracle_contract) => initialize_effect(
            v,
            admin,
            oracle_contract,
        ).0,
        Request::SetToken(caller, token) => if v.is_initialized() {
            set_token_effect(v, caller, token).0
        } else {
            v
        },
        Request::RegisterNode(caller, node, threshold, escrow) => if v.is_initialized() {
            register_effect(v, caller, node, threshold, escrow).0
        } else {
            v
        },
        Request::ReportStep(node, uptime, timestamp, event) => if v.report_step_defined(
            node,
            uptime,
            event,
        ) {
            report_step(v, node, uptime, timestamp, event).0
        } else {
            v
        },
    }
}

/// The entries after a sequence of requests, taken in order.
pub open spec fn apply_all(v: ContractView, reqs: Seq<Request>) -> ContractView
    decreases reqs.len(),
{
    if reqs.len() == 0 {
        v
    } else {
        apply(apply_all(v, reqs.drop_last()), reqs.last())
    }
}

/// No request changes the administrator or the oracle contract once the
/// contract is initialized.
pub proof fn lemma_request_keeps_setup(v: ContractView, req: Request)
    requires
        v.is_initialized(),
    ensures
        apply(v, req).same_setup(v),
{
}

/// Once the contract is initialized, its administrator and oracle contract
/// stay the same through any sequence of requests.
pub proof fn lemma_setup_never_changes(v: ContractView, reqs: Seq<Request>)
    requires
        v.is_initialized(),
    ensures
        apply_all(v, reqs).same_setup(v),
    decreases reqs.len(),
{
    if reqs.len() > 0 {
        lemma_setup_never_changes(v, reqs.drop_last());
        lemma_request_keeps_setup(apply_all(v, reqs.drop_last()), reqs.last());
    }
}

/// After initializing a fresh contract with `admin` and `oracle_contract`,
/// every later sequence of requests leaves exactly those in place.
pub proof fn lemma_initialized_setup_stays(
    v: ContractView,
    admin: Seq<u8>,
    oracle_contract: Seq<u8>,
    reqs: Seq<Request>,
)
    requires
        !v.is_initialized(),
    ensures
        apply_all(apply(v, Request::Initialize(admin, oracle_contract)), reqs).admin == Some(
            admin,
        ),
        apply_all(apply(v, Request::Initialize(admin, oracle_contract)), reqs).oracle_contract
            == Some(oracle_contract),
{
    lemma_setup_never_changes(apply(v, Request::Initialize(admin, oracle_contract)), reqs);
}

/// A node that was just registered by the administrator reads back with its
/// terms and nothing reported or paid yet.
pub proof fn lemma_registered_node_reads_back(
    v: ContractView,
    node: Seq<u8>,
    uptime_threshold: u64,
    escrow_amount: i128,
)
    requires
        v.is_initialized(),
    ensures
        ({
            let after = register_effect(
                v,
                v.admin->0,
                node,
                uptime_threshold,
                escrow_amount,
            ).0;
            &&& after.registered(node)
            &&& after.node_info(node).uptime_threshold == uptime_threshold
            &&& after.node_info(node).escrow_amount == escrow_amount
            &&& after.node_info(node).last_report_time == 0
            &&& after.node_info(node).cumulative_uptime == 0
            &&& after.node_info(node).total_paid == 0
        }),
{
}

/// Registering a node, or any step of a report about it, leaves every other
/// node's record as it was.
pub proof fn lemma_other_nodes_unchanged(
    v: ContractView,
    caller: Seq<u8>,
    node: Seq<u8>,
    uptime_threshold: u64,
    escrow_amount: i128,
    uptime: u64,
    timestamp: u64,
    event: ReportEvent,
    other: Seq<u8>,
)
    requires
        other != node,
    ensures
        register_effect(v, caller, node, uptime_threshold, escrow_amount).0.registered(other)
            == v.registered(other),
        v.registered(other) ==> register_effect(
            v,
            caller,
            node,
            uptime_threshold,
            escrow_amount,
        ).0.node_info(other) == v.node_info(other),
        report_step(v, node, uptime, timestamp, event).0.registered(other) == v.registered(other),
        v.registered(other) ==> report_step(v, node, uptime, timestamp, event).0.node_info(other)
            == v.node_info(other),
{
}

/// A whole report, step by step. A report that arrives while another is
/// open is refused and changes nothing. Otherwise the guard goes up and the
/// oracle contract is asked, once: no later step asks again. A refusal by the
/// oracle lowers the guard and changes no record. A verified report that owes
/// nothing is settled at once; one that owes something asks for the balance
/// and is then settled, paying what is owed up to the balance. Every settled
/// report lowers the guard, and only the reported node's record changes.
pub proof fn lemma_whole_report(
    v: ContractView,
    node: Seq<u8>,
    uptime: u64,
    timestamp: u64,
    verified: bool,
    balance: i128,
)
    requires
        v.report_step_defined(node, uptime, ReportEvent::Submitted),
    ensures
        ({
            let (v1, o1) = report_step(v, node, uptime, timestamp, ReportEvent::Submitted);
            let (v2, o2) = report_step(
                v1,
                node,
                uptime,
                timestamp,
                ReportEvent::Verified(verified),
            );
            let (v3, o3) = report_step(v2, node, uptime, timestamp, ReportEvent::Balance(balance));
            let due = payout_due(v.node_info(node), uptime);
            let paid = paid_amount(due, balance as int);
            &&& v.guard_up() ==> v1 == v && o1 == StepOutcome::Refused(
                SettlementError::Reentrancy,
            )
            &&& !v.guard_up() ==> {
                &&& o1 == StepOutcome::AskOracle(v.oracle_contract->0)
                &&& v1.guard_up()
                &&& v1.nodes == v.nodes
                &&& v1.token == v.token
                &&& v1.same_setup(v)
                &&& v1.report_step_defined(node, uptime, ReportEvent::Verified(verified)) ==> {
                    &&& !(o2 is AskOracle)
                    &&& !verified ==> {
                        &&& o2 == StepOutcome::Refused(SettlementError::ReportNotVerified)
                        &&& !v2.guard_up()
                        &&& v2.nodes == v.nodes
                        &&& v2.token == v.token
                        &&& v2.same_setup(v)
                    }
                    &&& verified && due <= 0 ==> {
                        &&& o2 == StepOutcome::Settled(0)
                        &&& v2 == settled_view(v, node, uptime, timestamp, 0)
                        &&& !v2.guard_up()
                    }
                    &&& verified && due > 0 ==> {
                        &&& o2 == StepOutcome::ReadBalance(v.token->0)
                        &&& v2 == v1
                        &&& v2.report_step_defined(node, uptime, ReportEvent::Balance(balance))
                            ==> {
                            &&& o3 == StepOutcome::Settled(paid)
                            &&& v3 == settled_view(v, node, uptime, timestamp, paid)
                            &&& !v3.guard_up()
                            &&& 0 <= paid <= due
                            &&& balance >= 0 ==> paid <= balance
                        }
                    }
                }
            }
        }),
{
    let (v1, o1) = report_step(v, node, uptime, timestamp, ReportEvent::Submitted);
    let (v2, o2) = report_step(v1, node, uptime, timestamp, ReportEvent::Verified(verified));
    let due = payout_due(v.node_info(node), uptime);
    lemma_payout_never_overdraws(due, balance as int);
    if !v.guard_up() {
        assert(settled_view(v1, node, uptime, timestamp, 0) =~= settled_view(
            v,
            node,
            uptime,
            timestamp,
            0,
        ));
        if verified && due > 0 {
            assert(settled_view(v2, node, uptime, timestamp, paid_amount(due, balance as int))
                =~= settled_view(v, node, uptime, timestamp, paid_amount(due, balance as int)));
        }
    }
}

/// What any step of a report does to the records. A step that does not
/// settle the report leaves every record as it was. A step that settles it
/// keeps the node registered with its threshold and escrow, sets its latest
/// report time to the report's timestamp, adds the report's uptime to its
/// cumulative uptime (whether or not the uptime meets the threshold) and adds
/// exactly what was paid to its total, and the guard comes down. A verified
/// report is settled at once, paying nothing, exactly when it is below the
/// threshold or its scaled escrow is under one unit; otherwise the contract's
/// balance is read, and the payment is the escrow times the uptime over 10000
/// (rounded down), capped by that balance and never negative.
pub proof fn lemma_report_step_record(
    v: ContractView,
    node: Seq<u8>,
    uptime: u64,
    timestamp: u64,
    event: ReportEvent,
)
    requires
        v.report_step_defined(node, uptime, event),
    ensures
        ({
            let after = report_step(v, node, uptime, timestamp, event).0;
            let outcome = report_step(v, node, uptime, timestamp, event).1;
            let before = v.nodes[node];
            &&& !(outcome is Settled) ==> after.nodes == v.nodes
            &&& (event == ReportEvent::Verified(true) && outcome is ReadBalance) ==> {
                &&& outcome == StepOutcome::ReadBalance(v.token->0)
                &&& uptime >= before.uptime_threshold
                &&& before.escrow_amount * uptime >= 10000
            }
            &&& outcome matches StepOutcome::Settled(paid) ==> {
                &&& v.nodes.contains_key(node)
                &&& after.nodes.contains_key(node)
                &&& after.nodes[node].uptime_threshold == before.uptime_threshold
                &&& after.nodes[node].escrow_amount == before.escrow_amount
                &&& after.nodes[node].last_report_time == timestamp
                &&& after.nodes[node].cumulative_uptime == before.cumulative_uptime + uptime
                &&& after.nodes[node].total_paid == before.total_paid + paid
                &&& paid >= 0
                &&& uptime < before.uptime_threshold ==> paid == 0
                &&& (event matches ReportEvent::Balance(balance) ==> (paid > 0 ==> paid <= balance))
                &&& (event == ReportEvent::Verified(true) ==> paid == 0 && (uptime
                    < before.uptime_threshold || before.escrow_amount * uptime < 10000))
                &&& (event matches ReportEvent::Balance(balance) ==> {
                    let owed = before.escrow_amount * uptime / 10000;
                    &&& uptime >= before.uptime_threshold
                    &&& before.escrow_amount * uptime >= 10000
                    &&& paid == (if owed <= balance {
                        owed
                    } else if balance > 0 {
                        balance as int
                    } else {
                        0
                    })
                })
                &&& !after.guard_up()
                &&& forall|other: Seq<u8>|
                    other != node ==> after.nodes.contains_key(other) == v.nodes.contains_key(
                        other,
                    ) && (v.nodes.contains_key(other) ==> after.nodes[other] == v.nodes[other])
            }
        }),
{
    let due = payout_due(v.node_info(node), uptime);
    match event {
        ReportEvent::Balance(balance) => {
            lemma_payout_never_overdraws(due, balance as int);
        },
        _ => {},
    }
}

} // verus!
