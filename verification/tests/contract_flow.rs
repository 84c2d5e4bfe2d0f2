use settlement::{
    Address, MockOracle, NodeInfo, OracleReport, ReportAction, ReportEvent, SettlementContract,
    SettlementError,
};

/// Balances of the one token that the tests deposit and pay out in.
struct Ledger {
    balances: Vec<(Address, i128)>,
}

impl Ledger {
    fn balance(&self, who: &Address) -> i128 {
        self.balances
            .iter()
            .find(|(a, _)| a == who)
            .map(|(_, b)| *b)
            .unwrap_or(0)
    }

    fn credit(&mut self, who: &Address, amount: i128) {
        match self.balances.iter_mut().find(|(a, _)| a == who) {
            Some(entry) => entry.1 += amount,
            None => self.balances.push((who.clone(), amount)),
        }
    }

    fn mint(&mut self, to: &Address, amount: i128) {
        self.credit(to, amount);
    }

    fn transfer(&mut self, from: &Address, to: &Address, amount: i128) {
        assert!(self.balance(from) >= amount, "balance is not sufficient");
        self.credit(from, -amount);
        self.credit(to, amount);
    }
}

/// The two contracts and the token, run the way the host runs them.
struct World {
    settlement: SettlementContract,
    settlement_id: Address,
    oracle: Option<MockOracle>,
    oracle_id: Address,
    token_id: Address,
    ledger: Ledger,
}

fn addr(tag: u8) -> Address {
    let mut bytes = b"GTESTACCOUNT".to_vec();
    bytes.push(tag);
    Address::from_bytes(bytes)
}

fn empty_world() -> World {
    World {
        settlement: SettlementContract::new(),
        settlement_id: addr(100),
        oracle: None,
        oracle_id: addr(101),
        token_id: addr(102),
        ledger: Ledger { balances: Vec::new() },
    }
}

fn deposit(world: &mut World, from: &Address, amount: i128) -> Result<(), &'static str> {
    match world.settlement.deposit(from.clone(), amount) {
        None => Err("amount must be positive"),
        Some(t) => {
            assert_eq!(t.token, world.token_id);
            world.ledger.transfer(&t.from, &world.settlement_id, t.amount);
            Ok(())
        }
    }
}

fn get_balance(world: &World) -> i128 {
    assert_eq!(world.settlement.balance_token(), world.token_id);
    world.ledger.balance(&world.settlement_id)
}

fn submit_oracle_report(
    world: &mut World,
    _oracle: &Address,
    node: &Address,
    uptime: u64,
    timestamp: u64,
    signature: &[u8; 64],
) -> Result<(), SettlementError> {
    let report = OracleReport { node: node.clone(), uptime, timestamp, signature: *signature };
    let mut event = ReportEvent::Submitted;
    loop {
        assert!(world.settlement.report_step_ready(&report, event));
        match world.settlement.submit_oracle_report(&report, event) {
            ReportAction::AskOracle { oracle: oracle_contract, node, uptime, timestamp, signature } => {
                assert_eq!(oracle_contract, world.oracle_id);
                assert_eq!(node, report.node);
                assert_eq!((uptime, timestamp, signature), (report.uptime, report.timestamp, report.signature));
                let oracle = world.oracle.as_ref().expect("oracle is initialized");
                event = ReportEvent::Verified(oracle.verify(&node, uptime, timestamp, &signature));
            }
            ReportAction::ReadBalance(token) => {
                assert_eq!(token, world.token_id);
                event = ReportEvent::Balance(world.ledger.balance(&world.settlement_id));
            }
            ReportAction::Settled(payout) => {
                if let Some(t) = payout {
                    assert_eq!(t.token, world.token_id);
                    world.ledger.transfer(&world.settlement_id, &t.to, t.amount);
                }
                return Ok(());
            }
            ReportAction::Refused(error) => return Err(error),
        }
    }
}

fn setup_test_env() -> (World, Address, Address, Address, Address) {
    let mut world = empty_world();
    let admin = addr(1);
    let node = addr(2);
    let oracle = addr(3);
    let user = addr(4);

    let mut oracle_state = MockOracle::initialize(admin.clone());
    oracle_state.authorize_signer(&admin, node.clone()).unwrap();
    world.oracle = Some(oracle_state);

    world
        .settlement
        .initialize(admin.clone(), world.oracle_id.clone())
        .unwrap();

    world.ledger.mint(&user, 100_000_000);
    world.ledger.mint(&admin, 100_000_000);

    let token = world.token_id.clone();
    world.settlement.set_token(&admin, token).unwrap();

    (world, admin, node, oracle, user)
}

const SIGNATURE: [u8; 64] = [0u8; 64];

#[test]
fn test_initialize() {
    let mut world = empty_world();
    let admin = addr(1);
    let oracle_contract = addr(9);

    world
        .settlement
        .initialize(admin.clone(), oracle_contract.clone())
        .unwrap();
    assert_eq!(world.settlement.get_admin(), admin);
    assert_eq!(world.settlement.get_oracle_contract(), oracle_contract);
}

#[test]
fn test_initialize_twice() {
    let mut world = empty_world();
    let admin = addr(1);
    let oracle_contract = addr(9);

    world
        .settlement
        .initialize(admin.clone(), oracle_contract.clone())
        .unwrap();
    let second = world.settlement.initialize(admin.clone(), oracle_contract.clone());
    assert_eq!(second, Err(SettlementError::AlreadyInitialized));
    assert_eq!(SettlementError::AlreadyInitialized.code(), 1);
}

#[test]
fn test_register_node() {
    let (mut world, admin, node, _oracle, _user) = setup_test_env();

    world
        .settlement
        .register_node(&admin, node.clone(), 9000, 100_000)
        .unwrap();

    let info = world.settlement.get_node_info(&node).unwrap();
    assert_eq!(info.uptime_threshold, 9000);
    assert_eq!(info.escrow_amount, 100_000);
    assert_eq!(info.last_report_time, 0);
    assert_eq!(info.cumulative_uptime, 0);
    assert_eq!(info.total_paid, 0);
}

#[test]
fn test_register_node_unauthorized() {
    let (mut world, _admin, node, _oracle, user) = setup_test_env();

    let r = world.settlement.register_node(&user, node.clone(), 9000, 100_000);
    assert_eq!(r, Err(SettlementError::Unauthorized));
    assert_eq!(SettlementError::Unauthorized.code(), 3);
    assert_eq!(
        world.settlement.get_node_info(&node),
        Err(SettlementError::NodeNotFound)
    );
}

#[test]
fn test_get_nonexistent_node() {
    let (world, _admin, _node, _oracle, _user) = setup_test_env();

    let ghost = addr(77);
    let r = world.settlement.get_node_info(&ghost);
    assert_eq!(r, Err(SettlementError::NodeNotFound));
    assert_eq!(SettlementError::NodeNotFound.code(), 4);
}

#[test]
fn test_deposit() {
    let (mut world, _admin, _node, _oracle, user) = setup_test_env();

    let user_balance_before = world.ledger.balance(&user);
    let contract_balance_before = world.ledger.balance(&world.settlement_id);

    deposit(&mut world, &user, 50_000).unwrap();

    assert_eq!(world.ledger.balance(&user), user_balance_before - 50_000);
    assert_eq!(
        world.ledger.balance(&world.settlement_id),
        contract_balance_before + 50_000
    );
}

#[test]
fn test_deposit_zero() {
    let (mut world, _admin, _node, _oracle, user) = setup_test_env();

    assert_eq!(deposit(&mut world, &user, 0), Err("amount must be positive"));
    assert_eq!(get_balance(&world), 0);
}

#[test]
fn test_submit_oracle_report_above_threshold() {
    let (mut world, admin, node, oracle, user) = setup_test_env();

    deposit(&mut world, &user, 200_000).unwrap();
    assert_eq!(get_balance(&world), 200_000);

    world
        .settlement
        .register_node(&admin, node.clone(), 8000, 50_000)
        .unwrap();

    let node_balance_before = world.ledger.balance(&node);

    submit_oracle_report(&mut world, &oracle, &node, 9500, 1000, &SIGNATURE).unwrap();

    let expected_payout: i128 = 50_000 * 9500 / 10000;
    assert_eq!(
        world.ledger.balance(&node),
        node_balance_before + expected_payout
    );
    assert_eq!(get_balance(&world), 200_000 - expected_payout);

    let info = world.settlement.get_node_info(&node).unwrap();
    assert_eq!(info.last_report_time, 1000);
    assert_eq!(info.cumulative_uptime, 9500);
    assert_eq!(info.total_paid, expected_payout);
}

#[test]
fn test_submit_oracle_report_below_threshold() {
    let (mut world, admin, node, oracle, user) = setup_test_env();

    deposit(&mut world, &user, 200_000).unwrap();
    world
        .settlement
        .register_node(&admin, node.clone(), 8000, 50_000)
        .unwrap();

    submit_oracle_report(&mut world, &oracle, &node, 5000, 2000, &SIGNATURE).unwrap();

    let info = world.settlement.get_node_info(&node).unwrap();
    assert_eq!(info.last_report_time, 2000);
    assert_eq!(info.total_paid, 0);
    assert_eq!(info.escrow_amount, 50_000);
}

#[test]
fn test_submit_oracle_report_zero_uptime() {
    let (mut world, admin, node, oracle, user) = setup_test_env();

    deposit(&mut world, &user, 200_000).unwrap();
    world
        .settlement
        .register_node(&admin, node.clone(), 1000, 50_000)
        .unwrap();

    submit_oracle_report(&mut world, &oracle, &node, 0, 3000, &SIGNATURE).unwrap();

    let info = world.settlement.get_node_info(&node).unwrap();
    assert_eq!(info.total_paid, 0);
    assert_eq!(info.cumulative_uptime, 0);
}

#[test]
fn test_multiple_oracle_reports() {
    let (mut world, admin, node, oracle, user) = setup_test_env();

    deposit(&mut world, &user, 500_000).unwrap();
    world
        .settlement
        .register_node(&admin, node.clone(), 5000, 100_000)
        .unwrap();

    submit_oracle_report(&mut world, &oracle, &node, 6000, 1000, &SIGNATURE).unwrap();
    let info = world.settlement.get_node_info(&node).unwrap();
    assert_eq!(info.total_paid, 100_000 * 6000 / 10000);

    submit_oracle_report(&mut world, &oracle, &node, 9000, 2000, &SIGNATURE).unwrap();
    let info = world.settlement.get_node_info(&node).unwrap();
    let expected_total = (100_000 * 6000 / 10000) + (100_000 * 9000 / 10000);
    assert_eq!(info.total_paid, expected_total);
    assert_eq!(info.cumulative_uptime, 15000);
}

#[test]
fn test_reentrancy_guard_clears_after_successful_report() {
    let (mut world, admin, node, oracle, user) = setup_test_env();

    deposit(&mut world, &user, 100_000).unwrap();
    world
        .settlement
        .register_node(&admin, node.clone(), 0, 100_000)
        .unwrap();

    submit_oracle_report(&mut world, &oracle, &node, 10000, 1000, &SIGNATURE).unwrap();

    let info = world.settlement.get_node_info(&node).unwrap();
    assert_eq!(info.total_paid, 100_000);
    assert_eq!(world.settlement.in_progress, Some(false));
}

#[test]
fn test_balance_multiple_deposits() {
    let (mut world, _admin, _node, _oracle, user) = setup_test_env();

    deposit(&mut world, &user, 10_000).unwrap();
    assert_eq!(get_balance(&world), 10_000);

    deposit(&mut world, &user, 20_000).unwrap();
    assert_eq!(get_balance(&world), 30_000);

    deposit(&mut world, &user, 70_000).unwrap();
    assert_eq!(get_balance(&world), 100_000);
}

#[test]
fn test_full_payout_cycle() {
    let (mut world, admin, node, oracle, user) = setup_test_env();

    let contract_before = get_balance(&world);
    assert_eq!(contract_before, 0);

    deposit(&mut world, &user, 100_000).unwrap();
    assert_eq!(get_balance(&world), 100_000);

    world
        .settlement
        .register_node(&admin, node.clone(), 0, 100_000)
        .unwrap();

    submit_oracle_report(&mut world, &oracle, &node, 10000, 5000, &SIGNATURE).unwrap();

    let info = world.settlement.get_node_info(&node).unwrap();
    assert_eq!(info.total_paid, 100_000);
    assert_eq!(world.ledger.balance(&node), 100_000);
}

#[test]
fn test_unverified_oracle_report() {
    let mut world = empty_world();
    let admin = addr(1);
    let node = addr(2);
    let unauthorized_oracle = addr(3);
    let user = addr(4);

    world.oracle = Some(MockOracle::initialize(admin.clone()));
    world
        .settlement
        .initialize(admin.clone(), world.oracle_id.clone())
        .unwrap();

    world.ledger.mint(&user, 100_000);
    let token = world.token_id.clone();
    world.settlement.set_token(&admin, token).unwrap();
    deposit(&mut world, &user, 100_000).unwrap();
    world
        .settlement
        .register_node(&admin, node.clone(), 5000, 50_000)
        .unwrap();

    let r = submit_oracle_report(
        &mut world,
        &unauthorized_oracle,
        &node,
        9500,
        1000,
        &SIGNATURE,
    );
    assert_eq!(r, Err(SettlementError::ReportNotVerified));
    assert_eq!(SettlementError::ReportNotVerified.code(), 5);
    let info = world.settlement.get_node_info(&node).unwrap();
    assert_eq!(
        info,
        NodeInfo {
            uptime_threshold: 5000,
            escrow_amount: 50_000,
            last_report_time: 0,
            cumulative_uptime: 0,
            total_paid: 0,
        }
    );
    assert_eq!(get_balance(&world), 100_000);
}
