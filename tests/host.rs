use externalities::{
    ActionParams, Address, BytesRef, CallStep, CreateStep, EnvInfo, Error, Externalities, H256,
    OutputPolicy, Schedule, State, Substate, finish_create,
};

fn addr(n: u128) -> Address {
    Address { hi: 0, lo: n }
}

fn word(n: u128) -> H256 {
    H256 { hi: 0, lo: n }
}

fn schedule() -> Schedule {
    Schedule {
        max_depth: 1024,
        call_stipend: 2300,
        call_value_transfer_gas: 9000,
        call_new_account_gas: 25000,
        create_data_gas: 200,
        exceptional_failed_code_deposit: true,
    }
}

fn params(address: Address) -> ActionParams {
    ActionParams {
        address,
        sender: addr(100),
        origin: addr(101),
        gas: 1_000_000,
        gas_price: 7,
        value: 0,
        code: vec![0x60, 0x00],
        data: vec![],
    }
}

fn ext_with(state: State, depth: usize, output: OutputPolicy) -> Externalities {
    Externalities::new(
        state,
        EnvInfo { number: 1000, last_hashes: vec![] },
        schedule(),
        depth,
        params(addr(1)),
        Substate::new(),
        output,
    )
}

fn funded_state() -> State {
    let mut s = State::new();
    s.set_balance(&addr(1), 1_000);
    s.set_balance(&addr(2), 5);
    s
}

fn call_ext() -> Externalities {
    ext_with(funded_state(), 0, OutputPolicy::Return(BytesRef::Fixed(vec![0; 4])))
}

#[test]
fn sstore_refunds_only_when_clearing() {
    let mut e = call_ext();
    e.sstore(word(1), word(0));
    assert_eq!(e.substate.refunds_count, 0);
    e.sstore(word(1), word(9));
    assert_eq!(e.substate.refunds_count, 0);
    e.sstore(word(1), word(8));
    assert_eq!(e.substate.refunds_count, 0);
    e.sstore(word(1), word(0));
    assert_eq!(e.substate.refunds_count, 1);
    e.sstore(word(1), word(0));
    assert_eq!(e.substate.refunds_count, 1);
    assert_eq!(e.sload(&word(1)), word(0));
}

#[test]
fn sload_reads_written_value() {
    let mut e = call_ext();
    assert_eq!(e.sload(&word(3)), H256::zero());
    e.sstore(word(3), H256 { hi: 4, lo: 5 });
    assert_eq!(e.sload(&word(3)), H256 { hi: 4, lo: 5 });
    assert_eq!(e.state.storage_at(&addr(2), &word(3)), H256::zero());
}

#[test]
fn blockhash_window_bounds() {
    let mut e = call_ext();
    let hashes: Vec<H256> = (0..256u128).map(|i| word(i + 1)).collect();
    e.info = EnvInfo { number: 300, last_hashes: hashes };
    assert_eq!(e.blockhash(300), H256::zero());
    assert_eq!(e.blockhash(301), H256::zero());
    assert_eq!(e.blockhash(299), word(1));
    assert_eq!(e.blockhash(44), word(256));
    assert_eq!(e.blockhash(43), H256::zero());
    assert_eq!(e.blockhash(0), H256::zero());
}

#[test]
fn blockhash_near_genesis() {
    let mut e = call_ext();
    let hashes: Vec<H256> = (0..10u128).map(|i| word(i + 1)).collect();
    e.info = EnvInfo { number: 10, last_hashes: hashes };
    assert_eq!(e.blockhash(0), word(10));
    assert_eq!(e.blockhash(9), word(1));
    assert_eq!(e.blockhash(10), H256::zero());
}

#[test]
fn create_at_max_depth_is_declined() {
    let mut e = ext_with(funded_state(), 1024, OutputPolicy::InitContract);
    match e.create(5000, 0, &[1, 2, 3]) {
        CreateStep::Declined { gas } => assert_eq!(gas, 5000),
        CreateStep::Run(_) => panic!("creation ran at the depth limit"),
    }
    assert_eq!(e.state.nonce(&addr(1)), 0);
}

#[test]
fn create_with_insufficient_balance_changes_nothing() {
    let mut e = call_ext();
    match e.create(5000, 1_001, &[1]) {
        CreateStep::Declined { gas } => assert_eq!(gas, 5000),
        CreateStep::Run(_) => panic!("creation ran without funds"),
    }
    assert_eq!(e.state.nonce(&addr(1)), 0);
    assert_eq!(e.state.balance(&addr(1)), 1_000);
    assert!(e.substate.contracts_created.is_empty());
}

#[test]
fn create_admitted_uses_nonce() {
    let mut e = call_ext();
    e.state.inc_nonce(&addr(1));
    let req = match e.create(5000, 10, &[7, 8]) {
        CreateStep::Run(req) => req,
        CreateStep::Declined { .. } => panic!("creation was declined"),
    };
    assert_eq!(e.state.nonce(&addr(1)), 2);
    assert_eq!(req.creator, addr(1));
    assert_eq!(req.nonce, 1);
    assert_eq!(req.gas, 5000);
    assert_eq!(req.value, 10);
    let p = req.params(addr(50));
    assert_eq!(p.address, addr(50));
    assert_eq!(p.sender, addr(1));
    assert_eq!(p.origin, addr(101));
    assert_eq!(p.gas_price, 7);
    assert_eq!(p.code, vec![7, 8]);
    assert!(p.data.is_empty());
    assert_eq!(finish_create(Some(1234), addr(50)), (1234, Some(addr(50))));
    assert_eq!(finish_create(None, addr(50)), (0, None));
}

#[test]
fn call_value_with_uncovered_stipend_fails() {
    let mut e = call_ext();
    e.schedule.call_value_transfer_gas = 2300;
    assert!(matches!(
        e.call(100_000, 0, &addr(2), 1, &[], &addr(2)),
        Err(Error::StipendNotCovered)
    ));
    assert!(matches!(e.call(100_000, 0, &addr(2), 0, &[], &addr(2)), Ok(CallStep::Run(_))));
}

#[test]
fn call_new_account_surcharge() {
    let e = ext_with(funded_state(), 1024, OutputPolicy::InitContract);
    match e.call(100_000, 1_000, &addr(77), 0, &[], &addr(77)) {
        Ok(CallStep::Declined { gas }) => assert_eq!(gas, 75_000),
        _ => panic!("expected a declined call"),
    }
    match e.call(100_000, 1_000, &addr(2), 0, &[], &addr(2)) {
        Ok(CallStep::Declined { gas }) => assert_eq!(gas, 100_000),
        _ => panic!("expected a declined call"),
    }
    match e.call(100_000, 1_000, &addr(77), 0, &[], &addr(2)) {
        Ok(CallStep::Declined { gas }) => assert_eq!(gas, 100_000),
        _ => panic!("expected a declined call"),
    }
}

#[test]
fn call_out_of_gas() {
    let e = call_ext();
    assert!(matches!(e.call(999, 1_000, &addr(2), 0, &[], &addr(2)), Err(Error::OutOfGas)));
    assert!(matches!(e.call(25_999, 1_000, &addr(77), 0, &[], &addr(77)), Err(Error::OutOfGas)));
    assert!(matches!(e.call(26_000, 1_000, &addr(77), 0, &[], &addr(77)), Ok(_)));
}

#[test]
fn call_end_to_end_success() {
    let e = call_ext();
    let sub = match e.call(100_000, 50_000, &addr(2), 0, &[9, 9], &addr(2)) {
        Ok(CallStep::Run(sub)) => sub,
        _ => panic!("expected a nested frame"),
    };
    assert_eq!(sub.remaining, 50_000);
    assert_eq!(sub.params.gas, 50_000);
    assert_eq!(sub.params.address, addr(2));
    assert_eq!(sub.params.sender, addr(1));
    assert_eq!(sub.params.origin, addr(101));
    assert_eq!(sub.params.data, vec![9, 9]);
    assert_eq!(sub.finish(Some(40_000)), (90_000, true));
    assert_eq!(sub.finish(None), (50_000, false));
}

#[test]
fn call_with_value_adds_stipend() {
    let e = call_ext();
    let sub = match e.call(100_000, 0, &addr(2), 10, &[], &addr(2)) {
        Ok(CallStep::Run(sub)) => sub,
        _ => panic!("expected a nested frame"),
    };
    assert_eq!(sub.remaining, 91_000);
    assert_eq!(sub.params.gas, 2_300);
    assert_eq!(sub.params.value, 10);
}

#[test]
fn call_without_funds_is_declined() {
    let e = call_ext();
    match e.call(100_000, 0, &addr(2), 5_000, &[], &addr(2)) {
        Ok(CallStep::Declined { gas }) => assert_eq!(gas, 100_000 - 9_000 + 2_300),
        _ => panic!("expected a declined call"),
    }
}

#[test]
fn call_borrows_code_of_code_address() {
    let mut e = call_ext();
    e.state.init_code(&addr(3), vec![0xaa, 0xbb]);
    let sub = match e.call(100_000, 10, &addr(2), 0, &[], &addr(3)) {
        Ok(CallStep::Run(sub)) => sub,
        _ => panic!("expected a nested frame"),
    };
    assert_eq!(sub.params.address, addr(2));
    assert_eq!(sub.params.code, vec![0xaa, 0xbb]);
    assert_eq!(e.extcode(&addr(3)), vec![0xaa, 0xbb]);
    assert!(e.extcode(&addr(9)).is_empty());
}

#[test]
fn ret_fixed_copies_prefix() {
    let mut e = call_ext();
    assert_eq!(e.ret(500, &[1, 2]), Ok(500));
    match &e.output {
        OutputPolicy::Return(BytesRef::Fixed(b)) => assert_eq!(b, &vec![1, 2, 0, 0]),
        _ => panic!("output policy changed"),
    }
    assert_eq!(e.ret(500, &[5, 6, 7, 8, 9, 10]), Ok(500));
    match &e.output {
        OutputPolicy::Return(BytesRef::Fixed(b)) => assert_eq!(b, &vec![5, 6, 7, 8]),
        _ => panic!("output policy changed"),
    }
}

#[test]
fn ret_flexible_replaces() {
    let mut e = ext_with(funded_state(), 0, OutputPolicy::Return(BytesRef::Flexible(vec![9; 10])));
    assert_eq!(e.ret(42, &[1, 2, 3]), Ok(42));
    match &e.output {
        OutputPolicy::Return(BytesRef::Flexible(b)) => assert_eq!(b, &vec![1, 2, 3]),
        _ => panic!("output policy changed"),
    }
}

#[test]
fn ret_init_contract_deposits_code() {
    let mut e = ext_with(funded_state(), 1, OutputPolicy::InitContract);
    assert_eq!(e.ret(1_000, &[1, 2, 3]), Ok(400));
    assert_eq!(e.extcode(&addr(1)), vec![1, 2, 3]);
    assert_eq!(e.substate.contracts_created, vec![addr(1)]);
}

#[test]
fn ret_init_contract_unaffordable_strict() {
    let mut e = ext_with(funded_state(), 1, OutputPolicy::InitContract);
    assert_eq!(e.ret(599, &[1, 2, 3]), Err(Error::OutOfGas));
    assert!(e.extcode(&addr(1)).is_empty());
    assert!(e.substate.contracts_created.is_empty());
}

#[test]
fn ret_init_contract_unaffordable_lenient() {
    let mut e = ext_with(funded_state(), 1, OutputPolicy::InitContract);
    e.schedule.exceptional_failed_code_deposit = false;
    assert_eq!(e.ret(599, &[1, 2, 3]), Ok(599));
    assert!(e.extcode(&addr(1)).is_empty());
    assert!(e.substate.contracts_created.is_empty());
    assert_eq!(e.ret(600, &[1, 2, 3]), Ok(0));
    assert_eq!(e.extcode(&addr(1)), vec![1, 2, 3]);
}

#[test]
fn logs_keep_emission_order() {
    let mut e = call_ext();
    e.log(vec![word(1)], vec![1]);
    e.params.address = addr(2);
    e.log(vec![], vec![2, 2]);
    assert_eq!(e.substate.logs.len(), 2);
    assert_eq!(e.substate.logs[0].address, addr(1));
    assert_eq!(e.substate.logs[0].topics, vec![word(1)]);
    assert_eq!(e.substate.logs[1].address, addr(2));
    assert_eq!(e.substate.logs[1].data, vec![2, 2]);
}

#[test]
fn suicide_to_self_twice() {
    let mut e = call_ext();
    e.suicide(&addr(1));
    assert_eq!(e.balance(&addr(1)), 1_000);
    e.suicide(&addr(1));
    assert_eq!(e.balance(&addr(1)), 1_000);
    assert_eq!(e.substate.suicides, vec![addr(1)]);
}

#[test]
fn suicide_moves_balance() {
    let mut e = call_ext();
    e.suicide(&addr(2));
    assert_eq!(e.balance(&addr(1)), 0);
    assert_eq!(e.balance(&addr(2)), 1_005);
    assert_eq!(e.substate.suicides, vec![addr(1)]);
}

#[test]
fn state_transfer_and_nonce() {
    let mut s = State::new();
    assert!(!s.has_account(&addr(1)));
    s.add_balance(&addr(1), 50);
    s.transfer_balance(&addr(1), &addr(2), 20);
    assert_eq!(s.balance(&addr(1)), 30);
    assert_eq!(s.balance(&addr(2)), 20);
    s.sub_balance(&addr(2), 5);
    assert_eq!(s.balance(&addr(2)), 15);
    s.inc_nonce(&addr(3));
    assert!(s.has_account(&addr(3)));
    assert_eq!(s.nonce(&addr(3)), 1);
}
