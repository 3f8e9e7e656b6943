use neutron_sdk::dex::CancelLimitOrderMsg;
use neutron_sdk::dex::DepositMsg;
use neutron_sdk::dex::DepositOption;
use neutron_sdk::dex::DexMsg;
use neutron_sdk::dex::LimitOrderType;
use neutron_sdk::dex::MultiHopRoute;
use neutron_sdk::dex::MultiHopSwapMsg;
use neutron_sdk::dex::PlaceLimitOrderMsg;
use neutron_sdk::dex::PrecDec;
use neutron_sdk::dex::WithdrawFilledLimitOrderMsg;
use neutron_sdk::dex::WithdrawalMsg;
use neutron_sdk::error::ContractError;

fn deposit() -> DepositMsg {
    DepositMsg {
        receiver: "neutron1receiver".to_string(),
        token_a: "untrn".to_string(),
        token_b: "uatom".to_string(),
        amounts_a: vec![10, 20],
        amounts_b: vec![0, 5],
        tick_indexes_a_to_b: vec![-1, 4],
        fees: vec![1, 1],
        options: vec![DepositOption { disable_autoswap: true }],
    }
}

fn order(order_type: LimitOrderType) -> PlaceLimitOrderMsg {
    PlaceLimitOrderMsg {
        receiver: "neutron1receiver".to_string(),
        token_in: "untrn".to_string(),
        token_out: "uatom".to_string(),
        tick_index_in_to_out: 0,
        amount_in: 1_000,
        order_type,
        expiration_time: None,
        max_amount_out: None,
        limit_sell_price: "1.5".to_string(),
    }
}

fn swap() -> MultiHopSwapMsg {
    MultiHopSwapMsg {
        receiver: "neutron1receiver".to_string(),
        routes: vec![MultiHopRoute { hops: vec!["untrn".to_string(), "uatom".to_string()] }],
        amount_in: 77,
        exit_limit_price: PrecDec { i: "0.9".to_string() },
        pick_best_route: false,
    }
}

fn is_invalid(r: Result<DexMsg, ContractError>) -> bool {
    matches!(r, Err(ContractError::Std(_)))
}

#[test]
fn valid_deposit_is_built() {
    assert_eq!(DexMsg::deposit(deposit()), Ok(DexMsg::Deposit(deposit())));
}

#[test]
fn deposit_with_mismatched_legs_fails() {
    let mut m = deposit();
    m.amounts_a.push(3);
    assert!(is_invalid(DexMsg::deposit(m)));
    let mut m = deposit();
    m.fees.pop();
    assert!(is_invalid(DexMsg::deposit(m)));
    let mut m = deposit();
    m.amounts_b = vec![];
    assert!(is_invalid(DexMsg::deposit(m)));
}

#[test]
fn deposit_without_legs_or_options_is_built() {
    let mut m = deposit();
    m.amounts_a = vec![];
    m.amounts_b = vec![];
    m.tick_indexes_a_to_b = vec![];
    m.fees = vec![];
    m.options = vec![];
    assert!(DexMsg::deposit(m).is_ok());
}

#[test]
fn withdrawal_lengths_are_checked() {
    let m = WithdrawalMsg {
        receiver: "neutron1receiver".to_string(),
        token_a: "untrn".to_string(),
        token_b: "uatom".to_string(),
        shares_to_remove: vec![5],
        tick_indexes_a_to_b: vec![2],
        fees: vec![1],
    };
    assert!(DexMsg::withdrawal(m.clone()).is_ok());
    let mut bad = m;
    bad.shares_to_remove.push(1);
    assert!(is_invalid(DexMsg::withdrawal(bad)));
}

#[test]
fn long_receiver_is_max_addr_length() {
    let mut m = deposit();
    m.receiver = "a".repeat(256);
    assert_eq!(DexMsg::deposit(m), Err(ContractError::MaxAddrLength { max: 255, actual: 256 }));
    let mut m = deposit();
    m.receiver = "a".repeat(255);
    assert!(DexMsg::deposit(m).is_ok());
    let mut s = swap();
    s.receiver = "\u{e9}".repeat(128);
    assert_eq!(DexMsg::multi_hop_swap(s), Err(ContractError::MaxAddrLength { max: 255, actual: 256 }));
}

#[test]
fn immediate_or_cancel_with_max_out_fails() {
    let mut m = order(LimitOrderType::ImmediateOrCancel);
    assert!(DexMsg::place_limit_order(m.clone()).is_ok());
    m.max_amount_out = Some(5);
    assert!(is_invalid(DexMsg::place_limit_order(m)));
    let mut m = order(LimitOrderType::FillOrKill);
    m.max_amount_out = Some(5);
    assert!(DexMsg::place_limit_order(m).is_ok());
}

#[test]
fn good_til_time_needs_expiration() {
    let mut m = order(LimitOrderType::GoodTilTime);
    assert!(is_invalid(DexMsg::place_limit_order(m.clone())));
    m.expiration_time = Some(1_700_000_000);
    assert!(DexMsg::place_limit_order(m).is_ok());
    let mut m = order(LimitOrderType::GoodTilCancelled);
    m.expiration_time = Some(1_700_000_000);
    assert!(is_invalid(DexMsg::place_limit_order(m)));
}

#[test]
fn limit_sell_price_forms() {
    for ok in ["1234.23E-7", "0", "12", ".5", "5.", "1e10", "2.5e+3"] {
        let mut m = order(LimitOrderType::JustInTime);
        m.limit_sell_price = ok.to_string();
        assert!(DexMsg::place_limit_order(m).is_ok(), "{}", ok);
    }
    for bad in ["", "-1", "1.2.3", "1e", "e5", ".", "1e5e2", "1.5x", "+1", "1e-"] {
        let mut m = order(LimitOrderType::JustInTime);
        m.limit_sell_price = bad.to_string();
        assert!(is_invalid(DexMsg::place_limit_order(m)), "{}", bad);
    }
}

#[test]
fn empty_tranche_keys_fail() {
    assert!(is_invalid(DexMsg::cancel_limit_order(CancelLimitOrderMsg { tranche_key: String::new() })));
    assert!(is_invalid(DexMsg::withdraw_filled_limit_order(WithdrawFilledLimitOrderMsg {
        tranche_key: String::new()
    })));
    assert!(DexMsg::cancel_limit_order(CancelLimitOrderMsg { tranche_key: "tk".to_string() }).is_ok());
}

#[test]
fn multi_hop_swap_rules() {
    assert_eq!(DexMsg::multi_hop_swap(swap()), Ok(DexMsg::MultiHopSwap(swap())));
    let mut m = swap();
    m.routes = vec![];
    assert!(is_invalid(DexMsg::multi_hop_swap(m)));
    let mut m = swap();
    m.exit_limit_price = PrecDec { i: "1e3".to_string() };
    assert!(is_invalid(DexMsg::multi_hop_swap(m)));
    let mut m = swap();
    m.pick_best_route = true;
    assert!(DexMsg::multi_hop_swap(m).is_ok());
}

#[test]
fn type_urls_per_kind() {
    let m = DexMsg::deposit(deposit()).unwrap();
    assert_eq!(m.type_url(), "/neutron.dex.MsgDeposit");
    let m = DexMsg::place_limit_order(order(LimitOrderType::FillOrKill)).unwrap();
    assert_eq!(m.type_url(), "/neutron.dex.MsgPlaceLimitOrder");
    let m = DexMsg::multi_hop_swap(swap()).unwrap();
    assert_eq!(m.type_url(), "/neutron.dex.MsgMultiHopSwap");
    let m = DexMsg::cancel_limit_order(CancelLimitOrderMsg { tranche_key: "k".to_string() }).unwrap();
    assert_eq!(m.type_url(), "/neutron.dex.MsgCancelLimitOrder");
}
