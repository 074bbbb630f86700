use collectxyz::adapter::{BaseExecuteMsg, BaseQueryMsg, ExecuteMsg, Expiration, QueryMsg};
use collectxyz::config::{checked_distance, Coin, Config};
use collectxyz::error::ContractError;
use collectxyz::geometry::Coordinates;
use collectxyz::registry::{check_payment, Registry, XyzExtension};

fn coin(amount: u128) -> Coin {
    Coin { denom: "uluna".to_string(), amount }
}

fn at(x: i64, y: i64, z: i64) -> Coordinates {
    Coordinates { x, y, z }
}

fn config() -> Config {
    Config {
        public_minting_enabled: true,
        max_coordinate_value: 100,
        token_supply: 1000,
        wallet_limit: 5,
        mint_fee: coin(50),
        base_move_nanos: 1000,
        move_nanos_per_step: 500,
        base_move_fee: coin(10),
        move_fee_per_step: 2,
    }
}

#[test]
fn distance_is_symmetric_and_zero_on_self() {
    let a = at(-5, 7, 2);
    let b = at(3, -1, 40);
    assert_eq!(a.distance(b), 8 + 8 + 38);
    assert_eq!(a.distance(b), b.distance(a));
    assert_eq!(a.distance(a), 0);
}

#[test]
fn checked_distance_refuses_what_does_not_fit() {
    assert_eq!(checked_distance(at(0, 0, 0), at(65535, 0, 0)), Some(65535));
    assert_eq!(checked_distance(at(0, 0, 0), at(65535, 1, 0)), None);
    assert_eq!(checked_distance(at(i64::MIN, 0, 0), at(i64::MAX, 0, 0)), None);
}

#[test]
fn to_bytes_is_big_endian() {
    let bytes = at(1, -1, 258).to_bytes();
    let mut expected = vec![0, 0, 0, 0, 0, 0, 0, 1];
    expected.extend_from_slice(&[0xff; 8]);
    expected.extend_from_slice(&[0, 0, 0, 0, 0, 0, 1, 2]);
    assert_eq!(bytes, expected);
}

#[test]
fn move_fee_and_duration_example() {
    let c = config();
    let start = at(0, 0, 0);
    let end = at(3, 1, 0);
    assert_eq!(start.distance(end), 4);
    let fee = c.get_move_fee(start, end);
    assert_eq!(fee.amount, 18);
    assert_eq!(fee.denom, "uluna");
    assert_eq!(c.get_move_nanos(start, end), 3000);
}

#[test]
fn move_cost_grows_with_distance() {
    let c = config();
    let o = at(0, 0, 0);
    let mut last_fee = 0;
    let mut last_nanos = 0;
    for d in 0..20 {
        let fee = c.get_move_fee(o, at(d, 0, 0)).amount;
        let nanos = c.get_move_nanos(o, at(d, 0, 0));
        assert!(fee >= last_fee && nanos >= last_nanos);
        last_fee = fee;
        last_nanos = nanos;
    }
    assert_eq!(c.get_move_fee(o, o).amount, 10);
}

#[test]
fn check_bounds_boundaries() {
    let c = config();
    let out = Err(ContractError::OutOfBounds { max_coordinate_value: 100 });
    assert_eq!(c.check_bounds(at(100, 100, 100)), Ok(()));
    assert_eq!(c.check_bounds(at(-100, -100, -100)), Ok(()));
    assert_eq!(c.check_bounds(at(101, 0, 0)), out);
    assert_eq!(c.check_bounds(at(0, -101, 0)), out);
    assert_eq!(c.check_bounds(at(0, 0, 101)), out);
    assert_eq!(c.check_bounds(at(0, 0, -101)), out);
}

#[test]
fn move_fits_detects_overflow() {
    let mut c = config();
    assert!(c.move_fits(at(0, 0, 0), at(3, 1, 0)));
    c.move_fee_per_step = u128::MAX;
    assert!(!c.move_fits(at(0, 0, 0), at(3, 1, 0)));
    assert!(c.move_fits(at(0, 0, 0), at(0, 0, 0)));
    c.move_fee_per_step = 2;
    c.move_nanos_per_step = u64::MAX;
    assert!(!c.move_fits(at(0, 0, 0), at(1, 0, 0)));
}

#[test]
fn mint_within_and_outside_bounds() {
    let c = config();
    let mut r = Registry::new();
    assert_eq!(r.mint(&c, false, &coin(50), at(100, 100, 100), 7), Ok((0, 0)));
    assert_eq!(
        r.mint(&c, false, &coin(50), at(101, 0, 0), 7),
        Err(ContractError::OutOfBounds { max_coordinate_value: 100 })
    );
    assert_eq!(r.tokens.len(), 1);
    assert_eq!(
        r.tokens[0],
        XyzExtension { coordinates: at(100, 100, 100), prev_coordinates: None, arrival: 7 }
    );
}

#[test]
fn mint_at_occupied_position_is_refused() {
    let c = config();
    let mut r = Registry::new();
    r.mint(&c, false, &coin(60), at(1, 2, 3), 5).unwrap();
    let before = r.tokens.clone();
    assert_eq!(r.mint(&c, true, &coin(0), at(1, 2, 3), 9), Err(ContractError::PositionOccupied));
    assert_eq!(r.tokens, before);
    assert_eq!(r.token_at(at(1, 2, 3)), Some(0));
}

#[test]
fn mint_authorization_and_payment() {
    let mut c = config();
    let mut r = Registry::new();
    assert_eq!(r.mint(&c, false, &coin(49), at(0, 0, 0), 1), Err(ContractError::InsufficientPayment { required: 50, paid: 49 }));
    let other = Coin { denom: "uusd".to_string(), amount: 50 };
    assert_eq!(r.mint(&c, false, &other, at(0, 0, 0), 1), Err(ContractError::WrongDenomination));
    assert_eq!(r.mint(&c, false, &coin(70), at(0, 0, 0), 1), Ok((0, 20)));
    c.public_minting_enabled = false;
    assert_eq!(r.mint(&c, false, &coin(50), at(1, 0, 0), 1), Err(ContractError::Unauthorized));
    assert_eq!(r.mint(&c, true, &coin(5), at(1, 0, 0), 1), Ok((1, 5)));
}

#[test]
fn move_sets_travel_state() {
    let c = config();
    let mut r = Registry::new();
    r.mint(&c, true, &coin(0), at(0, 0, 0), 100).unwrap();
    let params = r.move_params(&c, 0, at(3, 1, 0)).unwrap();
    assert_eq!(params.fee.amount, 18);
    assert_eq!(params.duration_nanos, 3000);
    assert_eq!(r.move_token(&c, 0, true, at(3, 1, 0), &coin(20), 200), Ok(2));
    let t = r.tokens[0];
    assert_eq!(t, XyzExtension { coordinates: at(3, 1, 0), prev_coordinates: Some(at(0, 0, 0)), arrival: 3200 });
    assert!(!t.has_arrived(3199));
    assert!(t.has_arrived(3200));
    assert_eq!(r.token_at(at(0, 0, 0)), None);
}

#[test]
fn move_out_of_bounds_changes_nothing() {
    let c = config();
    let mut r = Registry::new();
    r.mint(&c, true, &coin(0), at(0, 0, 0), 100).unwrap();
    r.move_token(&c, 0, true, at(1, 0, 0), &coin(12), 200).unwrap();
    let before = r.tokens[0];
    assert_eq!(
        r.move_token(&c, 0, true, at(0, 0, -101), &coin(1000), 300),
        Err(ContractError::OutOfBounds { max_coordinate_value: 100 })
    );
    assert_eq!(r.tokens[0], before);
}

#[test]
fn move_errors() {
    let c = config();
    let mut r = Registry::new();
    r.mint(&c, true, &coin(0), at(0, 0, 0), 0).unwrap();
    r.mint(&c, true, &coin(0), at(5, 0, 0), 0).unwrap();
    assert_eq!(r.move_token(&c, 2, true, at(1, 0, 0), &coin(100), 0), Err(ContractError::NotFound));
    assert_eq!(r.move_token(&c, 0, false, at(1, 0, 0), &coin(100), 0), Err(ContractError::Unauthorized));
    assert_eq!(r.move_token(&c, 0, true, at(5, 0, 0), &coin(100), 0), Err(ContractError::PositionOccupied));
    assert_eq!(
        r.move_token(&c, 0, true, at(1, 0, 0), &coin(11), 0),
        Err(ContractError::InsufficientPayment { required: 12, paid: 11 })
    );
    assert_eq!(r.move_token(&c, 0, true, at(1, 0, 0), &coin(12), u64::MAX), Err(ContractError::Overflow));
    assert_eq!(r.move_params(&c, 9, at(1, 0, 0)), Err(ContractError::NotFound));
    assert_eq!(r.move_token(&c, 0, true, at(0, 0, 0), &coin(10), 0), Ok(0));
}

#[test]
fn payment_check() {
    assert_eq!(check_payment(&coin(10), &coin(15)), Ok(5));
    assert_eq!(check_payment(&coin(10), &coin(9)), Err(ContractError::InsufficientPayment { required: 10, paid: 9 }));
}

#[test]
fn execute_forwarding_round_trip() {
    let all = vec![
        BaseExecuteMsg::TransferNft { recipient: "bob".to_string(), token_id: "xyz #1".to_string() },
        BaseExecuteMsg::SendNft { contract: "c".to_string(), token_id: "t".to_string(), msg: vec![1, 2] },
        BaseExecuteMsg::Approve { spender: "s".to_string(), token_id: "t".to_string(), expires: Some(Expiration::AtHeight(9)) },
        BaseExecuteMsg::Revoke { spender: "s".to_string(), token_id: "t".to_string() },
        BaseExecuteMsg::ApproveAll { operator: "o".to_string(), expires: Some(Expiration::Never) },
        BaseExecuteMsg::RevokeAll { operator: "o".to_string() },
    ];
    for b in all {
        assert_eq!(ExecuteMsg::from_base(b.clone()).to_base(), Some(b));
    }
    let local = ExecuteMsg::Move { token_id: "t".to_string(), coordinates: at(1, 1, 1) };
    assert_eq!(local.to_base(), None);
    assert_eq!(ExecuteMsg::Withdraw { amount: vec![coin(3)] }.to_base(), None);
}

#[test]
fn query_forwarding_round_trip() {
    let all = vec![
        BaseQueryMsg::OwnerOf { token_id: "t".to_string(), include_expired: Some(true) },
        BaseQueryMsg::ApprovedForAll { owner: "o".to_string(), include_expired: None, start_after: Some("a".to_string()), limit: Some(3) },
        BaseQueryMsg::NumTokens {},
        BaseQueryMsg::ContractInfo {},
        BaseQueryMsg::NftInfo { token_id: "t".to_string() },
        BaseQueryMsg::AllNftInfo { token_id: "t".to_string(), include_expired: Some(false) },
        BaseQueryMsg::Tokens { owner: "o".to_string(), start_after: None, limit: Some(10) },
        BaseQueryMsg::AllTokens { start_after: None, limit: None },
    ];
    for b in all {
        assert_eq!(QueryMsg::from_base(b.clone()).to_base(), Some(b));
    }
    let xyz = QueryMsg::XyzTokens { owner: "o".to_string(), start_after: None, limit: Some(2) };
    assert_eq!(xyz.to_base(), Some(BaseQueryMsg::Tokens { owner: "o".to_string(), start_after: None, limit: Some(2) }));
    assert_eq!(QueryMsg::XyzNftInfo { token_id: "t".to_string() }.to_base(), Some(BaseQueryMsg::NftInfo { token_id: "t".to_string() }));
    assert_eq!(QueryMsg::AllXyzTokens { start_after: None, limit: None }.to_base(), Some(BaseQueryMsg::AllTokens { start_after: None, limit: None }));
    assert_eq!(QueryMsg::Config {}.to_base(), None);
    assert_eq!(QueryMsg::MoveParams { token_id: "t".to_string(), coordinates: at(0, 0, 0) }.to_base(), None);
}
