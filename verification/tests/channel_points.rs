use lndbalancer::channel::{parse_channel_point, ChannelPoint};
use lndbalancer::dispatch::{plan_tick, plan_update, settle, PolicyUpdate};
use lndbalancer::{BalancerError, ChannelSnapshot, Config, FeeRate};

fn policy() -> Config {
    Config {
        dynamic_fees: true,
        dynamic_fee_update_frequency: 100,
        dynamic_fee_intervals: 5,
        dynamic_fee_min: 10,
        dynamic_fee_max: 500,
    }
}

fn channel(point: &str, local_balance: i64, capacity: i64) -> ChannelSnapshot {
    ChannelSnapshot {
        channel_point: String::from(point),
        local_balance,
        capacity,
    }
}

fn parsed(point: &str) -> (String, u32) {
    let p: ChannelPoint = parse_channel_point(point).unwrap();
    (p.funding_txid, p.output_index)
}

fn refused(point: &str) -> bool {
    match parse_channel_point(point) {
        Err(BalancerError::MalformedChannelPoint) => true,
        _ => false,
    }
}

#[test]
fn channel_point_splits_into_txid_and_index() {
    assert_eq!(
        parsed("4b7c2f6e9a:1"),
        (String::from("4b7c2f6e9a"), 1)
    );
    assert_eq!(parsed("abc:0"), (String::from("abc"), 0));
    assert_eq!(parsed("abc:007"), (String::from("abc"), 7));
    assert_eq!(parsed("abc:4294967295"), (String::from("abc"), u32::MAX));
    assert_eq!(parsed(":12"), (String::new(), 12));
}

#[test]
fn channel_point_index_may_carry_a_plus() {
    assert_eq!(parsed("abc:+5"), (String::from("abc"), 5));
    assert!(refused("abc:+"));
    assert!(refused("abc:++5"));
    assert!(refused("abc:5+"));
}

#[test]
fn channel_point_txid_is_kept_as_it_stands() {
    assert_eq!(parsed("tx\u{e9}\u{1F600} id:3"), (String::from("tx\u{e9}\u{1F600} id"), 3));
}

#[test]
fn channel_point_without_colon_is_malformed() {
    assert!(refused(""));
    assert!(refused("abc"));
    assert!(refused("abc1"));
}

#[test]
fn channel_point_with_two_colons_is_malformed() {
    assert!(refused("abc:1:2"));
    assert!(refused("abc::1"));
    assert!(refused(":abc:1"));
    assert!(refused("abc:1:"));
    assert!(refused("::"));
}

#[test]
fn channel_point_with_bad_index_is_malformed() {
    assert!(refused("abc:"));
    assert!(refused("abc:x"));
    assert!(refused("abc:1x"));
    assert!(refused("abc: 1"));
    assert!(refused("abc:-1"));
    assert!(refused("abc:1.0"));
    assert!(refused("abc:\u{663}"));
    assert!(refused("abc:4294967296"));
    assert!(refused("abc:99999999999999999999999999"));
}

#[test]
fn plan_update_builds_the_whole_update() {
    let update: PolicyUpdate = plan_update(&channel("beef:2", 200, 1000), &policy()).unwrap();
    assert_eq!(update.channel_point.funding_txid, "beef");
    assert_eq!(update.channel_point.output_index, 2);
    assert_eq!(update.base_fee_msat, 1000);
    assert_eq!(update.time_lock_delta, 144);
    assert_eq!(update.fee_rate, FeeRate { numerator: 2010, denominator: 5_000_000 });
    assert_eq!(update.max_htlc_msat, 1000);
}

#[test]
fn plan_update_uses_balance_for_the_ceiling() {
    let update: PolicyUpdate =
        plan_update(&channel("beef:0", 1_557_248_000, 2_000_000_000), &policy()).unwrap();
    assert_eq!(update.max_htlc_msat, 900_000_000);
    assert_eq!(update.fee_rate.numerator, 10 * 5 + 490);
}

#[test]
fn plan_update_names_the_reason() {
    let malformed = plan_update(&channel("beef", 200, 1000), &policy());
    assert!(matches!(malformed, Err(BalancerError::MalformedChannelPoint)));
    let empty = plan_update(&channel("beef:1", 0, 0), &policy());
    assert!(matches!(empty, Err(BalancerError::InvalidChannelState)));
    let overfull = plan_update(&channel("beef:1", 2, 1), &policy());
    assert!(matches!(overfull, Err(BalancerError::InvalidChannelState)));
    // The point is looked at first.
    let both = plan_update(&channel("be:ef:1", 0, 0), &policy());
    assert!(matches!(both, Err(BalancerError::MalformedChannelPoint)));
}

#[test]
fn plan_tick_isolates_failures() {
    let channels = vec![
        channel("aa:0", 1000, 1000),
        channel("bb", 500, 1000),
        channel("cc:1", 0, 0),
        channel("dd:1:2", 500, 1000),
        channel("ee:7", 0, 1000),
    ];
    let plans = plan_tick(&channels, &policy());
    assert_eq!(plans.len(), 5);
    let first = plans[0].as_ref().unwrap();
    assert_eq!(first.channel_point.funding_txid, "aa");
    assert_eq!(first.fee_rate.numerator, 50);
    assert!(matches!(plans[1], Err(BalancerError::MalformedChannelPoint)));
    assert!(matches!(plans[2], Err(BalancerError::InvalidChannelState)));
    assert!(matches!(plans[3], Err(BalancerError::MalformedChannelPoint)));
    let last = plans[4].as_ref().unwrap();
    assert_eq!(last.channel_point.funding_txid, "ee");
    assert_eq!(last.channel_point.output_index, 7);
    assert_eq!(last.fee_rate.numerator, 2500);
}

#[test]
fn plan_tick_of_no_channels_is_empty() {
    let plans = plan_tick(&Vec::new(), &policy());
    assert!(plans.is_empty());
}

#[test]
fn settle_reports_each_outcome() {
    let plan = plan_update(&channel("beef:2", 200, 1000), &policy());
    assert_eq!(settle(&plan, true), Ok(()));
    assert_eq!(settle(&plan, false), Err(BalancerError::PolicyUpdateRejected));
    let skipped = plan_update(&channel("beef", 200, 1000), &policy());
    assert_eq!(settle(&skipped, true), Err(BalancerError::MalformedChannelPoint));
    assert_eq!(settle(&skipped, false), Err(BalancerError::MalformedChannelPoint));
}

#[test]
fn only_configuration_errors_are_fatal() {
    assert!(BalancerError::ConfigLoadError.is_fatal());
    assert!(!BalancerError::ConnectionError.is_fatal());
    assert!(!BalancerError::ChannelFetchError.is_fatal());
    assert!(!BalancerError::MalformedChannelPoint.is_fatal());
    assert!(!BalancerError::InvalidChannelState.is_fatal());
    assert!(!BalancerError::PolicyUpdateRejected.is_fatal());
}
