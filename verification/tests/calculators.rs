use lndbalancer::{
    calculate_fee_target, calculate_htlc_max, BalancerError, ChannelSnapshot, Config, FeeRate,
};

fn channel(local_balance: i64, capacity: i64) -> ChannelSnapshot {
    ChannelSnapshot {
        channel_point: String::from("aa:0"),
        local_balance,
        capacity,
    }
}

fn policy(min: i64, max: i64, intervals: i8) -> Config {
    Config {
        dynamic_fees: true,
        dynamic_fee_update_frequency: 100,
        dynamic_fee_intervals: intervals,
        dynamic_fee_min: min,
        dynamic_fee_max: max,
    }
}

fn as_float(rate: FeeRate) -> f64 {
    rate.numerator as f64 / rate.denominator as f64
}

#[test]
fn config_default() {
    let config = Config::default();
    assert_eq!(config.dynamic_fee_max, 1000);
}

#[test]
fn config_default_is_complete() {
    let config = Config::default();
    assert_eq!(
        config,
        Config {
            dynamic_fees: true,
            dynamic_fee_min: 100,
            dynamic_fee_max: 1000,
            dynamic_fee_intervals: 5,
            dynamic_fee_update_frequency: 100,
        }
    );
    assert!(config.check());
}

#[test]
fn config_check_refuses_broken_policies() {
    assert!(policy(10, 500, 5).check());
    assert!(policy(10, 10, 1).check());
    assert!(!policy(11, 10, 5).check());
    assert!(!policy(10, 500, 0).check());
    assert!(!policy(10, 500, -1).check());
    let mut stalled = policy(10, 500, 5);
    stalled.dynamic_fee_update_frequency = 0;
    assert!(!stalled.check());
}

#[test]
fn calculate_htlc_max_channels() {
    let config = Config {
        dynamic_fees: true,
        dynamic_fee_update_frequency: 100,
        dynamic_fee_intervals: 5,
        dynamic_fee_min: 100,
        dynamic_fee_max: 500,
    };

    let test_cases: Vec<(i64, u64)> = vec![
        (1_557_248_000, 900_000_000),
        (7_305_243_000, 4_500_000_000),
        (4_492_794_000, 3_600_000_000),
        (12_630_110_000, 9_000_000_000),
    ];

    for (ours, target) in test_cases {
        let c = channel(ours, 0);
        let calc = calculate_htlc_max(&c, &config).unwrap();
        assert_eq!(calc, target);
    }
}

#[test]
fn calculate_fee_target_for_channels() {
    let config = Config {
        dynamic_fees: true,
        dynamic_fee_update_frequency: 100,
        dynamic_fee_intervals: 5,
        dynamic_fee_min: 10,
        dynamic_fee_max: 500,
    };

    let test_cases: Vec<(i64, i64, f64)> = vec![
        (1000, 1000, 1e-5),
        (1000, 0, 0.0005),
        (1000, 200, 0.000402),
        (1000, 205, 0.000402),
        (1000, 599, 0.000206),
        (1000, 605, 0.000206),
        (1000, 795, 0.000108),
    ];

    for (channel_size, ours, fee) in test_cases {
        let c = channel(ours, channel_size);
        let target = calculate_fee_target(&c, &config).unwrap();
        assert_eq!(as_float(target), fee)
    }
}

#[test]
fn fee_target_is_an_exact_fraction() {
    let config = policy(10, 500, 5);
    let rate = calculate_fee_target(&channel(200, 1000), &config).unwrap();
    assert_eq!(rate, FeeRate { numerator: 2010, denominator: 5_000_000 });
    let rate = calculate_fee_target(&channel(1000, 1000), &config).unwrap();
    assert_eq!(rate, FeeRate { numerator: 50, denominator: 5_000_000 });
    let rate = calculate_fee_target(&channel(0, 1000), &config).unwrap();
    assert_eq!(rate, FeeRate { numerator: 2500, denominator: 5_000_000 });
}

#[test]
fn fee_target_keeps_uneven_steps_exact() {
    // 7 / 3 parts per million per bucket: bucket 2 of 3 is 10 + 14 / 3.
    let config = policy(10, 17, 3);
    let rate = calculate_fee_target(&channel(1, 3), &config).unwrap();
    assert_eq!(rate, FeeRate { numerator: 44, denominator: 3_000_000 });
}

#[test]
fn fee_target_rounds_halves_upwards() {
    let config = policy(10, 500, 5);
    // Half the capacity is two and a half intervals: bucket 3.
    let rate = calculate_fee_target(&channel(500, 1000), &config).unwrap();
    assert_eq!(rate.numerator, 10 * 5 + 490 * 3);
    // Just short of the half stays in bucket 2.
    let rate = calculate_fee_target(&channel(501, 1000), &config).unwrap();
    assert_eq!(rate.numerator, 10 * 5 + 490 * 2);
}

#[test]
fn fee_target_refuses_channel_without_capacity() {
    let config = policy(10, 500, 5);
    assert_eq!(
        calculate_fee_target(&channel(0, 0), &config),
        Err(BalancerError::InvalidChannelState)
    );
    assert_eq!(
        calculate_fee_target(&channel(5, 0), &config),
        Err(BalancerError::InvalidChannelState)
    );
}

#[test]
fn fee_target_refuses_balance_beyond_capacity() {
    let config = policy(10, 500, 5);
    assert_eq!(
        calculate_fee_target(&channel(1001, 1000), &config),
        Err(BalancerError::InvalidChannelState)
    );
}

#[test]
fn fee_target_refuses_negative_amounts() {
    let config = policy(10, 500, 5);
    assert_eq!(
        calculate_fee_target(&channel(-1, 1000), &config),
        Err(BalancerError::InvalidChannelState)
    );
    assert_eq!(
        calculate_fee_target(&channel(-5, -10), &config),
        Err(BalancerError::InvalidChannelState)
    );
    assert_eq!(
        calculate_fee_target(&channel(0, -1), &config),
        Err(BalancerError::InvalidChannelState)
    );
}

#[test]
fn fee_target_never_falls_as_balance_drains() {
    let config = policy(10, 500, 5);
    let capacity: i64 = 1000;
    let mut previous: i128 = i128::MAX;
    let mut local: i64 = 0;
    while local <= capacity {
        let rate = calculate_fee_target(&channel(local, capacity), &config).unwrap();
        assert!(rate.numerator <= previous);
        previous = rate.numerator;
        local += 1;
    }
    assert_eq!(previous, 50);
}

#[test]
fn fee_target_stays_within_the_configured_range() {
    let config = policy(-20, 700, 7);
    let capacity: i64 = 997;
    let mut local: i64 = 0;
    while local <= capacity {
        let rate = calculate_fee_target(&channel(local, capacity), &config).unwrap();
        assert_eq!(rate.denominator, 7_000_000);
        assert!(rate.numerator >= -20 * 7);
        assert!(rate.numerator <= 700 * 7);
        local += 1;
    }
}

#[test]
fn fee_target_at_the_limits_of_the_types() {
    let config = policy(i64::MIN, i64::MAX, 127);
    let rate = calculate_fee_target(&channel(0, i64::MAX), &config).unwrap();
    assert_eq!(rate.numerator, (i64::MAX as i128) * 127);
    assert_eq!(rate.denominator, 127_000_000);
    let rate = calculate_fee_target(&channel(i64::MAX, i64::MAX), &config).unwrap();
    assert_eq!(rate.numerator, (i64::MIN as i128) * 127);
}

#[test]
fn calculators_repeat_their_results() {
    let config = policy(10, 500, 5);
    let c = channel(795, 1000);
    assert_eq!(
        calculate_fee_target(&c, &config),
        calculate_fee_target(&c, &config)
    );
    assert_eq!(calculate_htlc_max(&c, &config), calculate_htlc_max(&c, &config));
    let mut other = config;
    other.dynamic_fees = false;
    other.dynamic_fee_update_frequency = 7;
    assert_eq!(
        calculate_fee_target(&c, &config),
        calculate_fee_target(&c, &other)
    );
}

#[test]
fn htlc_max_is_floored_below_the_second_rung() {
    let config = policy(10, 500, 5);
    for balance in [i64::MIN, -1, 0, 1, 500, 999, 1_000, 1_111, 1_112, 99_999] {
        assert_eq!(calculate_htlc_max(&channel(balance, 0), &config), Ok(1_000));
    }
}

#[test]
fn htlc_max_steps_at_every_rung() {
    let config = policy(10, 500, 5);
    let rungs: [i64; 18] = [
        1_000,
        100_000,
        250_000,
        1_000_000,
        10_000_000,
        50_000_000,
        100_000_000,
        250_000_000,
        500_000_000,
        1_000_000_000,
        2_000_000_000,
        3_000_000_000,
        4_000_000_000,
        5_000_000_000,
        7_500_000_000,
        10_000_000_000,
        15_000_000_000,
        20_000_000_000,
    ];
    let mut below: u64 = 1_000;
    for rung in rungs {
        let expected: u64 = if rung == 1_000 { 1_000 } else { rung as u64 / 10 * 9 };
        assert_eq!(calculate_htlc_max(&channel(rung - 1, 0), &config), Ok(below));
        assert_eq!(calculate_htlc_max(&channel(rung, 0), &config), Ok(expected));
        assert_eq!(calculate_htlc_max(&channel(rung + 1, 0), &config), Ok(expected));
        assert!(expected >= below);
        below = expected;
    }
    assert_eq!(
        calculate_htlc_max(&channel(i64::MAX, 0), &config),
        Ok(18_000_000_000)
    );
}
