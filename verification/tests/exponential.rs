use moving_average::{blend_of, Exp, Ratio, MA};

#[test]
fn exp_multiplier_for_period_nine() {
    let prices: Vec<i64> = vec![1; 9];
    let exp = Exp::new(prices, 9).unwrap();
    let multiplier = exp.get_multiplier();
    assert_eq!(multiplier, Ratio { numerator: 2, denominator: 10 });
    assert_eq!(multiplier.numerator as f64 / multiplier.denominator as f64, 0.2);
    assert_eq!(multiplier.numerator as f32 / multiplier.denominator as f32, 0.2f32);
    assert_ne!(multiplier.numerator, 0);
}

#[test]
fn exp_multiplier_is_never_truncated() {
    let exp = Exp::new(vec![0; 65535], u16::MAX).unwrap();
    assert_eq!(exp.get_multiplier(), Ratio { numerator: 2, denominator: 65536 });
    let exp = Exp::new(vec![0, 0], 2).unwrap();
    assert_eq!(exp.get_multiplier(), Ratio { numerator: 2, denominator: 3 });
    let exp = Exp::new(vec![0], 1).unwrap();
    assert_eq!(exp.get_multiplier(), Ratio { numerator: 2, denominator: 2 });
}

#[test]
fn exp_initial_average_is_the_bootstrap_mean() {
    let exp = Exp::new(vec![10, 20, 30], 3).unwrap();
    assert_eq!(exp.get_average(), 20);
    assert_eq!(exp.get_period(), 3);
    let exp = Exp::new(vec![-1, -2], 2).unwrap();
    assert_eq!(exp.get_average(), -2);
}

#[test]
fn exp_update_blends_new_and_previous() {
    let mut exp = Exp::new(vec![10, 20, 30], 3).unwrap();
    assert_eq!(exp.new_price(30), 25);
    assert_eq!(exp.get_average(), 25);
    assert_eq!(exp.new_price(-100), -38);
    assert_eq!(exp.get_average(), -38);
    assert_eq!(exp.get_period(), 3);
}

#[test]
fn exp_period_nine_recurrence() {
    let mut exp = Exp::new(vec![100; 9], 9).unwrap();
    assert_eq!(exp.get_average(), 100);
    assert_eq!(exp.new_price(200), 120);
    assert_eq!(exp.new_price(200), 136);
    assert_eq!(exp.new_price(0), 108);
    assert_eq!(exp.new_price(7), 87);
}

#[test]
fn exp_period_one_tracks_the_latest_value() {
    let mut exp = Exp::new(vec![5], 1).unwrap();
    assert_eq!(exp.get_average(), 5);
    let stream: Vec<i64> = vec![3, -8, 0, 1_000_000_007, i64::MAX, i64::MIN, -1, 12];
    for price in stream {
        assert_eq!(exp.new_price(price), price);
        assert_eq!(exp.get_average(), price);
    }
    assert_eq!(exp.get_period(), 1);
}

#[test]
fn exp_constant_stream_keeps_the_average() {
    let mut exp = Exp::new(vec![77; 5], 5).unwrap();
    let mut step: u32 = 0;
    while step < 50 {
        assert_eq!(exp.new_price(77), 77);
        step += 1;
    }
    assert_eq!(exp.get_average(), 77);
}

#[test]
fn exp_handles_extreme_prices_without_overflow() {
    let mut exp = Exp::new(vec![i64::MAX, i64::MAX], 2).unwrap();
    assert_eq!(exp.get_average(), i64::MAX);
    assert_eq!(exp.new_price(i64::MAX), i64::MAX);
    assert_eq!(exp.new_price(i64::MIN), -3074457345618258603);
    let mut exp = Exp::new(vec![i64::MIN; 65535], u16::MAX).unwrap();
    assert_eq!(exp.get_average(), i64::MIN);
    assert_eq!(exp.new_price(i64::MIN), i64::MIN);
    assert_eq!(exp.new_price(i64::MAX), -9222809086901354497);
}

#[test]
fn exp_reads_are_idempotent() {
    let mut exp = Exp::new(vec![4, 8], 2).unwrap();
    let first = exp.get_average();
    let second = exp.get_average();
    assert_eq!(first, 6);
    assert_eq!(first, second);
    let returned = exp.new_price(9);
    assert_eq!(returned, 8);
    assert_eq!(exp.get_average(), returned);
    assert_eq!(exp.get_average(), exp.get_average());
}

#[test]
fn blend_rounds_toward_negative_infinity() {
    let two_thirds = Ratio { numerator: 2, denominator: 3 };
    assert_eq!(blend_of(0, 1, two_thirds), 0);
    assert_eq!(blend_of(0, -1, two_thirds), -1);
    assert_eq!(blend_of(3, 6, two_thirds), 5);
    assert_eq!(blend_of(-3, -6, two_thirds), -5);
    assert_eq!(blend_of(10, 11, Ratio { numerator: 2, denominator: 4 }), 10);
    assert_eq!(blend_of(-10, -11, Ratio { numerator: 2, denominator: 4 }), -11);
}

#[test]
fn blend_with_full_weight_is_the_new_price() {
    let one = Ratio { numerator: 7, denominator: 7 };
    assert_eq!(blend_of(123, 456, one), 456);
    assert_eq!(blend_of(i64::MIN, i64::MAX, one), i64::MAX);
    let top = Ratio { numerator: u32::MAX, denominator: u32::MAX };
    assert_eq!(blend_of(i64::MAX, i64::MIN, top), i64::MIN);
}

#[test]
fn blend_stays_between_its_inputs() {
    let weight = Ratio { numerator: 1, denominator: u32::MAX };
    assert_eq!(blend_of(i64::MAX, i64::MAX, weight), i64::MAX);
    assert_eq!(blend_of(i64::MIN, i64::MIN, weight), i64::MIN);
    let average = blend_of(100, 200, weight);
    assert!(100 <= average && average <= 200);
    assert_eq!(average, 100);
}

#[test]
fn exp_moves_toward_a_constant_price() {
    let mut exp = Exp::new(vec![110; 9], 9).unwrap();
    let falling: Vec<i64> = vec![109, 108, 107, 106, 105, 105, 105];
    for expected in falling {
        assert_eq!(exp.new_price(105), expected);
    }
    let mut exp = Exp::new(vec![90; 9], 9).unwrap();
    let rising: Vec<i64> = vec![93, 95, 97, 98, 99, 100, 101, 101, 101];
    for expected in rising {
        assert_eq!(exp.new_price(105), expected);
    }
}
