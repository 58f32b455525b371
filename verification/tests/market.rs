use lmsr::cost::CostEvaluation;
use lmsr::ops::FloatOp;
use lmsr::price::PriceEvaluation;

/// Performs one requested binary64 operation and returns the result bits.
fn eval(op: FloatOp) -> u64 {
    match op {
        FloatOp::Add { augend, addend } => {
            (f64::from_bits(augend) + f64::from_bits(addend)).to_bits()
        }
        FloatOp::Div { dividend, divisor } => {
            (f64::from_bits(dividend) / f64::from_bits(divisor)).to_bits()
        }
        FloatOp::Mul {
            multiplicand,
            multiplier,
        } => (f64::from_bits(multiplicand) * f64::from_bits(multiplier)).to_bits(),
        FloatOp::Exp { operand } => f64::from_bits(operand).exp().to_bits(),
        FloatOp::Ln { operand } => f64::from_bits(operand).ln().to_bits(),
    }
}

fn calculate_cost(q: &[f64], b: f64) -> f64 {
    let bits: Vec<u64> = q.iter().map(|x| x.to_bits()).collect();
    let mut m = CostEvaluation::new(bits, b.to_bits());
    while let Some(op) = m.next_request() {
        m.respond(eval(op));
    }
    f64::from_bits(m.result_bits())
}

fn calculate_price(q: &[f64], b: f64, outcome_index: usize) -> f64 {
    let bits: Vec<u64> = q.iter().map(|x| x.to_bits()).collect();
    let mut m = match PriceEvaluation::try_new(bits, b.to_bits(), outcome_index) {
        Some(m) => m,
        None => panic!("outcome index out of range"),
    };
    while let Some(op) = m.next_request() {
        m.respond(eval(op));
    }
    f64::from_bits(m.result_bits())
}

#[test]
fn test_calculate_cost_empty_vector() {
    let q = vec![];
    let b = 50.0;
    let cost = calculate_cost(&q, b);
    assert_eq!(
        cost,
        f64::NEG_INFINITY,
        "Cost of the empty market is b * ln(0) = -infinity for positive b"
    );
}

#[test]
fn test_calculate_cost_equal_bets() {
    let q = vec![100.0, 100.0, 100.0];
    let b = 50.0;
    let cost = calculate_cost(&q, b);
    println!("Equal bets cost: {}", cost);
    assert!(cost > 0.0, "Cost should be positive");
}

#[test]
fn test_calculate_cost_high_b_value() {
    let q = vec![100.0, 200.0, 300.0];
    let b = 1000.0; // Large b value
    let cost = calculate_cost(&q, b);
    println!("High b value cost: {}", cost);
    assert!(cost > 0.0, "Cost should still be positive");
}

#[test]
fn test_calculate_cost_low_b_value() {
    let q = vec![100.0, 200.0, 300.0];
    let b = 0.1; // Small b value
    let cost = calculate_cost(&q, b);
    println!("Low b value cost: {}", cost);
    assert!(cost > 0.0, "Cost should still be positive");
}

#[test]
fn test_calculate_cost_negative_values() {
    let q = vec![-100.0, 200.0, -300.0];
    let b = 50.0;
    let cost = calculate_cost(&q, b);
    println!("Negative values cost: {}", cost);
    assert!(cost.is_finite(), "Cost should be finite even with negative inputs");
}

#[test]
fn test_calculate_price_single_outcome() {
    let q = vec![100.0];
    let b = 50.0;
    let price = calculate_price(&q, b, 0);
    println!("Price for single outcome: {}", price);
    assert!((price - 1.0).abs() < f64::EPSILON, "Price should be 1 for a single outcome");
}

#[test]
fn test_calculate_price_zero_bets() {
    let q = vec![0.0, 0.0, 0.0];
    let b = 50.0;
    let price = calculate_price(&q, b, 1);
    println!("Price for zero bets: {}", price);
    assert_eq!(price, 1.0 / 3.0, "Price is exactly 1/n when every quantity is zero");
}

#[test]
fn test_calculate_price_high_concentration() {
    let q = vec![1000.0, 1.0, 1.0];
    let b = 50.0;
    let price = calculate_price(&q, b, 0);
    println!("Price with high concentration: {}", price);
    assert!(price > 0.9, "Price should be very high for concentrated outcome");
}

#[test]
fn test_calculate_price_outcome_index_out_of_bounds() {
    let q: Vec<f64> = vec![100.0, 200.0];
    let b: f64 = 50.0;
    let bits: Vec<u64> = q.iter().map(|x| x.to_bits()).collect();
    let result = PriceEvaluation::try_new(bits, b.to_bits(), 2); // Invalid index
    assert!(result.is_none(), "Index out of bounds must be refused");
}

#[test]
fn price_of_sole_outcome_is_one_for_negative_quantity() {
    let price = calculate_price(&[-7.5], 3.0, 0);
    assert_eq!(price, 1.0);
}

#[test]
fn price_of_sole_outcome_is_one_for_negative_liquidity() {
    let price = calculate_price(&[4.25], -2.0, 0);
    assert_eq!(price, 1.0);
}

#[test]
fn all_zero_quantities_price_every_outcome_at_one_third() {
    for i in 0..3 {
        assert_eq!(calculate_price(&[0.0, 0.0, 0.0], 50.0, i), 1.0 / 3.0);
        assert_eq!(calculate_price(&[0.0, 0.0, 0.0], -2.0, i), 1.0 / 3.0);
    }
}

#[test]
fn all_zero_quantities_cost_is_liquidity_times_ln_n() {
    let cost = calculate_cost(&[0.0, 0.0, 0.0], 50.0);
    assert_eq!(cost, 50.0 * 3.0_f64.ln());
}

#[test]
fn empty_market_cost_is_positive_infinity_for_negative_liquidity() {
    assert_eq!(calculate_cost(&[], -2.0), f64::INFINITY);
}

#[test]
fn zero_liquidity_yields_nan() {
    assert!(calculate_cost(&[1.0], 0.0).is_nan());
    assert!(calculate_price(&[0.0, 0.0, 0.0], 0.0, 1).is_nan());
}

#[test]
fn cost_is_finite_for_moderate_finite_inputs() {
    let cost = calculate_cost(&[1.0, 2.0, 3.0], 7.0);
    assert!(cost.is_finite());
}

#[test]
fn prices_sum_to_one_across_outcomes() {
    let q: [f64; 4] = [3.0, 1.0, 2.0, 5.5];
    let b: f64 = 2.0;
    let mut total: f64 = 0.0;
    for i in 0..q.len() {
        total += calculate_price(&q, b, i);
    }
    assert!((total - 1.0).abs() < 1e-9, "Prices should sum to 1, got {}", total);
}

#[test]
fn price_refused_for_any_index_into_empty_market() {
    assert!(PriceEvaluation::try_new(Vec::new(), 50.0_f64.to_bits(), 0).is_none());
}

#[test]
fn denominator_requests_do_not_depend_on_the_outcome_index() {
    let q: [f64; 3] = [3.0, 1.0, 2.0];
    let b: f64 = 2.0;
    let record = |outcome_index: usize| -> Vec<FloatOp> {
        let bits: Vec<u64> = q.iter().map(|x| x.to_bits()).collect();
        let mut m = PriceEvaluation::try_new(bits, b.to_bits(), outcome_index).unwrap();
        let mut ops = Vec::new();
        while let Some(op) = m.next_request() {
            ops.push(op);
            m.respond(eval(op));
        }
        ops
    };
    let first = record(0);
    let second = record(2);
    // Three requests per denominator term are shared; the numerator's are not.
    assert_eq!(first[..3 * q.len()], second[..3 * q.len()]);
    assert_ne!(first[3 * q.len()], second[3 * q.len()]);
}

#[test]
fn cost_requests_follow_the_formula() {
    let q: [f64; 1] = [2.0];
    let b: f64 = 4.0;
    let mut m = CostEvaluation::new(vec![2.0_f64.to_bits()], b.to_bits());
    let first = m.next_request().unwrap();
    assert_eq!(
        first,
        FloatOp::Div {
            dividend: 2.0_f64.to_bits(),
            divisor: 4.0_f64.to_bits()
        }
    );
    m.respond(eval(first));
    let second = m.next_request().unwrap();
    assert_eq!(
        second,
        FloatOp::Exp {
            operand: (2.0_f64 / 4.0).to_bits()
        }
    );
    m.respond(eval(second));
    let third = m.next_request().unwrap();
    assert_eq!(
        third,
        FloatOp::Add {
            augend: 0.0_f64.to_bits(),
            addend: (2.0_f64 / 4.0).exp().to_bits()
        }
    );
    m.respond(eval(third));
    let fourth = m.next_request().unwrap();
    assert_eq!(
        fourth,
        FloatOp::Ln {
            operand: (0.0 + (2.0_f64 / 4.0).exp()).to_bits()
        }
    );
    m.respond(eval(fourth));
    let fifth = m.next_request().unwrap();
    assert_eq!(
        fifth,
        FloatOp::Mul {
            multiplicand: 4.0_f64.to_bits(),
            multiplier: (0.0 + (2.0_f64 / 4.0).exp()).ln().to_bits()
        }
    );
    m.respond(eval(fifth));
    assert!(m.next_request().is_none());
    let expected = 4.0 * (0.0 + (2.0_f64 / 4.0).exp()).ln();
    assert_eq!(f64::from_bits(m.result_bits()), expected);
    assert_eq!(calculate_cost(&q, b), expected);
}
