use basis_core::costs::{move_costs, release_costs, Costs};
use basis_core::error::Error;
use basis_core::models::ids::{CurrencyID, OccupationID, ResourceSpecID};
use basis_core::num::Num;
use rust_decimal::Decimal;
use std::str::FromStr;

fn num(s: &str) -> Num {
    let d = Decimal::from_str(s).unwrap();
    Num::from_i128_with_scale(d.mantissa(), d.scale())
}

fn dec(n: &Num) -> Decimal {
    Decimal::from_i128_with_scale(n.mantissa(), n.scale())
}

fn occ(s: &str) -> OccupationID {
    OccupationID::new(s)
}

fn res(s: &str) -> ResourceSpecID {
    ResourceSpecID::new(s)
}

fn cur(s: &str) -> CurrencyID {
    CurrencyID::new(s)
}

fn plus(a: &str, b: &str) -> Num {
    num(a).checked_add(&num(b)).unwrap()
}

fn minus(a: &str, b: &str) -> Num {
    num(a).checked_sub(&num(b)).unwrap()
}

fn times(a: &str, b: &str) -> Num {
    num(a).checked_mul(&num(b)).unwrap()
}

fn over(a: &str, b: &str) -> Num {
    num(a).checked_div(&num(b)).unwrap()
}

fn labor(id: &str, v: &str) -> Costs {
    Costs::new_with_labor(&occ(id), num(v)).unwrap()
}

fn add_fixtures(resource2: (&str, &str)) -> (Costs, Costs) {
    let mut costs1 = Costs::new();
    let mut costs2 = Costs::new();
    costs1.track_labor(&occ("miner"), num("6.0")).unwrap();
    costs1.track_resource(&res("widget"), num("3.1"), num("1.0")).unwrap();
    costs1.track_resource(&res("iron"), num("8.5"), num("0.0019")).unwrap();
    costs1.track_labor_hours(&occ("miner"), num("0.5")).unwrap();
    costs1.track_currency(&cur("usd"), Num::new(500, 2), num("0.99891")).unwrap();
    costs2.track_currency(&cur("eur"), Num::new(230, 2), num("0.99891")).unwrap();
    costs2.track_labor(&occ("miner"), num("2.0")).unwrap();
    costs2.track_labor(&occ("widgetmaker"), num("3.0")).unwrap();
    costs2.track_resource(&res("widget"), num("1.8"), num(resource2.0)).unwrap();
    costs2.track_resource(&res("oil"), num("5.6"), num(resource2.1)).unwrap();
    costs2.track_labor_hours(&occ("miner"), num("0.7")).unwrap();
    costs2.track_labor_hours(&occ("birthday clown"), num("0.3")).unwrap();
    costs2.track_currency(&cur("usd"), Num::new(1490, 2), num("0.99891")).unwrap();
    costs2.track_currency(&cur("cny"), Num::new(3000, 0), num("0.99891")).unwrap();
    (costs1, costs2)
}

#[test]
fn costs_add() {
    let (costs1, costs2) = add_fixtures(("1.2", "3.2"));
    let costs = costs1.add(costs2).unwrap();
    assert_eq!(costs.get_labor(&occ("miner")), plus("6.0", "2.0"));
    assert_eq!(costs.get_labor(&occ("widgetmaker")), num("3.0"));
    assert_eq!(costs.get_labor(&occ("joker")), num("0.0"));
    assert_eq!(costs.get_labor_hours(&occ("miner")), plus("0.5", "0.7"));
    assert_eq!(costs.get_labor_hours(&occ("birthday clown")), num("0.3"));
    assert_eq!(costs.get_labor_hours(&occ("magical wish pony")), num("0.0"));
    assert_eq!(costs.get_resource(&res("widget")), plus("3.1", "1.8"));
    assert_eq!(costs.get_resource(&res("iron")), plus("8.5", "0.0"));
    assert_eq!(costs.get_resource(&res("oil")), plus("5.6", "0.0"));
    assert_eq!(costs.get_currency(&cur("usd")), plus("5.00", "14.90"));
    assert_eq!(costs.get_currency(&cur("eur")), Num::new(230, 2));
    assert_eq!(costs.get_currency(&cur("cny")), Num::new(3000, 0));
    assert_eq!(costs.get_currency(&cur("btc")), Num::zero());
}

#[test]
fn sub() {
    let (costs1, costs2) = add_fixtures(("0.99", "2.3"));
    let costs = costs1.sub(costs2).unwrap();
    assert_eq!(costs.get_labor(&occ("miner")), minus("6.0", "2.0"));
    assert_eq!(costs.get_labor(&occ("widgetmaker")), num("-3.0"));
    assert_eq!(costs.get_labor(&occ("joker")), num("0.0"));
    assert_eq!(costs.get_labor_hours(&occ("miner")), minus("0.5", "0.7"));
    assert_eq!(costs.get_labor_hours(&occ("birthday clown")), num("-0.3"));
    assert_eq!(costs.get_labor_hours(&occ("magical wish pony")), num("0.0"));
    assert_eq!(costs.get_resource(&res("widget")), minus("3.1", "1.8"));
    assert_eq!(costs.get_resource(&res("iron")), minus("8.5", "0.0"));
    assert_eq!(costs.get_resource(&res("oil")), num("-5.6"));
    assert_eq!(costs.get_currency(&cur("usd")), minus("5.00", "14.90"));
    assert_eq!(costs.get_currency(&cur("eur")), Num::new(-230, 2));
    assert_eq!(costs.get_currency(&cur("cny")), Num::new(-3000, 0));
    assert_eq!(costs.get_currency(&cur("btc")), Num::zero());
}

#[test]
fn costs_mul() {
    let mut costs1 = Costs::new();
    costs1.track_labor(&occ("miner"), num("6.0")).unwrap();
    costs1.track_labor(&occ("widgetmaker"), num("3.0")).unwrap();
    costs1.track_resource(&res("widget"), num("3.1"), num("1.0")).unwrap();
    costs1.track_resource(&res("iron"), num("8.5"), num("0.0019")).unwrap();
    costs1.track_labor_hours(&occ("miner"), num("3.0")).unwrap();
    costs1.track_currency(&cur("cny"), Num::new(140000, 2), num("0.99891")).unwrap();

    let costs = costs1.mul(num("5.2")).unwrap();
    assert_eq!(costs.get_labor(&occ("miner")), times("6.0", "5.2"));
    assert_eq!(costs.get_labor(&occ("widgetmaker")), times("3.0", "5.2"));
    assert_eq!(costs.get_resource(&res("widget")), times("3.1", "5.2"));
    assert_eq!(costs.get_resource(&res("iron")), times("8.5", "5.2"));
    assert_eq!(costs.get_labor_hours(&occ("miner")), times("3.0", "5.2"));
    assert_eq!(costs.get_currency(&cur("cny")), times("1400.00", "5.2"));
}

#[test]
fn costs_div_f64() {
    let mut costs1 = Costs::new();
    costs1.track_labor(&occ("widgetmaker"), num("6.0")).unwrap();
    costs1.track_resource(&res("widget"), num("3.1"), num("1")).unwrap();
    costs1.track_resource(&res("oil"), num("5.6"), num("2.2")).unwrap();
    costs1.track_labor_hours(&occ("doctor"), num("14.0")).unwrap();
    costs1.track_currency(&cur("eur"), Num::new(43301, 2), num("0.99891")).unwrap();

    let costs = costs1.div(num("1.3")).unwrap();
    assert_eq!(costs.get_labor(&occ("widgetmaker")), over("6.0", "1.3"));
    assert_eq!(costs.get_resource(&res("widget")), over("3.1", "1.3"));
    assert_eq!(costs.get_resource(&res("oil")), over("5.6", "1.3"));
    assert_eq!(costs.get_labor_hours(&occ("doctor")), over("14.0", "1.3"));
    assert_eq!(costs.get_currency(&cur("eur")), over("433.01", "1.3"));
}

#[test]
fn track_0() {
    let mut costs = Costs::new();
    costs.track_labor(&occ("hippie"), Num::from_i64(0)).unwrap();
    costs.track_labor_hours(&occ("treeslider"), Num::from_i64(0)).unwrap();
    costs.track_currency(&cur("usd"), Num::from_i64(0), num("0.99891")).unwrap();
    costs.track_resource(&res("oil"), Num::from_i64(0), num("3.2")).unwrap();
    assert!(costs.same_as(&Costs::new()));
}

#[test]
fn eq() {
    let mut costs1 = Costs::new();
    costs1.track_labor(&occ("trucker"), Num::from_i64(13)).unwrap();
    costs1.track_labor(&occ("machinist"), Num::from_i64(17)).unwrap();

    let mut costs2 = Costs::new();
    costs2.track_labor(&occ("machinist"), Num::from_i64(17)).unwrap();
    costs2.track_labor(&occ("trucker"), Num::from_i64(13)).unwrap();

    assert!(costs1.same_as(&costs1.clone()));
    assert!(costs1.same_as(&costs2));
    assert!(!costs1.same_as(&labor("trucker", "13")));
    assert!(!costs1.same_as(&labor("machinist", "17")));
}

#[test]
fn div_0_by_0() {
    let costs1 = labor("clown", "0.0");
    let costs = costs1.div(Num::from_i64(0)).unwrap();
    assert_eq!(costs.get_labor(&occ("clown")), num("0.0"));
}

#[test]
fn is_sub_lt_0() {
    let costs1 = labor("clown", "0.0");
    let costs2 = Costs::new();
    assert_eq!(Costs::is_sub_lt_0(&costs1, &costs2), Some(false));
    assert_eq!(Costs::is_sub_lt_0(&costs2, &costs1), Some(false));

    let costs1 = labor("clown", "32.0");
    let costs2 = Costs::new();
    assert_eq!(Costs::is_sub_lt_0(&costs1, &costs2), Some(false));
    assert_eq!(Costs::is_sub_lt_0(&costs2, &costs1), Some(true));

    let costs1 = labor("machinist", "42.0");
    let costs2 = Costs::new_with_resource(&res("steel"), num("13.0"), num("0.031")).unwrap();
    assert_eq!(Costs::is_sub_lt_0(&costs1, &costs2), Some(true));
    assert_eq!(Costs::is_sub_lt_0(&costs2, &costs1), Some(true));

    let mut costs1 = Costs::new();
    costs1.track_labor(&occ("machinist"), num("42.0")).unwrap();
    costs1.track_labor(&occ("janitor"), num("16.0")).unwrap();
    costs1.track_labor(&occ("doctor"), num("49.0")).unwrap();
    costs1.track_labor_hours(&occ("machinist"), num("3.001")).unwrap();
    costs1.track_labor_hours(&occ("janitor"), num("1.2")).unwrap();
    costs1.track_labor_hours(&occ("doctor"), num("0.89002")).unwrap();
    costs1.track_resource(&res("steel"), num("13.0002292"), num("0.03")).unwrap();
    costs1.track_resource(&res("crude oil"), num("1.34411"), num("1.2")).unwrap();
    costs1.track_currency(&cur("usd"), Num::new(4298, 2), num("1.0019")).unwrap();
    let costs2 = costs1.clone();
    assert_eq!(Costs::is_sub_lt_0(&costs1, &costs2), Some(false));
    assert_eq!(Costs::is_sub_lt_0(&costs2, &costs1), Some(false));
}

#[test]
fn is_gt_0() {
    let mut costs = Costs::new();
    assert!(!costs.is_gt_0());

    costs.track_labor(&occ("athlete"), num("23.4")).unwrap();
    costs.track_resource(&res("water"), num("4.6"), num("0.004")).unwrap();
    costs.track_currency(&cur("usd"), num("3.42"), num("0.99891")).unwrap();
    assert!(costs.is_gt_0());

    let costs2 = costs.clone().sub(labor("plumber", "50")).unwrap();
    assert!(!costs2.is_gt_0());
}

#[test]
fn costs_is_zero() {
    let mut costs = Costs::new();
    assert!(costs.is_zero());
    costs.track_resource(&res("widget"), num("5.0"), num("0.3")).unwrap();
    assert!(!costs.is_zero());
    assert!(!labor("dictator", "4.0").is_zero());
}

#[test]
fn cost_mover() {
    let mut rec = Costs::new();
    let mut proc = Costs::new();

    match release_costs(&mut rec, &labor("jumper", "34.2")) {
        Err(Error::NegativeCosts) => {}
        _ => panic!("should have gotten NegativeCosts error"),
    }

    rec.track_labor(&occ("firefighter"), num("12.1")).unwrap();
    match move_costs(&mut rec, &mut proc, &labor("firefighter", "12.2")) {
        Err(Error::NegativeCosts) => {}
        _ => panic!("should have gotten NegativeCosts error"),
    }

    move_costs(&mut rec, &mut proc, &labor("firefighter", "12.0")).unwrap();
    assert!(rec.same_as(&Costs::new_with_labor(&occ("firefighter"), minus("12.1", "12.0")).unwrap()));
    assert!(proc.same_as(&labor("firefighter", "12.0")));
}

// -- further checks of the costs arithmetic --

#[test]
fn credits_follow_tracked_values() {
    let mut costs = Costs::new();
    costs.track_labor(&occ("miner"), num("6.0")).unwrap();
    costs.track_resource(&res("iron"), num("8.5"), num("2")).unwrap();
    costs.track_currency(&cur("usd"), num("10"), num("0.5")).unwrap();
    costs.track_labor_hours(&occ("miner"), num("3")).unwrap();
    // 6.0 of labor + 8.5 * 2 of iron + 10 * 0.5 of dollars; hours carry no credits
    assert_eq!(costs.credits(), num("28"));
}

#[test]
fn move_costs_conserves_the_total() {
    let mut from = Costs::new();
    from.track_labor(&occ("welder"), num("10")).unwrap();
    from.track_resource(&res("steel"), num("4"), num("1.5")).unwrap();
    let mut to = labor("welder", "1");
    let before_credits = dec(&from.credits()) + dec(&to.credits());
    let before_labor = dec(&from.get_labor(&occ("welder"))) + dec(&to.get_labor(&occ("welder")));
    let mut amount = labor("welder", "3");
    amount.track_resource(&res("steel"), num("1"), num("1.5")).unwrap();
    assert_eq!(move_costs(&mut from, &mut to, &amount), Ok(true));
    assert_eq!(dec(&from.credits()) + dec(&to.credits()), before_credits);
    assert_eq!(dec(&from.get_labor(&occ("welder"))) + dec(&to.get_labor(&occ("welder"))), before_labor);
    assert_eq!(to.get_resource(&res("steel")), num("1"));
    assert_eq!(from.get_resource(&res("steel")), num("3"));
}

#[test]
fn move_costs_of_nothing_changes_nothing() {
    let mut from = labor("welder", "10");
    let mut to = Costs::new();
    assert_eq!(move_costs(&mut from, &mut to, &Costs::new()), Ok(false));
    assert!(from.same_as(&labor("welder", "10")));
    assert!(to.is_zero());
}

#[test]
fn release_leaves_nothing_below_zero() {
    let mut costs = labor("welder", "10");
    let released = release_costs(&mut costs, &labor("welder", "10")).unwrap();
    assert!(released.same_as(&labor("welder", "10")));
    assert!(!costs.is_lt_0());
    assert_eq!(costs.get_labor(&occ("welder")), Num::zero());
}

#[test]
fn num_arithmetic_goes_through_rust_decimal() {
    // each of these would fail if the wrapper handed back its first argument
    assert_eq!(dec(&plus("1.5", "2.25")), Decimal::from_str("3.75").unwrap());
    assert_eq!(dec(&minus("1.5", "2.25")), Decimal::from_str("-0.75").unwrap());
    assert_eq!(dec(&times("1.5", "2")), Decimal::from_str("3.0").unwrap());
    assert_eq!(dec(&over("1", "4")), Decimal::from_str("0.25").unwrap());
    assert_eq!(num("2.500").normalize().scale(), 1);
    assert_eq!(dec(&num("2.345").round_dp(2)), Decimal::from_str("2.34").unwrap());
    assert_eq!(num("1.5").compare(&num("2")), -1);
    assert_eq!(num("2.0").compare(&num("2")), 0);
    assert_eq!(num("3").compare(&num("2.99")), 1);
    assert_eq!(num("3").neg(), num("-3"));
}

#[test]
fn num_overflow_is_reported() {
    let big = Num::from_i128_with_scale(79_228_162_514_264_337_593_543_950_335, 0);
    assert_eq!(big.checked_add(&Num::from_i64(1)), None);
    assert_eq!(big.checked_mul(&Num::from_i64(2)), None);
    assert_eq!(Num::from_i64(1).checked_div(&Num::zero()), None);
}

#[test]
fn costs_read_back_from_their_parts() {
    let mut costs = Costs::new();
    costs.track_labor(&occ("miner"), num("6.0")).unwrap();
    costs.track_labor_hours(&occ("miner"), num("2")).unwrap();
    costs.track_resource(&res("iron"), num("8.5"), num("0.0019")).unwrap();
    costs.track_currency(&cur("usd"), num("5.00"), num("0.99891")).unwrap();
    let again = Costs::from_parts(
        costs.credits(),
        &costs.resource().entries(),
        &costs.labor().entries(),
        &costs.labor_hours().entries(),
        &costs.currency().entries(),
    );
    assert!(again.same_as(&costs));
    assert_eq!(costs.labor().entries(), vec![("miner".to_string(), num("6"))]);
    // a later entry for a key replaces an earlier one, and zeros are left out
    let parts = vec![("a".to_string(), num("1")), ("a".to_string(), num("2.50")), ("b".to_string(), num("0"))];
    let c = Costs::from_parts(Num::zero(), &vec![], &parts, &vec![], &vec![]);
    assert_eq!(c.labor().entries(), vec![("a".to_string(), num("2.5"))]);
}

#[test]
fn scaling_example() {
    // the scalar arithmetic of the costs documentation
    let mut costs = Costs::new();
    costs.track_resource(&res("gasoline"), num("0.4"), num("1.3")).unwrap();
    costs.track_resource(&res("iron"), num("2.2"), num("0.0019")).unwrap();
    costs.track_labor(&occ("ceo"), num("42.0")).unwrap();
    costs.track_labor(&occ("machinist"), num("122.0")).unwrap();
    costs.track_labor_hours(&occ("ceo"), num("2.0")).unwrap();
    costs.track_labor_hours(&occ("machinist"), num("8.0")).unwrap();
    costs.track_currency(&cur("usd"), num("42.00"), num("0.99891")).unwrap();

    let costs2 = costs.mul(num("2.5")).unwrap();
    assert_eq!(costs2.get_resource(&res("gasoline")), times("0.4", "2.5"));
    assert_eq!(costs2.get_resource(&res("iron")), times("2.2", "2.5"));
    assert_eq!(costs2.get_labor(&occ("ceo")), times("42.0", "2.5"));
    assert_eq!(costs2.get_labor(&occ("machinist")), times("122.0", "2.5"));
    assert_eq!(costs2.get_labor_hours(&occ("ceo")), times("2.0", "2.5"));
    assert_eq!(costs2.get_labor_hours(&occ("machinist")), times("8.0", "2.5"));
    assert_eq!(costs2.get_currency(&cur("usd")), times("42.00", "2.5"));

    let costs3 = costs2.div(num("3.2")).unwrap();
    let third = |a: &str| times(a, "2.5").checked_div(&num("3.2")).unwrap();
    assert_eq!(costs3.get_resource(&res("gasoline")), third("0.4"));
    assert_eq!(costs3.get_resource(&res("iron")), third("2.2"));
    assert_eq!(costs3.get_labor(&occ("ceo")), third("42.0"));
    assert_eq!(costs3.get_labor(&occ("machinist")), third("122.0"));
    assert_eq!(costs3.get_labor_hours(&occ("ceo")), third("2.0"));
    assert_eq!(costs3.get_labor_hours(&occ("machinist")), third("8.0"));
    assert_eq!(costs3.get_currency(&cur("usd")), third("42.00"));
}

#[test]
fn div_negative_costs() {
    let c = Costs::new().sub(labor("plumber", "10")).unwrap();
    assert_eq!(c.get_labor(&occ("plumber")), num("-10"));
    assert!(!c.is_zero());
    let half = c.div(Num::from_i64(2)).unwrap();
    assert_eq!(half.get_labor(&occ("plumber")), num("-5"));
    assert_eq!(half.credits(), num("-5"));
}

#[test]
fn is_zero_means_empty() {
    assert!(Costs::new().is_zero());
    let neg = Costs::new().sub(labor("plumber", "3")).unwrap();
    assert!(!neg.is_zero());
    let back = neg.add(labor("plumber", "3")).unwrap();
    assert!(back.is_zero());
}

#[test]
fn add_commutes_and_sub_undoes_add() {
    let (a, b) = add_fixtures(("0.99", "2.3"));
    let ab = a.clone().add(b.clone()).unwrap();
    let ba = b.clone().add(a.clone()).unwrap();
    assert!(ab.same_as(&ba));
    assert_eq!(ab.get_labor(&occ("miner")), num("8.0"));
    let back = ab.sub(b.clone()).unwrap();
    assert!(back.same_as(&a));
    let there = a.clone().sub(b.clone()).unwrap().add(b).unwrap();
    assert!(there.same_as(&a));
}

#[test]
fn zeros_of_different_scales_add_to_the_second() {
    let a = Num::new(0, 1);
    let b = Num::new(0, 2);
    let s = a.checked_add(&b).unwrap();
    assert_eq!((s.mantissa(), s.scale()), (0, 2));
    let d = a.checked_sub(&b).unwrap();
    assert_eq!((d.mantissa(), d.scale()), (0, 2));
}

#[test]
fn wide_values_add_exactly() {
    // mantissas beyond 64 bits still add exactly where the result fits
    let a = Num::from_i128_with_scale(79_000_000_000_000_000_000_000_000_000, 28);
    let b = Num::from_i128_with_scale(1, 28);
    let s = a.checked_add(&b).unwrap();
    assert_eq!(s.mantissa(), 79_000_000_000_000_000_000_000_000_001);
    assert_eq!(s.scale(), 28);
}

#[test]
fn round_dp_is_bankers_rounding() {
    let r = |m: i64, s: u32, dp: u32| {
        let n = Num::new(m, s).round_dp(dp);
        (n.mantissa(), n.scale())
    };
    assert_eq!(r(25, 1, 0), (2, 0));
    assert_eq!(r(35, 1, 0), (4, 0));
    assert_eq!(r(-245, 2, 1), (-24, 1));
    assert_eq!(r(-2451, 3, 1), (-25, 1));
    assert_eq!(r(251, 2, 3), (251, 2));
    assert_eq!(r(0, 5, 2), (0, 2));
}
