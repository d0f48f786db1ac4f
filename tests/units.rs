use units_conversion::dimension::{
    acceleration, amount, area, current, dimensionless, energy, length, mass, power, temperature,
    time, velocity, volume, Dimension,
};
use units_conversion::parser::{parse_expr, parse_unit, unit_of_expr, Expr, Op, UnitParser};
use units_conversion::registry::lookup;
use units_conversion::scale::Scale;
use units_conversion::unit::Unit;

fn scale_value(s: Scale) -> f64 {
    2f64.powi(s.p2) * 3f64.powi(s.p3) * 5f64.powi(s.p5) * 7f64.powi(s.p7) * 773f64.powi(s.p773)
}

fn close(x: f64, y: f64) -> bool {
    (x - y).abs() <= 1e-9 * y.abs().max(1e-300)
}

fn dim(length: i32, mass: i32, time: i32) -> Dimension {
    Dimension { length, mass, time, current: 0, temperature: 0, amount: 0 }
}

fn parsed(text: &str) -> Unit {
    parse_unit(text).unwrap_or_else(|| panic!("{} should parse", text))
}

#[test]
fn dimension_algebra() {
    let d1 = Dimension { length: 1, mass: -2, time: 3, current: 4, temperature: -5, amount: 6 };
    let d2 = Dimension { length: -7, mass: 8, time: 0, current: 1, temperature: 2, amount: -3 };
    let product = d1.mul(d2);
    assert_eq!(product, Dimension { length: -6, mass: 6, time: 3, current: 5, temperature: -3, amount: 3 });
    assert_eq!(product.div(dimensionless()), product);
    assert_eq!(d1.div(d2), d1.mul(d2.pow(-1)));
    assert_eq!(d1.div(d2), Dimension { length: 8, mass: -10, time: 3, current: 3, temperature: -7, amount: 9 });
    assert_eq!(d1.pow(0), dimensionless());
    assert_eq!(d2.pow(0), dimensionless());
    assert_eq!(d1.pow(3), Dimension { length: 3, mass: -6, time: 9, current: 12, temperature: -15, amount: 18 });
}

#[test]
fn derived_dimensions() {
    assert_eq!(area(), length().pow(2));
    assert_eq!(volume(), length().pow(3));
    assert_eq!(velocity(), length().div(time()));
    assert_eq!(acceleration(), mass().div(time().pow(2)));
    assert_eq!(energy(), mass().div(velocity().pow(2)));
    assert_eq!(power(), energy().div(time()));
    assert_eq!(current().current, 1);
    assert_eq!(temperature().temperature, 1);
    assert_eq!(amount().amount, 1);
}

#[test]
fn lookup_known_and_unknown_symbols() {
    let km = lookup("km").unwrap();
    assert_eq!(km, Unit { dimension: length(), scale_to_si: Scale::power_of_ten(3) });
    assert!(close(scale_value(km.scale_to_si), 1000.0));
    let mj = lookup("MJ").unwrap();
    assert_eq!(mj, Unit { dimension: energy(), scale_to_si: Scale::power_of_ten(6) });
    assert!(close(scale_value(mj.scale_to_si), 1e6));
    assert!(lookup("xyz").is_none());
    assert!(lookup("").is_none());
    assert_eq!(lookup("km"), lookup("km"));
}

#[test]
fn lookup_table_entries() {
    assert_eq!(lookup("m").unwrap(), Unit { dimension: length(), scale_to_si: Scale::one() });
    assert!(close(scale_value(lookup("g").unwrap().scale_to_si), 1e-3));
    assert_eq!(lookup("kg").unwrap(), Unit { dimension: mass(), scale_to_si: Scale::one() });
    assert!(close(scale_value(lookup("t").unwrap().scale_to_si), 1e3));
    assert!(close(scale_value(lookup("µm").unwrap().scale_to_si), 1e-6));
    assert!(close(scale_value(lookup("nm").unwrap().scale_to_si), 1e-9));
    assert!(close(scale_value(lookup("dam").unwrap().scale_to_si), 10.0));
    assert!(close(scale_value(lookup("km2").unwrap().scale_to_si), 1e6));
    assert_eq!(lookup("km2").unwrap().dimension, area());
    assert!(close(scale_value(lookup("cm3").unwrap().scale_to_si), 1e-6));
    assert!(close(scale_value(lookup("ml").unwrap().scale_to_si), 1e-12));
    assert!(close(scale_value(lookup("L").unwrap().scale_to_si), 1e-3));
    assert!(close(scale_value(lookup("GSm3").unwrap().scale_to_si), 1e27));
    assert!(close(scale_value(lookup("kWh").unwrap().scale_to_si), 3.6e6));
    assert_eq!(lookup("Wh").unwrap().dimension, energy());
    assert!(close(scale_value(lookup("min").unwrap().scale_to_si), 60.0));
    assert!(close(scale_value(lookup("hour").unwrap().scale_to_si), 3600.0));
    assert!(close(scale_value(lookup("h").unwrap().scale_to_si), 3600.0));
    assert!(close(scale_value(lookup("day").unwrap().scale_to_si), 86400.0));
    assert!(close(scale_value(lookup("d").unwrap().scale_to_si), 86400.0));
    assert!(close(scale_value(lookup("yr").unwrap().scale_to_si), 31556952.0));
    assert_eq!(lookup("year").unwrap().dimension, time());
    assert!(close(scale_value(lookup("ha").unwrap().scale_to_si), 10000.0));
    assert_eq!(lookup("ha").unwrap().dimension, area());
    assert!(lookup("ms").is_none());
    assert!(lookup("kmin").is_none());
    assert!(lookup("M").is_none());
}

#[test]
fn parse_metre_per_second() {
    let u = parsed("m/s");
    assert_eq!(u.dimension, velocity());
    assert_eq!(u.scale_to_si, Scale::one());
    assert!(close(scale_value(u.scale_to_si), 1.0));
}

#[test]
fn parse_kilometre_per_hour() {
    let u = parsed("km/h");
    assert_eq!(u.dimension, velocity());
    assert_eq!(u.scale_to_si, Scale::new(-1, -2, 1, 0, 0));
    assert!(close(scale_value(u.scale_to_si), 1000.0 / 3600.0));
}

#[test]
fn parse_energy_per_standard_volume() {
    let u = parsed("MJ/Sm3");
    assert_eq!(u.dimension, energy().div(volume()));
    assert!(close(scale_value(u.scale_to_si), 1e6));
}

#[test]
fn chained_division_equals_grouped_product() {
    assert_eq!(parsed("J/m/s"), parsed("J/(m*s)"));
    assert_eq!(parsed("km/h/s"), parsed("km/(h*s)"));
    let u = parsed("km/h/s");
    assert_eq!(u.dimension, dim(1, 0, -2));
    assert!(close(scale_value(u.scale_to_si), 1000.0 / 3600.0));
}

#[test]
fn grouped_division_equals_product_quotient() {
    assert_eq!(parsed("J/(m/s)"), parsed("J*s/m"));
    assert_eq!(parsed("kWh/(Sm3/day)"), parsed("kWh*day/Sm3"));
    let u = parsed("J/(m/s)");
    assert_eq!(u.dimension, dim(-3, 1, 3));
}

#[test]
fn convert_same_and_different_dimensions() {
    let mj = Unit { dimension: energy(), scale_to_si: Scale::power_of_ten(6) };
    let j = Unit { dimension: energy(), scale_to_si: Scale::one() };
    assert_eq!(mj.convert(&j), Some(Unit { dimension: energy(), scale_to_si: Scale::power_of_ten(6) }));
    let m3 = Unit { dimension: volume(), scale_to_si: Scale::one() };
    assert_eq!(j.convert(&m3), None);
    let kwh = lookup("kWh").unwrap();
    let ratio = kwh.convert(&lookup("MJ").unwrap()).unwrap();
    assert_eq!(ratio.dimension, energy());
    assert!(close(scale_value(ratio.scale_to_si), 3.6));
}

#[test]
fn parse_failures() {
    assert!(parse_unit("").is_none());
    assert!(parse_unit("(").is_none());
    assert!(parse_unit("2m").is_none());
    assert!(parse_unit("()").is_none());
    assert!(parse_unit("m)").is_none());
    assert!(parse_unit("m/").is_none());
    assert!(parse_unit("m^s").is_none());
    assert!(parse_unit("2").is_none());
    assert!(parse_unit("m s").is_none());
    assert!(parse_unit("m^99999999999").is_none());
    assert!(parse_unit("xyz").is_none());
    assert!(parse_unit("m/xyz").is_none());
}

#[test]
fn exponent_binds_to_the_left() {
    assert_eq!(parsed("m^2"), lookup("m2").unwrap());
    assert_eq!(parsed("m^2^3").dimension, dim(6, 0, 0));
    assert_eq!(parsed("km^2^3").scale_to_si, Scale::power_of_ten(18));
    assert_eq!(parsed("m*s^2").dimension, dim(1, 0, 2));
    assert_eq!(parsed("m^2*s").dimension, dim(2, 0, 1));
    let u = parsed("m/s^2");
    assert_eq!(u.dimension, acceleration().mul(length()).div(mass()));
    assert_eq!(parsed("(km/h)^2").scale_to_si, Scale::new(-2, -4, 2, 0, 0));
    assert_eq!(parsed("m^0"), Unit { dimension: dimensionless(), scale_to_si: Scale::one() });
}

#[test]
fn division_takes_the_rest_of_the_expression() {
    let u = parsed("m/s*h");
    assert_eq!(u.dimension, dim(1, 0, -2));
    assert!(close(scale_value(u.scale_to_si), 1.0 / 3600.0));
    assert_eq!(parsed("((m))"), lookup("m").unwrap());
}

#[test]
fn exponent_overflow_is_rejected() {
    assert!(parse_unit("m^2147483647").is_some());
    assert!(parse_unit("m^2147483647^2").is_none());
    assert!(parse_unit("m^2147483648").is_none());
}

#[test]
fn parser_builds_trees() {
    match UnitParser::parse("a/b^2") {
        Some(Expr::BinOp { lhs, op: Op::Divide, rhs }) => {
            assert!(matches!(*lhs, Expr::Atom(ref s) if s == "a"));
            match *rhs {
                Expr::BinOp { lhs, op: Op::Exponent, rhs } => {
                    assert!(matches!(*lhs, Expr::Atom(ref s) if s == "b"));
                    assert!(matches!(*rhs, Expr::Num(2)));
                }
                other => panic!("unexpected {:?}", other),
            }
        }
        other => panic!("unexpected {:?}", other),
    }
    let chars: Vec<char> = "(Sm3)".chars().collect();
    match parse_expr(&chars, 1) {
        Some((Expr::Atom(s), 4)) => assert_eq!(s, "Sm3"),
        other => panic!("unexpected {:?}", other),
    }
    assert!(UnitParser::parse("m*").is_none());
}

#[test]
fn evaluator_rules() {
    let atom = Expr::Atom("km".to_string());
    assert_eq!(unit_of_expr(&atom, -1), lookup("km").map(|u| u.pow(-1)));
    assert_eq!(unit_of_expr(&Expr::Num(2), 1), None);
    let group = Expr::Paren(Box::new(Expr::BinOp {
        lhs: Box::new(Expr::Atom("m".to_string())),
        op: Op::Divide,
        rhs: Box::new(Expr::Atom("s".to_string())),
    }));
    assert_eq!(unit_of_expr(&group, -1).unwrap().dimension, dim(-1, 0, 1));
    let bad_power = Expr::BinOp {
        lhs: Box::new(Expr::Atom("m".to_string())),
        op: Op::Exponent,
        rhs: Box::new(Expr::Atom("s".to_string())),
    };
    assert_eq!(unit_of_expr(&bad_power, 1), None);
}

#[test]
fn unit_operations() {
    let km = lookup("km").unwrap();
    let h = lookup("h").unwrap();
    assert_eq!(km.div(h), parsed("km/h"));
    assert_eq!(km.mul(h), parsed("km*h"));
    assert_eq!(km.pow(2), parsed("km^2"));
    assert_eq!(km.checked_pow(i32::MAX), None);
    assert_eq!(km.checked_mul(h), Some(km.mul(h)));
}

#[test]
fn dimension_text_lists_time_mass_length_temperature_current_amount() {
    assert_eq!(parsed("MJ/Sm3").to_text(), "2;1;-5;0;0;0");
    let u = Unit {
        dimension: Dimension { length: -12, mass: 345, time: 0, current: 7, temperature: -1, amount: 10 },
        scale_to_si: Scale::one(),
    };
    assert_eq!(u.to_text(), "0;345;-12;-1;7;10");
    let extreme = Unit {
        dimension: Dimension { length: i32::MIN, mass: i32::MAX, time: 0, current: 0, temperature: 0, amount: 0 },
        scale_to_si: Scale::one(),
    };
    assert_eq!(extreme.to_text(), "0;2147483647;-2147483648;0;0;0");
}
