use model_select::family::{
    family_order, Cubic, Exponent, Family, FittedModel, Linear, Logrithm, Power, Quadratic,
    FAMILY_COUNT,
};
use model_select::point_set::{prepare_point_set, Point};

fn pt(x: f64, y: f64) -> Point {
    Point { x: x.to_bits(), y: y.to_bits() }
}

#[test]
fn the_family_order_is_fixed() {
    let order = family_order();
    assert_eq!(
        order,
        vec![
            Family::Linear,
            Family::Quadratic,
            Family::Cubic,
            Family::Exponent,
            Family::Logrithm,
            Family::Power,
        ]
    );
    assert_eq!(order.len(), FAMILY_COUNT);
    for (i, fam) in order.iter().enumerate() {
        assert_eq!(fam.index(), i);
    }
}

#[test]
fn family_names_match_the_report_headings() {
    assert_eq!(Family::Linear.name(), "Linear");
    assert_eq!(Family::Quadratic.name(), "Quadratic");
    assert_eq!(Family::Cubic.name(), "Cubic");
    assert_eq!(Family::Exponent.name(), "Exponent");
    assert_eq!(Family::Logrithm.name(), "Natural Logarithm");
    assert_eq!(Family::Power.name(), "Power");
}

#[test]
fn domain_screening_follows_the_log_transforms() {
    // a negative abscissa blocks the families that take ln(x)
    let neg_x = prepare_point_set(&vec![pt(-1.0, 2.0), pt(3.0, 4.0)]).unwrap();
    assert!(Family::Linear.domain_ok(&neg_x));
    assert!(Family::Quadratic.domain_ok(&neg_x));
    assert!(Family::Cubic.domain_ok(&neg_x));
    assert!(Family::Exponent.domain_ok(&neg_x));
    assert!(!Family::Logrithm.domain_ok(&neg_x));
    assert!(!Family::Power.domain_ok(&neg_x));

    // a negative ordinate blocks the families that take ln(y)
    let neg_y = prepare_point_set(&vec![pt(1.0, -2.0)]).unwrap();
    assert!(Family::Linear.domain_ok(&neg_y));
    assert!(!Family::Exponent.domain_ok(&neg_y));
    assert!(Family::Logrithm.domain_ok(&neg_y));
    assert!(!Family::Power.domain_ok(&neg_y));

    // zeros were substituted by a positive epsilon, so nothing is blocked
    let zeros = prepare_point_set(&vec![pt(0.0, 0.0), pt(1.0, 2.0)]).unwrap();
    for fam in family_order() {
        assert!(fam.domain_ok(&zeros));
    }
}

#[test]
fn fitted_models_expose_family_and_coefficients() {
    let lin = FittedModel::Linear(Linear { a: (2.0f64).to_bits(), b: (3.0f64).to_bits() });
    assert_eq!(lin.family(), Family::Linear);
    assert_eq!(lin.coefficients(), vec![(3.0f64).to_bits(), (2.0f64).to_bits()]);

    let qua = FittedModel::Quadratic(Quadratic {
        a0: (1.0f64).to_bits(),
        a1: (0.5f64).to_bits(),
        a2: (0.25f64).to_bits(),
    });
    assert_eq!(qua.family(), Family::Quadratic);
    assert_eq!(qua.coefficients().len(), 3);

    let cub = FittedModel::Cubic(Cubic {
        a0: 0,
        a1: (1.0f64).to_bits(),
        a2: (2.0f64).to_bits(),
        a3: (3.0f64).to_bits(),
    });
    assert_eq!(cub.family(), Family::Cubic);
    assert_eq!(cub.coefficients().len(), 4);

    let exp = FittedModel::Exponent(Exponent { a0: (1.0f64).to_bits(), a1: 0 });
    assert_eq!(exp.family(), Family::Exponent);
    let log = FittedModel::Logrithm(Logrithm { a0: (1.0f64).to_bits(), a1: 0 });
    assert_eq!(log.family(), Family::Logrithm);
    let pow = FittedModel::Power(Power { a0: (1.0f64).to_bits(), a1: (2.0f64).to_bits() });
    assert_eq!(pow.family(), Family::Power);
}

#[test]
fn non_finite_coefficients_are_caught() {
    let good = FittedModel::Linear(Linear { a: (2.0f64).to_bits(), b: (-3.5f64).to_bits() });
    assert!(good.coefficients_finite());

    let nan = FittedModel::Linear(Linear { a: f64::NAN.to_bits(), b: (1.0f64).to_bits() });
    assert!(!nan.coefficients_finite());

    let inf = FittedModel::Cubic(Cubic {
        a0: (1.0f64).to_bits(),
        a1: (1.0f64).to_bits(),
        a2: f64::INFINITY.to_bits(),
        a3: (1.0f64).to_bits(),
    });
    assert!(!inf.coefficients_finite());
}
