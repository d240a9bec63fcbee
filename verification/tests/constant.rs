use retro_wicket::constant::{describe, geogebra_doc, poly_consts, PolyConst};

#[test]
fn correction_curve_is_read_under_its_name() {
    let constant = poly_consts(
        "DISTANCE_ERROR_TO_VELOCITY_MULTIPLIER",
        "y = -0.646388x ^ 3 + 1.91648x ^ 2 - 2.08701x + 1",
    )
    .unwrap();
    assert_eq!(constant.name, "DISTANCE_ERROR_TO_VELOCITY_MULTIPLIER");
    assert_eq!(constant.coefficients, vec![-646_388, 1_916_480, -2_087_010, 1_000_000]);
    assert_eq!(
        constant.doc,
        "Polynomial `-0.646388x^3+1.916480x^2+-2.087010x^1+1.000000x^0`. \
         [View in GeoGebra](https://geogebra.org/classic?command=y=\
         -0.646388x%5E3%2B1.916480x%5E2%2B-2.087010x%5E1%2B1.000000x%5E0)"
    );
}

#[test]
fn constant_of_one_term() {
    assert_eq!(
        poly_consts("HALF", "y=.5"),
        Some(PolyConst {
            name: "HALF".to_string(),
            coefficients: vec![500_000],
            doc: "Polynomial `0.500000x^0`. \
                  [View in GeoGebra](https://geogebra.org/classic?command=y=0.500000x%5E0)"
                .to_string(),
        })
    );
}

#[test]
fn no_constant_without_a_formula() {
    assert_eq!(poly_consts("A", ""), None);
    assert_eq!(poly_consts("A", "y="), None);
    assert_eq!(poly_consts("A", "2x+1"), None);
    assert_eq!(poly_consts("A", "y=inf"), None);
    assert_eq!(poly_consts("A", "y=1e30x"), None);
}

#[test]
fn name_is_kept_as_it_is() {
    assert_eq!(poly_consts("", "y=1").unwrap().name, "");
    assert_eq!(poly_consts("a b\u{e9}", "y=1").unwrap().name, "a b\u{e9}");
}

#[test]
fn polynomial_is_written_out_from_the_highest_power_down() {
    assert_eq!(describe(&vec![]), "");
    assert_eq!(describe(&vec![0]), "0.000000x^0");
    assert_eq!(describe(&vec![5, -5]), "0.000005x^1+-0.000005x^0");
    assert_eq!(
        describe(&vec![12_345_678_901, 0, -1]),
        "12345.678901x^2+0.000000x^1+-0.000001x^0"
    );
    assert_eq!(
        describe(&vec![i64::MAX, i64::MIN]),
        "9223372036854.775807x^1+-9223372036854.775808x^0"
    );
    assert_eq!(describe(&vec![-999_999, 1_000_000]), "-0.999999x^1+1.000000x^0");
    let long = describe(&vec![1_000_000; 12]);
    assert!(long.starts_with("1.000000x^11+1.000000x^10+1.000000x^9+"));
    assert!(long.ends_with("+1.000000x^1+1.000000x^0"));
}

#[test]
fn documentation_holds_the_polynomial_and_the_link() {
    assert_eq!(
        geogebra_doc("a", "b"),
        "Polynomial `a`. [View in GeoGebra](https://geogebra.org/classic?command=y=b)"
    );
    assert_eq!(
        geogebra_doc("", ""),
        "Polynomial ``. [View in GeoGebra](https://geogebra.org/classic?command=y=)"
    );
}

#[test]
fn link_holds_signs_and_carets_as_percent_and_two_digits() {
    let doc = poly_consts("A", "y=-2x^2+3").unwrap().doc;
    let link = doc.split("command=y=").nth(1).unwrap();
    assert_eq!(link, "-2.000000x%5E2%2B0.000000x%5E1%2B3.000000x%5E0)");
    assert!(!link.contains('^') && !link.contains('+'));
}
