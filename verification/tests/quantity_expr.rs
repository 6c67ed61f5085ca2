use emstudio::quantity_expr::{BaseQuantity, QuantityExpression, Transform};

#[test]
fn parse_db_s11() {
    let expr = QuantityExpression::parse("dB(S(1,1))").unwrap();
    assert_eq!(expr.base, BaseQuantity::SParameter { row: 1, col: 1 });
    assert_eq!(expr.transforms, vec![Transform::MagnitudeDB]);
}

#[test]
fn parse_ang_deg_s21() {
    let expr = QuantityExpression::parse("ang_deg(S(2,1))").unwrap();
    assert_eq!(expr.base, BaseQuantity::SParameter { row: 2, col: 1 });
    assert_eq!(expr.transforms, vec![Transform::AngleDeg]);
}

#[test]
fn parse_bare_s_param() {
    let expr = QuantityExpression::parse("S(1,1)").unwrap();
    assert_eq!(expr.base, BaseQuantity::SParameter { row: 1, col: 1 });
    assert!(expr.transforms.is_empty());
}

#[test]
fn parse_vswr() {
    let expr = QuantityExpression::parse("VSWR(S(1,1))").unwrap();
    assert_eq!(expr.base, BaseQuantity::SParameter { row: 1, col: 1 });
    assert_eq!(expr.transforms, vec![Transform::VSWR]);
}

#[test]
fn parse_real_imaginary() {
    let re = QuantityExpression::parse("re(S(1,1))").unwrap();
    assert_eq!(re.transforms, vec![Transform::Real]);

    let im = QuantityExpression::parse("im(S(1,1))").unwrap();
    assert_eq!(im.transforms, vec![Transform::Imaginary]);
}

#[test]
fn parse_convergence_quantities() {
    let ds = QuantityExpression::parse("DeltaS").unwrap();
    assert_eq!(ds.base, BaseQuantity::ConvergenceDeltaS);

    let tet = QuantityExpression::parse("Tetrahedra").unwrap();
    assert_eq!(tet.base, BaseQuantity::ConvergenceTetrahedra);
}

#[test]
fn parse_far_field() {
    let expr = QuantityExpression::parse("GainTotal").unwrap();
    assert_eq!(expr.base, BaseQuantity::FarFieldQuantity("GainTotal".into()));
}

#[test]
fn parse_rlcg() {
    let expr = QuantityExpression::parse("R(1,2)").unwrap();
    assert_eq!(
        expr.base,
        BaseQuantity::RlcgElement {
            matrix_type: 'R',
            row: 0,
            col: 1,
        }
    );
}

#[test]
fn parse_error_unknown_function() {
    let result = QuantityExpression::parse("foo(S(1,1))");
    assert!(result.is_err());
}

#[test]
fn parse_surrounding_whitespace_is_ignored() {
    let a = QuantityExpression::parse("  dB(S(1,1)) ").unwrap();
    let b = QuantityExpression::parse("dB(S(1,1))").unwrap();
    assert_eq!(a, b);
}

#[test]
fn parse_transform_wraps_inner_expression() {
    let inner = QuantityExpression::parse("Z(2,3)").unwrap();
    let outer = QuantityExpression::parse("mag(Z(2,3))").unwrap();
    assert_eq!(outer.base, inner.base);
    assert_eq!(outer.base, BaseQuantity::ZParameter { row: 2, col: 3 });
    assert_eq!(outer.transforms, vec![Transform::Magnitude]);
}

#[test]
fn parse_other_convergence_and_rlcg() {
    assert_eq!(
        QuantityExpression::parse("DeltaEnergy").unwrap().base,
        BaseQuantity::ConvergenceDeltaEnergy
    );
    assert_eq!(
        QuantityExpression::parse("C(2,2)").unwrap().base,
        BaseQuantity::RlcgElement { matrix_type: 'C', row: 1, col: 1 }
    );
    assert_eq!(
        QuantityExpression::parse("ang_rad(S(1,2))").unwrap().transforms,
        vec![Transform::AngleRad]
    );
}

#[test]
fn parse_errors() {
    assert!(QuantityExpression::parse("S(1)").is_err());
    assert!(QuantityExpression::parse("S(a,1)").is_err());
    assert!(QuantityExpression::parse("").is_err());
}

#[test]
fn s_param_key_formatting() {
    assert_eq!(emstudio::quantity_expr::s_key(1, 1), "S11");
    assert_eq!(emstudio::quantity_expr::s_key(2, 1), "S21");
}
