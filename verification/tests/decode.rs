use footprint::data::At;
use footprint::data::Drill;
use footprint::data::Justify;
use footprint::data::Layer;
use footprint::data::LayerSide;
use footprint::data::LayerType;
use footprint::data::Net;
use footprint::data::PadShape;
use footprint::data::PadType;
use footprint::data::Xy;
use footprint::data::XyType;
use footprint::data::Xyz;
use footprint::err::DecodeError;
use footprint::num::parse_int;
use footprint::num::parse_real;
use footprint::num::Real;
use footprint::sexp::Sexp;
use footprint::values::parse_at;
use footprint::values::parse_drill;
use footprint::values::parse_justify;
use footprint::values::parse_layer;
use footprint::values::parse_layers;
use footprint::values::parse_net;
use footprint::values::parse_pts;
use footprint::values::parse_xy;
use footprint::values::parse_xy_vec;
use footprint::values::parse_xyz;

fn a(s: &str) -> Sexp {
    Sexp::Atom(s.to_string())
}

fn l(children: Vec<Sexp>) -> Sexp {
    Sexp::List(children)
}

fn r(mantissa: i64, scale: usize) -> Real {
    Real { mantissa, scale }
}

#[test]
fn real_token_values() {
    assert_eq!(parse_real("0.8"), Some(r(8, 1)));
    assert_eq!(parse_real("-2.575"), Some(r(-2575, 3)));
    assert_eq!(parse_real("180"), Some(r(180, 0)));
    assert_eq!(parse_real("-0.5"), Some(r(-5, 1)));
    assert_eq!(parse_real(""), None);
    assert_eq!(parse_real("-"), None);
    assert_eq!(parse_real("."), None);
    assert_eq!(parse_real("1."), None);
    assert_eq!(parse_real(".5"), None);
    assert_eq!(parse_real("1.2.3"), None);
    assert_eq!(parse_real("oval"), None);
    assert_eq!(parse_real("12x"), None);
    assert_eq!(parse_real("9223372036854775807"), Some(r(i64::MAX, 0)));
    assert_eq!(parse_real("9223372036854775808"), None);
}

#[test]
fn int_token_values() {
    assert_eq!(parse_int("42"), Some(42));
    assert_eq!(parse_int("-7"), Some(-7));
    assert_eq!(parse_int("1.5"), None);
    assert_eq!(parse_int(""), None);
    assert_eq!(parse_int("x"), None);
}

#[test]
fn at_two_children_has_zero_rotation() {
    let s = l(vec![a("at"), a("0.0"), a("-4.0")]);
    let at = parse_at(&s).unwrap();
    assert_eq!(at, At { x: r(0, 1), y: r(-40, 1), rot: r(0, 0) });
}

#[test]
fn at_three_children_keeps_rotation() {
    let s = l(vec![a("at"), a("-2.575"), a("-1.625"), a("180")]);
    let at = parse_at(&s).unwrap();
    assert_eq!(at, At { x: r(-2575, 3), y: r(-1625, 3), rot: r(180, 0) });
}

#[test]
fn at_wrong_arity_fails() {
    let four = l(vec![a("at"), a("1"), a("2"), a("3"), a("4")]);
    assert!(matches!(parse_at(&four), Err(DecodeError::ArityMismatch(_))));
    let one = l(vec![a("at"), a("1")]);
    assert!(matches!(parse_at(&one), Err(DecodeError::ArityMismatch(_))));
}

#[test]
fn at_wrong_tag_fails() {
    let s = l(vec![a("drill"), a("1"), a("2")]);
    assert!(matches!(parse_at(&s), Err(DecodeError::TagMismatch(_))));
}

#[test]
fn at_non_numeric_child_fails() {
    let s = l(vec![a("at"), a("x"), a("2")]);
    assert!(matches!(parse_at(&s), Err(DecodeError::TypeMismatch(t)) if t == "x"));
}

#[test]
fn layer_names_resolve() {
    let s = l(vec![a("layer"), a("F.Cu")]);
    assert_eq!(
        parse_layer(&s).unwrap(),
        Layer { side: Some(LayerSide::Front), t: LayerType::Cu }
    );
    let s = l(vec![a("layer"), a("B.SilkS")]);
    assert_eq!(
        parse_layer(&s).unwrap(),
        Layer { side: Some(LayerSide::Back), t: LayerType::SilkS }
    );
    let s = l(vec![a("layer"), a("*.Cu")]);
    assert_eq!(
        parse_layer(&s).unwrap(),
        Layer { side: Some(LayerSide::Both), t: LayerType::Cu }
    );
    let s = l(vec![a("layer"), a("Margin")]);
    assert_eq!(parse_layer(&s).unwrap(), Layer { side: None, t: LayerType::Margin });
}

#[test]
fn unknown_layer_name_fails() {
    let s = l(vec![a("layer"), a("F.Bogus")]);
    assert!(matches!(parse_layer(&s), Err(DecodeError::UnknownVariant(t)) if t == "F.Bogus"));
    let s = l(vec![a("layer"), a("Q.Cu")]);
    assert!(matches!(parse_layer(&s), Err(DecodeError::UnknownVariant(_))));
}

#[test]
fn layers_keep_order() {
    let s = l(vec![a("layers"), a("F.Cu"), a("F.Paste"), a("F.Mask")]);
    let ls = parse_layers(&s).unwrap();
    assert_eq!(ls.layers.len(), 3);
    assert_eq!(ls.layers[0], Layer { side: Some(LayerSide::Front), t: LayerType::Cu });
    assert_eq!(ls.layers[1], Layer { side: Some(LayerSide::Front), t: LayerType::Paste });
    assert_eq!(ls.layers[2], Layer { side: Some(LayerSide::Front), t: LayerType::Mask });
}

#[test]
fn xy_role_comes_from_tag() {
    let s = l(vec![a("size"), a("1.5"), a("2.5")]);
    assert_eq!(parse_xy(&s).unwrap(), Xy { x: r(15, 1), y: r(25, 1), t: XyType::Size });
    let s = l(vec![a("start"), a("0"), a("1")]);
    assert_eq!(parse_xy(&s).unwrap(), Xy { x: r(0, 0), y: r(1, 0), t: XyType::Start });
    let s = l(vec![a("blob"), a("0"), a("1")]);
    assert!(matches!(parse_xy(&s), Err(DecodeError::UnknownVariant(t)) if t == "blob"));
    let s = l(vec![a("size"), a("1")]);
    assert!(matches!(parse_xy(&s), Err(DecodeError::ArityMismatch(_))));
}

#[test]
fn pts_decodes_every_child() {
    let s = l(vec![
        a("pts"),
        l(vec![a("xy"), a("1"), a("2")]),
        l(vec![a("xy"), a("3"), a("4")]),
    ]);
    let pts = parse_pts(&s).unwrap();
    assert_eq!(pts.elements.len(), 2);
    assert_eq!(pts.elements[0], Xy { x: r(1, 0), y: r(2, 0), t: XyType::Xy });
    assert_eq!(pts.elements[1], Xy { x: r(3, 0), y: r(4, 0), t: XyType::Xy });
}

#[test]
fn xy_vec_passes_over_first_child() {
    let s = l(vec![
        a("pts"),
        l(vec![a("xy"), a("1"), a("2")]),
        l(vec![a("xy"), a("3"), a("4")]),
    ]);
    let v = parse_xy_vec(&s).unwrap();
    assert_eq!(v.len(), 1);
    assert_eq!(v[0], Xy { x: r(3, 0), y: r(4, 0), t: XyType::Xy });
}

#[test]
fn xyz_needs_three_numbers() {
    let s = l(vec![a("xyz"), a("0"), a("0.5"), a("-1")]);
    assert_eq!(parse_xyz(&s).unwrap(), Xyz { x: r(0, 0), y: r(5, 1), z: r(-1, 0) });
    let s = l(vec![a("xyz"), a("0"), a("0.5")]);
    assert!(matches!(parse_xyz(&s), Err(DecodeError::ArityMismatch(_))));
}

#[test]
fn net_has_number_and_name() {
    let s = l(vec![a("net"), a("1"), a("GND")]);
    assert_eq!(parse_net(&s).unwrap(), Net { num: 1, name: "GND".to_string() });
    let s = l(vec![a("net"), a("x"), a("GND")]);
    assert!(matches!(parse_net(&s), Err(DecodeError::TypeMismatch(_))));
}

#[test]
fn drill_one_and_three_children() {
    let s = l(vec![a("drill"), a("0.8")]);
    assert_eq!(
        parse_drill(&s).unwrap(),
        Drill { shape: None, drill: r(8, 1), drill2: None }
    );
    let s = l(vec![a("drill"), a("oval"), a("0.6"), a("1.2")]);
    assert_eq!(
        parse_drill(&s).unwrap(),
        Drill { shape: Some("oval".to_string()), drill: r(6, 1), drill2: Some(r(12, 1)) }
    );
}

#[test]
fn drill_two_children_fails() {
    let s = l(vec![a("drill"), a("0.6"), a("1.2")]);
    assert!(matches!(parse_drill(&s), Err(DecodeError::ArityMismatch(_))));
}

#[test]
fn justify_accepts_only_mirror() {
    let s = l(vec![a("justify"), a("mirror")]);
    assert_eq!(parse_justify(&s).unwrap(), Justify::Mirror);
    let s = l(vec![a("justify"), a("center")]);
    assert!(matches!(parse_justify(&s), Err(DecodeError::UnknownVariant(t)) if t == "center"));
}

#[test]
fn pad_type_and_shape_names() {
    assert_eq!(PadType::from_string("smd").unwrap(), PadType::Smd);
    assert_eq!(PadType::from_string("thru_hole").unwrap(), PadType::Pth);
    assert!(matches!(
        PadType::from_string("weird"),
        Err(DecodeError::UnknownVariant(t)) if t == "weird"
    ));
    assert_eq!(PadShape::from_string("oval").unwrap(), PadShape::Oval);
    assert!(matches!(PadShape::from_string("star"), Err(DecodeError::UnknownVariant(_))));
}

#[test]
fn errors_carry_their_context() {
    let s = l(vec![a("justify"), a("center")]);
    let e = parse_justify(&s).unwrap_err();
    assert_eq!(e.context().as_str(), "center");
    let s = l(vec![a("drill"), a("0.6"), a("1.2")]);
    let e = parse_drill(&s).unwrap_err();
    assert_eq!(e.context().as_str(), "drill");
}

#[test]
fn element_decoder_rejects_empty_node() {
    let s = Sexp::Empty;
    assert!(matches!(
        footprint::elements::parse_element(&s),
        Err(DecodeError::StructuralError(_))
    ));
}
