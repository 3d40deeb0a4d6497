use footprint::data::At;
use footprint::data::Element;
use footprint::data::Justify;
use footprint::data::Layer;
use footprint::data::LayerSide;
use footprint::data::LayerType;
use footprint::data::Net;
use footprint::data::PadShape;
use footprint::data::PadType;
use footprint::data::Part;
use footprint::data::Xy;
use footprint::data::XyType;
use footprint::data::Xyz;
use footprint::de::wrap;
use footprint::de::FromSexp;
use footprint::err::DecodeError;
use footprint::num::Real;
use footprint::composites::parse_fp_arc;
use footprint::composites::parse_fp_circle;
use footprint::composites::parse_fp_line;
use footprint::composites::parse_fp_poly;
use footprint::composites::parse_fp_text;
use footprint::composites::parse_pad;
use footprint::elements::parse_element;
use footprint::elements::parse_model;
use footprint::elements::parse_module;
use footprint::parts::parse_effects;
use footprint::parts::parse_font;
use footprint::parts::parse_part;
use footprint::sexp::Sexp;

fn a(s: &str) -> Sexp {
    Sexp::Atom(s.to_string())
}

fn l(children: Vec<Sexp>) -> Sexp {
    Sexp::List(children)
}

fn r(mantissa: i64, scale: usize) -> Real {
    Real { mantissa, scale }
}

#[test]
fn font_folds_size_and_thickness() {
    let s = l(vec![
        a("font"),
        l(vec![a("size"), a("1"), a("1")]),
        l(vec![a("thickness"), a("0.15")]),
    ]);
    let f = parse_font(&s).unwrap();
    assert_eq!(f.size, Xy { x: r(1, 0), y: r(1, 0), t: XyType::Size });
    assert_eq!(f.thickness, r(15, 2));
}

#[test]
fn font_rejects_other_parts() {
    let s = l(vec![a("font"), l(vec![a("width"), a("1")])]);
    assert!(matches!(parse_font(&s), Err(DecodeError::UnknownVariant(_))));
}

#[test]
fn effects_with_and_without_justify() {
    let s = l(vec![a("effects"), l(vec![a("font")])]);
    let e = parse_effects(&s).unwrap();
    assert_eq!(e.justify, None);
    let s = l(vec![a("effects"), l(vec![a("font")]), l(vec![a("justify"), a("mirror")])]);
    let e = parse_effects(&s).unwrap();
    assert_eq!(e.justify, Some(Justify::Mirror));
    let s = l(vec![a("effects")]);
    assert!(matches!(parse_effects(&s), Err(DecodeError::StructuralError(_))));
}

#[test]
fn part_dispatch_by_tag() {
    assert_eq!(parse_part(&a("hide")).unwrap(), Part::Hide);
    assert!(matches!(
        parse_part(&a("show")),
        Err(DecodeError::UnknownVariant(t)) if t == "show"
    ));
    let p = parse_part(&l(vec![a("width"), a("0.3")])).unwrap();
    assert_eq!(p, Part::Width(r(3, 1)));
    let p = parse_part(&l(vec![a("net"), a("2"), a("VCC")])).unwrap();
    assert_eq!(p, Part::Net(Net { num: 2, name: "VCC".to_string() }));
    assert!(matches!(
        parse_part(&l(vec![a("frobnicate"), a("1")])),
        Err(DecodeError::UnknownVariant(t)) if t == "frobnicate"
    ));
}

#[test]
fn fp_text_folds_parts() {
    let s = l(vec![
        a("fp_text"),
        a("reference"),
        a("U1"),
        l(vec![a("at"), a("0"), a("-4.0")]),
        l(vec![a("layer"), a("F.SilkS")]),
        a("hide"),
        l(vec![a("effects"), l(vec![a("font")])]),
    ]);
    let t = parse_fp_text(&s).unwrap();
    assert_eq!(t.name, "reference");
    assert_eq!(t.value, "U1");
    assert_eq!(t.at, At { x: r(0, 0), y: r(-40, 1), rot: r(0, 0) });
    assert_eq!(t.layer, Some(Layer { side: Some(LayerSide::Front), t: LayerType::SilkS }));
    assert!(t.hide);
    assert!(t.effects.is_some());
}

#[test]
fn fp_text_rejects_foreign_parts() {
    let s = l(vec![
        a("fp_text"),
        a("reference"),
        a("U1"),
        l(vec![a("width"), a("1")]),
    ]);
    assert!(matches!(parse_fp_text(&s), Err(DecodeError::UnknownVariant(_))));
}

#[test]
fn pad_positional_fields_and_parts() {
    let s = l(vec![
        a("pad"),
        a("1"),
        a("smd"),
        a("rect"),
        l(vec![a("at"), a("-0.95"), a("0")]),
        l(vec![a("size"), a("0.9"), a("1.1")]),
        l(vec![a("layers"), a("F.Cu"), a("F.Paste")]),
        l(vec![a("net"), a("1"), a("GND")]),
        l(vec![a("drill"), a("0.8")]),
        l(vec![a("clearance"), a("0.2")]),
    ]);
    let p = parse_pad(&s).unwrap();
    assert_eq!(p.name, "1");
    assert_eq!(p.t, PadType::Smd);
    assert_eq!(p.shape, PadShape::Rect);
    assert_eq!(p.at, At { x: r(-95, 2), y: r(0, 0), rot: r(0, 0) });
    assert_eq!(p.size, Xy { x: r(9, 1), y: r(11, 1), t: XyType::Size });
    assert_eq!(p.layers.layers.len(), 2);
    assert_eq!(p.net, Some(Net { num: 1, name: "GND".to_string() }));
    assert!(p.drill.is_some());
    assert_eq!(p.clearance, Some(r(2, 1)));
    assert_eq!(p.rect_delta, None);
}

#[test]
fn pad_rejects_unknown_type_name() {
    let s = l(vec![a("pad"), a("1"), a("glued"), a("rect")]);
    assert!(matches!(parse_pad(&s), Err(DecodeError::UnknownVariant(t)) if t == "glued"));
}

#[test]
fn poly_ignores_stray_parts_where_line_fails() {
    let poly = l(vec![
        a("fp_poly"),
        l(vec![a("pts"), l(vec![a("xy"), a("0"), a("0")])]),
        l(vec![a("width"), a("0.1")]),
        l(vec![a("net"), a("1"), a("GND")]),
    ]);
    let p = parse_fp_poly(&poly).unwrap();
    assert_eq!(p.width, r(1, 1));
    assert_eq!(p.pts.elements.len(), 1);

    let line = l(vec![
        a("fp_line"),
        l(vec![a("start"), a("0"), a("0")]),
        l(vec![a("end"), a("1"), a("1")]),
        l(vec![a("net"), a("1"), a("GND")]),
    ]);
    assert!(matches!(parse_fp_line(&line), Err(DecodeError::UnknownVariant(_))));
}

#[test]
fn line_circle_arc_route_roles() {
    let line = l(vec![
        a("fp_line"),
        l(vec![a("start"), a("1"), a("2")]),
        l(vec![a("end"), a("3"), a("4")]),
        l(vec![a("layer"), a("Edge.Cuts")]),
        l(vec![a("width"), a("0.1")]),
    ]);
    let fl = parse_fp_line(&line).unwrap();
    assert_eq!(fl.start, Xy { x: r(1, 0), y: r(2, 0), t: XyType::Start });
    assert_eq!(fl.end, Xy { x: r(3, 0), y: r(4, 0), t: XyType::End });
    assert_eq!(fl.layer, Layer { side: Some(LayerSide::Edge), t: LayerType::Cuts });

    let circle = l(vec![
        a("fp_circle"),
        l(vec![a("center"), a("0"), a("0")]),
        l(vec![a("end"), a("1"), a("0")]),
        l(vec![a("width"), a("0.2")]),
    ]);
    let fc = parse_fp_circle(&circle).unwrap();
    assert_eq!(fc.center.t, XyType::Center);
    assert_eq!(fc.width, r(2, 1));

    let arc = l(vec![
        a("fp_arc"),
        l(vec![a("start"), a("0"), a("0")]),
        l(vec![a("end"), a("1"), a("0")]),
        l(vec![a("angle"), a("90")]),
        l(vec![a("width"), a("0.2")]),
    ]);
    let fa = parse_fp_arc(&arc).unwrap();
    assert_eq!(fa.angle, r(90, 0));
}

#[test]
fn model_is_fully_positional() {
    let s = l(vec![
        a("model"),
        a("lib/case.wrl"),
        l(vec![a("at"), l(vec![a("xyz"), a("0"), a("0"), a("0")])]),
        l(vec![a("scale"), l(vec![a("xyz"), a("1"), a("1"), a("1")])]),
        l(vec![a("rotate"), l(vec![a("xyz"), a("0"), a("0"), a("180")])]),
    ]);
    let m = parse_model(&s).unwrap();
    assert_eq!(m.name, "lib/case.wrl");
    assert_eq!(m.at, Xyz { x: r(0, 0), y: r(0, 0), z: r(0, 0) });
    assert_eq!(m.scale, Xyz { x: r(1, 0), y: r(1, 0), z: r(1, 0) });
    assert_eq!(m.rotate, Xyz { x: r(0, 0), y: r(0, 0), z: r(180, 0) });
}

fn sample_module() -> Sexp {
    l(vec![
        a("module"),
        a("SW_PUSH"),
        a("locked"),
        l(vec![a("layer"), a("F.Cu")]),
        l(vec![a("descr"), a("a push switch")]),
        l(vec![a("tags"), a("switch")]),
        l(vec![a("at"), a("0"), a("0")]),
        l(vec![
            a("fp_line"),
            l(vec![a("start"), a("0"), a("0")]),
            l(vec![a("end"), a("1"), a("1")]),
        ]),
        l(vec![
            a("pad"),
            a("1"),
            a("thru_hole"),
            a("circle"),
            l(vec![a("at"), a("0"), a("0")]),
            l(vec![a("size"), a("2"), a("2")]),
            l(vec![a("layers"), a("*.Cu")]),
        ]),
    ])
}

#[test]
fn module_keeps_name_and_element_order() {
    let m = parse_module(&sample_module()).unwrap();
    assert_eq!(m.name, "SW_PUSH");
    assert_eq!(m.elements.len(), 7);
    assert!(matches!(m.elements[0], Element::Locked));
    assert!(matches!(m.elements[1], Element::Layer(ref t) if t == "F.Cu"));
    assert!(matches!(m.elements[2], Element::Descr(_)));
    assert!(matches!(m.elements[3], Element::Tags(_)));
    assert!(matches!(m.elements[4], Element::At(_)));
    assert!(matches!(m.elements[5], Element::FpLine(_)));
    assert!(matches!(m.elements[6], Element::Pad(_)));
}

#[test]
fn decoding_twice_yields_equal_modules() {
    let m1 = parse_module(&sample_module()).unwrap();
    let m2 = parse_module(&sample_module()).unwrap();
    assert_eq!(m1, m2);
}

#[test]
fn unknown_module_child_fails_whole_module() {
    let s = l(vec![
        a("module"),
        a("SW_PUSH"),
        l(vec![a("bogus"), a("1"), a("2")]),
    ]);
    let e = parse_module(&s).unwrap_err();
    assert!(matches!(&e, DecodeError::UnknownVariant(t) if t == "bogus"));
}

#[test]
fn module_without_name_fails() {
    let s = l(vec![a("module")]);
    assert!(matches!(parse_module(&s), Err(DecodeError::StructuralError(_))));
}

#[test]
fn module_name_must_be_an_atom() {
    let s = l(vec![a("module"), l(vec![a("x")])]);
    assert!(matches!(parse_module(&s), Err(DecodeError::TypeMismatch(_))));
}

#[test]
fn from_sexp_and_wrap_mirror_the_decoders() {
    let s = l(vec![a("at"), a("1"), a("2")]);
    let viaa: Result<At, DecodeError> = FromSexp::from_sexp(&s);
    assert_eq!(viaa.unwrap(), At { x: r(1, 0), y: r(2, 0), rot: r(0, 0) });
    let s = l(vec![a("at"), a("1"), a("2")]);
    let wrapped = wrap(&s, footprint::values::parse_at, Element::At).unwrap();
    assert!(matches!(wrapped, Element::At(_)));
}

#[test]
fn element_rejects_unknown_bare_token() {
    assert!(matches!(
        parse_element(&a("frozen")),
        Err(DecodeError::UnknownVariant(t)) if t == "frozen"
    ));
    assert!(matches!(parse_element(&a("locked")).unwrap(), Element::Locked));
}

#[test]
fn string_and_float_elements() {
    let s = l(vec![a("tedit"), a("4E4C0E65")]);
    match parse_element(&s).unwrap() {
        Element::TEdit(t) => assert_eq!(t, "4E4C0E65"),
        other => panic!("unexpected element {:?}", other),
    }
    let s = l(vec![a("solder_mask_margin"), a("0.2")]);
    match parse_element(&s).unwrap() {
        Element::SolderMaskMargin(m) => assert_eq!(m, r(2, 1)),
        other => panic!("unexpected element {:?}", other),
    }
    let s = l(vec![a("descr"), a("two"), a("atoms")]);
    assert!(matches!(parse_element(&s), Err(DecodeError::ArityMismatch(_))));
    let s = l(vec![a("attr"), a("smd")]);
    assert!(matches!(parse_element(&s).unwrap(), Element::Attr(t) if t == "smd"));
    let s = l(vec![a("path"), a("/5E4C0E65")]);
    assert!(matches!(parse_element(&s).unwrap(), Element::Path(t) if t == "/5E4C0E65"));
    let s = l(vec![a("tstamp"), a("5E4C0E65")]);
    assert!(matches!(parse_element(&s).unwrap(), Element::TStamp(t) if t == "5E4C0E65"));
}

#[test]
fn pad_rect_delta_and_trapezoid() {
    let s = l(vec![
        a("pad"),
        a("2"),
        a("np_thru_hole"),
        a("trapezoid"),
        l(vec![a("size"), a("2"), a("2")]),
        l(vec![a("rect_delta"), a("0.5"), a("0")]),
    ]);
    let p = parse_pad(&s).unwrap();
    assert_eq!(p.t, PadType::NpPth);
    assert_eq!(p.shape, PadShape::Trapezoid);
    assert_eq!(p.rect_delta, Some(Xy { x: r(5, 1), y: r(0, 0), t: XyType::RectDelta }));
}

#[test]
fn pad_rejects_hide_part() {
    let s = l(vec![a("pad"), a("1"), a("smd"), a("rect"), a("hide")]);
    assert!(matches!(parse_pad(&s), Err(DecodeError::UnknownVariant(_))));
}

#[test]
fn nested_part_error_wins_over_font_fold() {
    let s = l(vec![
        a("font"),
        l(vec![a("effects"), l(vec![a("font"), l(vec![a("wobble"), a("1")])])]),
    ]);
    assert!(matches!(parse_font(&s), Err(DecodeError::UnknownVariant(t)) if t == "wobble"));
}

#[test]
fn module_failure_leaves_no_partial_result() {
    let s = l(vec![
        a("module"),
        a("M"),
        l(vec![a("descr"), a("fine")]),
        l(vec![a("bogus"), a("1")]),
        l(vec![a("tags"), a("fine too")]),
    ]);
    assert!(parse_module(&s).is_err());
}
