//! Decoders for the composite entities: text labels, pads and the graphic
//! primitives.
//!
//! Each follows one pattern: extract the entity's positional fields, decode
//! the remaining children as parts, and fold the parts into a builder that
//! starts from the type's defaults. Every entity but the polygon is strict:
//! a part it does not handle is a failure naming the entity. The polygon is
//! deliberately lenient and ignores parts it does not handle.

use vstd::prelude::*;
use vstd::slice::slice_subrange;
use vstd::string::StrSliceExecFns;
use vstd::string::StringExecFns;
use crate::err::DecodeError;
use crate::err::ErrV;
use crate::err::res_view;
use crate::data::FpText;
use crate::data::FpTextV;
use crate::data::fp_text_v_new;
use crate::data::Pad;
use crate::data::PadV;
use crate::data::pad_v_new;
use crate::data::PadType;
use crate::data::PadShape;
use crate::data::spec_pad_type_from;
use crate::data::spec_pad_shape_from;
use crate::data::FpPoly;
use crate::data::FpPolyV;
use crate::data::fp_poly_v_default;
use crate::data::FpLine;
use crate::data::fp_line_default;
use crate::data::FpCircle;
use crate::data::fp_circle_default;
use crate::data::FpArc;
use crate::data::fp_arc_default;
use crate::data::Part;
use crate::data::PartV;
use crate::data::XyType;
use crate::data::Pts;
use crate::data::Layers;
use crate::sexp::Sexp;
use crate::sexp::SexpV;
use crate::sexp::sexp_view;
use crate::sexp::sexp_views;
use crate::sexp::lemma_sexp_views;
use crate::sexp::spec_as_string;
use crate::sexp::spec_children_tagged;
use crate::sexp::as_string;
use crate::sexp::expect_tagged;
use crate::parts::part_views;
use crate::parts::spec_parse_parts;
use crate::parts::parse_parts;

verus! {

/// One fold step of a text label; only placement, layer, effects and the
/// hidden flag are accepted.
pub open spec fn spec_text_step(acc: FpTextV, p: PartV) -> Result<FpTextV, ErrV> {
    match p {
        PartV::At(at) => Ok(FpTextV { at, ..acc }),
        PartV::Layer(l) => Ok(FpTextV { layer: Some(l), ..acc }),
        PartV::Hide => Ok(FpTextV { hide: true, ..acc }),
        PartV::Effects(ef) => Ok(FpTextV { effects: Some(ef), ..acc }),
        _ => Err(ErrV::UnknownVariant("fp_text"@)),
    }
}

/// Folds parts into a text label, first part first.
pub open spec fn spec_fold_text(ps: Seq<PartV>, acc: FpTextV) -> Result<FpTextV, ErrV>
    decreases ps.len(),
{
    if ps.len() == 0 {
        Ok(acc)
    } else {
        match spec_text_step(acc, ps[0]) {
            Ok(acc2) => spec_fold_text(ps.drop_first(), acc2),
            Err(e) => Err(e),
        }
    }
}

/// The text label an `fp_text` node denotes: a kind name and a text value,
/// then parts folded strictly.
pub open spec fn spec_parse_fp_text(s: SexpV) -> Result<FpTextV, ErrV> {
    match spec_children_tagged(s, "fp_text"@) {
        Ok(ws) => {
            if ws.len() >= 2 {
                match (spec_as_string(ws[0]), spec_as_string(ws[1])) {
                    (Ok(name), Ok(value)) => match spec_parse_parts(ws.skip(2)) {
                        Ok(ps) => spec_fold_text(ps, fp_text_v_new(name, value)),
                        Err(e) => Err(e),
                    },
                    (Err(e), _) => Err(e),
                    (_, Err(e)) => Err(e),
                }
            } else {
                Err(ErrV::ArityMismatch("fp_text"@))
            }
        },
        Err(e) => Err(e),
    }
}

/// Decodes a text label from an `fp_text` node.
#[verifier::loop_isolation(false)]
pub fn parse_fp_text(s: &Sexp) -> (r: Result<FpText, DecodeError>)
    ensures
        res_view(r) == spec_parse_fp_text(s@),
{
    let v = match expect_tagged(s, "fp_text") {
        Ok(v) => v,
        Err(e) => {
            return Err(e);
        },
    };
    let ghost ws = sexp_views(v@);
    proof {
        lemma_sexp_views(v@);
    }
    if v.len() < 2 {
        return Err(DecodeError::ArityMismatch(String::from_str("fp_text")));
    }
    let name = match as_string(&v[0]) {
        Ok(t) => t,
        Err(e) => {
            return Err(e);
        },
    };
    let value = match as_string(&v[1]) {
        Ok(t) => t,
        Err(e) => {
            return Err(e);
        },
    };
    let rest = slice_subrange(v, 2, v.len());
    proof {
        lemma_sexp_views(rest@);
        assert forall|k: int| 0 <= k < rest@.len() implies sexp_views(rest@)[k] == ws.skip(2)[k]
        by {
            assert(rest@[k] == v@[k + 2]);
            assert(sexp_views(rest@)[k] == sexp_view(rest@[k]));
        }
        assert(sexp_views(rest@) =~= ws.skip(2));
    }
    let ps = match parse_parts(rest) {
        Ok(ps) => ps,
        Err(e) => {
            return Err(e);
        },
    };
    let ghost pvs = part_views(ps@);
    let mut fp = FpText::new(name.clone(), value.clone());
    proof {
        assert(pvs.skip(0) =~= pvs);
    }
    let mut i: usize = 0;
    while i < ps.len()
        invariant
            i <= ps@.len(),
            pvs == part_views(ps@),
            spec_fold_text(pvs, fp_text_v_new(name@, value@)) == spec_fold_text(
                pvs.skip(i as int),
                fp@,
            ),
        decreases ps@.len() - i,
    {
        let ghost tail = pvs.skip(i as int);
        proof {
            assert(tail[0] == pvs[i as int]);
            assert(tail.drop_first() =~= pvs.skip(i as int + 1));
        }
        match &ps[i] {
            Part::At(at) => {
                fp.at = *at;
            },
            Part::Layer(l) => {
                fp.set_layer(l);
            },
            Part::Hide => {
                fp.hide = true;
            },
            Part::Effects(ef) => {
                fp.set_effects(ef);
            },
            _ => {
                return Err(DecodeError::UnknownVariant(String::from_str("fp_text")));
            },
        }
        i = i + 1;
    }
    proof {
        assert(pvs.skip(i as int) =~= Seq::<PartV>::empty());
    }
    Ok(fp)
}

/// One fold step of a pad; placement, size, rectangle delta, layers, net,
/// drill, margins and clearance are accepted.
pub open spec fn spec_pad_step(acc: PadV, p: PartV) -> Result<PadV, ErrV> {
    match p {
        PartV::At(at) => Ok(PadV { at, ..acc }),
        PartV::Xy(xy) => {
            if xy.t == XyType::Size {
                Ok(PadV { size: xy, ..acc })
            } else if xy.t == XyType::RectDelta {
                Ok(PadV { rect_delta: Some(xy), ..acc })
            } else {
                Err(ErrV::UnknownVariant("pad"@))
            }
        },
        PartV::Layers(ls) => Ok(PadV { layers: ls, ..acc }),
        PartV::Net(n) => Ok(PadV { net: Some(n), ..acc }),
        PartV::Drill(d) => Ok(PadV { drill: Some(d), ..acc }),
        PartV::SolderPasteMargin(m) => Ok(PadV { solder_paste_margin: Some(m), ..acc }),
        PartV::SolderMaskMargin(m) => Ok(PadV { solder_mask_margin: Some(m), ..acc }),
        PartV::Clearance(c) => Ok(PadV { clearance: Some(c), ..acc }),
        _ => Err(ErrV::UnknownVariant("pad"@)),
    }
}

/// Folds parts into a pad, first part first.
pub open spec fn spec_fold_pad(ps: Seq<PartV>, acc: PadV) -> Result<PadV, ErrV>
    decreases ps.len(),
{
    if ps.len() == 0 {
        Ok(acc)
    } else {
        match spec_pad_step(acc, ps[0]) {
            Ok(acc2) => spec_fold_pad(ps.drop_first(), acc2),
            Err(e) => Err(e),
        }
    }
}

/// The pad a `pad` node denotes: a name, a pad type and a pad shape from
/// their fixed name sets, then parts folded strictly.
pub open spec fn spec_parse_pad(s: SexpV) -> Result<PadV, ErrV> {
    match spec_children_tagged(s, "pad"@) {
        Ok(ws) => {
            if ws.len() >= 3 {
                match (spec_as_string(ws[0]), spec_as_string(ws[1]), spec_as_string(ws[2])) {
                    (Ok(name), Ok(tname), Ok(shname)) => match (
                        spec_pad_type_from(tname),
                        spec_pad_shape_from(shname),
                    ) {
                        (Ok(t), Ok(sh)) => match spec_parse_parts(ws.skip(3)) {
                            Ok(ps) => spec_fold_pad(ps, pad_v_new(name, t, sh)),
                            Err(e) => Err(e),
                        },
                        (Err(e), _) => Err(e),
                        (_, Err(e)) => Err(e),
                    },
                    (Err(e), _, _) => Err(e),
                    (_, Err(e), _) => Err(e),
                    (_, _, Err(e)) => Err(e),
                }
            } else {
                Err(ErrV::ArityMismatch("pad"@))
            }
        },
        Err(e) => Err(e),
    }
}

/// Decodes a pad from a `pad` node.
#[verifier::loop_isolation(false)]
pub fn parse_pad(s: &Sexp) -> (r: Result<Pad, DecodeError>)
    ensures
        res_view(r) == spec_parse_pad(s@),
{
    let v = match expect_tagged(s, "pad") {
        Ok(v) => v,
        Err(e) => {
            return Err(e);
        },
    };
    let ghost ws = sexp_views(v@);
    proof {
        lemma_sexp_views(v@);
    }
    if v.len() < 3 {
        return Err(DecodeError::ArityMismatch(String::from_str("pad")));
    }
    let name = match as_string(&v[0]) {
        Ok(t) => t,
        Err(e) => {
            return Err(e);
        },
    };
    let tname = match as_string(&v[1]) {
        Ok(t) => t,
        Err(e) => {
            return Err(e);
        },
    };
    let shname = match as_string(&v[2]) {
        Ok(t) => t,
        Err(e) => {
            return Err(e);
        },
    };
    let t = match PadType::from_string(tname.as_str()) {
        Ok(t) => t,
        Err(e) => {
            return Err(e);
        },
    };
    let sh = match PadShape::from_string(shname.as_str()) {
        Ok(sh) => sh,
        Err(e) => {
            return Err(e);
        },
    };
    let rest = slice_subrange(v, 3, v.len());
    proof {
        lemma_sexp_views(rest@);
        assert forall|k: int| 0 <= k < rest@.len() implies sexp_views(rest@)[k] == ws.skip(3)[k]
        by {
            assert(rest@[k] == v@[k + 3]);
            assert(sexp_views(rest@)[k] == sexp_view(rest@[k]));
        }
        assert(sexp_views(rest@) =~= ws.skip(3));
    }
    let ps = match parse_parts(rest) {
        Ok(ps) => ps,
        Err(e) => {
            return Err(e);
        },
    };
    let ghost pvs = part_views(ps@);
    let mut pad = Pad::new(name.clone(), t, sh);
    proof {
        assert(pvs.skip(0) =~= pvs);
    }
    let mut i: usize = 0;
    while i < ps.len()
        invariant
            i <= ps@.len(),
            pvs == part_views(ps@),
            spec_fold_pad(pvs, pad_v_new(name@, t, sh)) == spec_fold_pad(
                pvs.skip(i as int),
                pad@,
            ),
        decreases ps@.len() - i,
    {
        let ghost tail = pvs.skip(i as int);
        proof {
            assert(tail[0] == pvs[i as int]);
            assert(tail.drop_first() =~= pvs.skip(i as int + 1));
        }
        match &ps[i] {
            Part::At(at) => {
                pad.at = *at;
            },
            Part::Xy(xy) => {
                if xy.t == XyType::Size {
                    pad.size = *xy;
                } else if xy.t == XyType::RectDelta {
                    pad.rect_delta = Some(*xy);
                } else {
                    return Err(DecodeError::UnknownVariant(String::from_str("pad")));
                }
            },
            Part::Layers(ls) => {
                pad.layers = Layers { layers: ls.layers.clone() };
            },
            Part::Net(n) => {
                pad.set_net(n);
            },
            Part::Drill(d) => {
                pad.set_drill(d);
            },
            Part::SolderPasteMargin(m) => {
                pad.solder_paste_margin = Some(*m);
            },
            Part::SolderMaskMargin(m) => {
                pad.solder_mask_margin = Some(*m);
            },
            Part::Clearance(c) => {
                pad.clearance = Some(*c);
            },
            _ => {
                return Err(DecodeError::UnknownVariant(String::from_str("pad")));
            },
        }
        i = i + 1;
    }
    proof {
        assert(pvs.skip(i as int) =~= Seq::<PartV>::empty());
    }
    Ok(pad)
}

/// One fold step of a polygon; points, width and layer are accepted, and
/// anything else is deliberately ignored rather than rejected.
pub open spec fn spec_poly_step(acc: FpPolyV, p: PartV) -> FpPolyV {
    match p {
        PartV::Pts(pts) => FpPolyV { pts, ..acc },
        PartV::Width(w) => FpPolyV { width: w, ..acc },
        PartV::Layer(l) => FpPolyV { layer: l, ..acc },
        _ => acc,
    }
}

/// Folds parts into a polygon, first part first; no part is ever rejected.
pub open spec fn spec_fold_poly(ps: Seq<PartV>, acc: FpPolyV) -> FpPolyV
    decreases ps.len(),
{
    if ps.len() == 0 {
        acc
    } else {
        spec_fold_poly(ps.drop_first(), spec_poly_step(acc, ps[0]))
    }
}

/// The polygon an `fp_poly` node denotes; parts it does not handle are
/// ignored, so a superset of the strict inputs is accepted.
pub open spec fn spec_parse_fp_poly(s: SexpV) -> Result<FpPolyV, ErrV> {
    match spec_children_tagged(s, "fp_poly"@) {
        Ok(ws) => match spec_parse_parts(ws) {
            Ok(ps) => Ok(spec_fold_poly(ps, fp_poly_v_default())),
            Err(e) => Err(e),
        },
        Err(e) => Err(e),
    }
}

/// Decodes a polygon from an `fp_poly` node, ignoring unhandled parts.
#[verifier::loop_isolation(false)]
pub fn parse_fp_poly(s: &Sexp) -> (r: Result<FpPoly, DecodeError>)
    ensures
        res_view(r) == spec_parse_fp_poly(s@),
{
    let v = match expect_tagged(s, "fp_poly") {
        Ok(v) => v,
        Err(e) => {
            return Err(e);
        },
    };
    let ps = match parse_parts(v) {
        Ok(ps) => ps,
        Err(e) => {
            return Err(e);
        },
    };
    let ghost pvs = part_views(ps@);
    let mut poly = FpPoly::default();
    proof {
        assert(pvs.skip(0) =~= pvs);
    }
    let mut i: usize = 0;
    while i < ps.len()
        invariant
            i <= ps@.len(),
            pvs == part_views(ps@),
            spec_fold_poly(pvs, fp_poly_v_default()) == spec_fold_poly(pvs.skip(i as int), poly@),
        decreases ps@.len() - i,
    {
        let ghost tail = pvs.skip(i as int);
        proof {
            assert(tail[0] == pvs[i as int]);
            assert(tail.drop_first() =~= pvs.skip(i as int + 1));
        }
        match &ps[i] {
            Part::Pts(pts) => {
                poly.pts = Pts { elements: pts.elements.clone() };
            },
            Part::Width(w) => {
                poly.width = *w;
            },
            Part::Layer(l) => {
                poly.layer = *l;
            },
            _ => {},
        }
        i = i + 1;
    }
    proof {
        assert(pvs.skip(i as int) =~= Seq::<PartV>::empty());
    }
    Ok(poly)
}

/// One fold step of a line; start, end, layer and width are accepted.
pub open spec fn spec_line_step(acc: FpLine, p: PartV) -> Result<FpLine, ErrV> {
    match p {
        PartV::Xy(xy) => {
            if xy.t == XyType::Start {
                Ok(FpLine { start: xy, ..acc })
            } else if xy.t == XyType::End {
                Ok(FpLine { end: xy, ..acc })
            } else {
                Err(ErrV::UnknownVariant("fp_line"@))
            }
        },
        PartV::Layer(l) => Ok(FpLine { layer: l, ..acc }),
        PartV::Width(w) => Ok(FpLine { width: w, ..acc }),
        _ => Err(ErrV::UnknownVariant("fp_line"@)),
    }
}

/// Folds parts into a line, first part first.
pub open spec fn spec_fold_line(ps: Seq<PartV>, acc: FpLine) -> Result<FpLine, ErrV>
    decreases ps.len(),
{
    if ps.len() == 0 {
        Ok(acc)
    } else {
        match spec_line_step(acc, ps[0]) {
            Ok(acc2) => spec_fold_line(ps.drop_first(), acc2),
            Err(e) => Err(e),
        }
    }
}

/// The line an `fp_line` node denotes, its parts folded strictly.
pub open spec fn spec_parse_fp_line(s: SexpV) -> Result<FpLine, ErrV> {
    match spec_children_tagged(s, "fp_line"@) {
        Ok(ws) => match spec_parse_parts(ws) {
            Ok(ps) => spec_fold_line(ps, fp_line_default()),
            Err(e) => Err(e),
        },
        Err(e) => Err(e),
    }
}

/// Decodes a line from an `fp_line` node.
#[verifier::loop_isolation(false)]
pub fn parse_fp_line(s: &Sexp) -> (r: Result<FpLine, DecodeError>)
    ensures
        res_view(r) == spec_parse_fp_line(s@),
{
    let v = match expect_tagged(s, "fp_line") {
        Ok(v) => v,
        Err(e) => {
            return Err(e);
        },
    };
    let ps = match parse_parts(v) {
        Ok(ps) => ps,
        Err(e) => {
            return Err(e);
        },
    };
    let ghost pvs = part_views(ps@);
    let mut line = FpLine::default();
    proof {
        assert(pvs.skip(0) =~= pvs);
    }
    let mut i: usize = 0;
    while i < ps.len()
        invariant
            i <= ps@.len(),
            pvs == part_views(ps@),
            spec_fold_line(pvs, fp_line_default()) == spec_fold_line(pvs.skip(i as int), line),
        decreases ps@.len() - i,
    {
        let ghost tail = pvs.skip(i as int);
        proof {
            assert(tail[0] == pvs[i as int]);
            assert(tail.drop_first() =~= pvs.skip(i as int + 1));
        }
        match &ps[i] {
            Part::Xy(xy) => {
                if xy.t == XyType::Start {
                    line.start = *xy;
                } else if xy.t == XyType::End {
                    line.end = *xy;
                } else {
                    return Err(DecodeError::UnknownVariant(String::from_str("fp_line")));
                }
            },
            Part::Layer(l) => {
                line.layer = *l;
            },
            Part::Width(w) => {
                line.width = *w;
            },
            _ => {
                return Err(DecodeError::UnknownVariant(String::from_str("fp_line")));
            },
        }
        i = i + 1;
    }
    proof {
        assert(pvs.skip(i as int) =~= Seq::<PartV>::empty());
    }
    Ok(line)
}

/// One fold step of a circle; center, rim point, layer and width are
/// accepted.
pub open spec fn spec_circle_step(acc: FpCircle, p: PartV) -> Result<FpCircle, ErrV> {
    match p {
        PartV::Xy(xy) => {
            if xy.t == XyType::Center {
                Ok(FpCircle { center: xy, ..acc })
            } else if xy.t == XyType::End {
                Ok(FpCircle { end: xy, ..acc })
            } else {
                Err(ErrV::UnknownVariant("fp_circle"@))
            }
        },
        PartV::Layer(l) => Ok(FpCircle { layer: l, ..acc }),
        PartV::Width(w) => Ok(FpCircle { width: w, ..acc }),
        _ => Err(ErrV::UnknownVariant("fp_circle"@)),
    }
}

/// Folds parts into a circle, first part first.
pub open spec fn spec_fold_circle(ps: Seq<PartV>, acc: FpCircle) -> Result<FpCircle, ErrV>
    decreases ps.len(),
{
    if ps.len() == 0 {
        Ok(acc)
    } else {
        match spec_circle_step(acc, ps[0]) {
            Ok(acc2) => spec_fold_circle(ps.drop_first(), acc2),
            Err(e) => Err(e),
        }
    }
}

/// The circle an `fp_circle` node denotes, its parts folded strictly.
pub open spec fn spec_parse_fp_circle(s: SexpV) -> Result<FpCircle, ErrV> {
    match spec_children_tagged(s, "fp_circle"@) {
        Ok(ws) => match spec_parse_parts(ws) {
            Ok(ps) => spec_fold_circle(ps, fp_circle_default()),
            Err(e) => Err(e),
        },
        Err(e) => Err(e),
    }
}

/// Decodes a circle from an `fp_circle` node.
#[verifier::loop_isolation(false)]
pub fn parse_fp_circle(s: &Sexp) -> (r: Result<FpCircle, DecodeError>)
    ensures
        res_view(r) == spec_parse_fp_circle(s@),
{
    let v = match expect_tagged(s, "fp_circle") {
        Ok(v) => v,
        Err(e) => {
            return Err(e);
        },
    };
    let ps = match parse_parts(v) {
        Ok(ps) => ps,
        Err(e) => {
            return Err(e);
        },
    };
    let ghost pvs = part_views(ps@);
    let mut c = FpCircle::default();
    proof {
        assert(pvs.skip(0) =~= pvs);
    }
    let mut i: usize = 0;
    while i < ps.len()
        invariant
            i <= ps@.len(),
            pvs == part_views(ps@),
            spec_fold_circle(pvs, fp_circle_default()) == spec_fold_circle(pvs.skip(i as int), c),
        decreases ps@.len() - i,
    {
        let ghost tail = pvs.skip(i as int);
        proof {
            assert(tail[0] == pvs[i as int]);
            assert(tail.drop_first() =~= pvs.skip(i as int + 1));
        }
        match &ps[i] {
            Part::Xy(xy) => {
                if xy.t == XyType::Center {
                    c.center = *xy;
                } else if xy.t == XyType::End {
                    c.end = *xy;
                } else {
                    return Err(DecodeError::UnknownVariant(String::from_str("fp_circle")));
                }
            },
            Part::Layer(l) => {
                c.layer = *l;
            },
            Part::Width(w) => {
                c.width = *w;
            },
            _ => {
                return Err(DecodeError::UnknownVariant(String::from_str("fp_circle")));
            },
        }
        i = i + 1;
    }
    proof {
        assert(pvs.skip(i as int) =~= Seq::<PartV>::empty());
    }
    Ok(c)
}

/// One fold step of an arc; start, end, angle, layer and width are accepted.
pub open spec fn spec_arc_step(acc: FpArc, p: PartV) -> Result<FpArc, ErrV> {
    match p {
        PartV::Xy(xy) => {
            if xy.t == XyType::Start {
                Ok(FpArc { start: xy, ..acc })
            } else if xy.t == XyType::End {
                Ok(FpArc { end: xy, ..acc })
            } else {
                Err(ErrV::UnknownVariant("fp_arc"@))
            }
        },
        PartV::Angle(a) => Ok(FpArc { angle: a, ..acc }),
        PartV::Layer(l) => Ok(FpArc { layer: l, ..acc }),
        PartV::Width(w) => Ok(FpArc { width: w, ..acc }),
        _ => Err(ErrV::UnknownVariant("fp_arc"@)),
    }
}

/// Folds parts into an arc, first part first.
pub open spec fn spec_fold_arc(ps: Seq<PartV>, acc: FpArc) -> Result<FpArc, ErrV>
    decreases ps.len(),
{
    if ps.len() == 0 {
        Ok(acc)
    } else {
        match spec_arc_step(acc, ps[0]) {
            Ok(acc2) => spec_fold_arc(ps.drop_first(), acc2),
            Err(e) => Err(e),
        }
    }
}

/// The arc an `fp_arc` node denotes, its parts folded strictly.
pub open spec fn spec_parse_fp_arc(s: SexpV) -> Result<FpArc, ErrV> {
    match spec_children_tagged(s, "fp_arc"@) {
        Ok(ws) => match spec_parse_parts(ws) {
            Ok(ps) => spec_fold_arc(ps, fp_arc_default()),
            Err(e) => Err(e),
        },
        Err(e) => Err(e),
    }
}

/// Decodes an arc from an `fp_arc` node.
#[verifier::loop_isolation(false)]
pub fn parse_fp_arc(s: &Sexp) -> (r: Result<FpArc, DecodeError>)
    ensures
        res_view(r) == spec_parse_fp_arc(s@),
{
    let v = match expect_tagged(s, "fp_arc") {
        Ok(v) => v,
        Err(e) => {
            return Err(e);
        },
    };
    let ps = match parse_parts(v) {
        Ok(ps) => ps,
        Err(e) => {
            return Err(e);
        },
    };
    let ghost pvs = part_views(ps@);
    let mut arc = FpArc::default();
    proof {
        assert(pvs.skip(0) =~= pvs);
    }
    let mut i: usize = 0;
    while i < ps.len()
        invariant
            i <= ps@.len(),
            pvs == part_views(ps@),
            spec_fold_arc(pvs, fp_arc_default()) == spec_fold_arc(pvs.skip(i as int), arc),
        decreases ps@.len() - i,
    {
        let ghost tail = pvs.skip(i as int);
        proof {
            assert(tail[0] == pvs[i as int]);
            assert(tail.drop_first() =~= pvs.skip(i as int + 1));
        }
        match &ps[i] {
            Part::Xy(xy) => {
                if xy.t == XyType::Start {
                    arc.start = *xy;
                } else if xy.t == XyType::End {
                    arc.end = *xy;
                } else {
                    return Err(DecodeError::UnknownVariant(String::from_str("fp_arc")));
                }
            },
            Part::Angle(a) => {
                arc.angle = *a;
            },
            Part::Layer(l) => {
                arc.layer = *l;
            },
            Part::Width(w) => {
                arc.width = *w;
            },
            _ => {
                return Err(DecodeError::UnknownVariant(String::from_str("fp_arc")));
            },
        }
        i = i + 1;
    }
    proof {
        assert(pvs.skip(i as int) =~= Seq::<PartV>::empty());
    }
    Ok(arc)
}

} // verus!
