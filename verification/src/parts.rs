//! The central sub-element dispatch.
//!
//! Every child of a composite entity passes through [`parse_part`]: a bare
//! `hide` token or a tagged list whose tag selects exactly one decode path
//! into one [`Part`] variant. Text effects nest a font, whose own children
//! are parts again, so these decoders are mutually recursive.

use vstd::prelude::*;
use vstd::string::StrSliceExecFns;
use vstd::string::StringExecFns;
use crate::err::DecodeError;
use crate::err::ErrV;
use crate::err::res_view;
use crate::num::Real;
use crate::data::Effects;
use crate::data::Font;
use crate::data::Part;
use crate::data::PartV;
use crate::data::Xy;
use crate::data::XyType;
use crate::data::font_default;
use crate::sexp::Sexp;
use crate::sexp::SexpV;
use crate::sexp::sexp_view;
use crate::sexp::sexp_views;
use crate::sexp::lemma_sexp_views;
use crate::sexp::spec_as_float;
use crate::sexp::spec_children_tagged;
use crate::sexp::expect_tagged;
use crate::sexp::as_float;
use crate::sexp::str_eq;
use crate::values::spec_parse_at;
use crate::values::spec_parse_layer;
use crate::values::spec_parse_layers;
use crate::values::spec_parse_xy;
use crate::values::spec_parse_pts;
use crate::values::spec_parse_net;
use crate::values::spec_parse_drill;
use crate::values::spec_parse_justify;
use crate::values::parse_at;
use crate::values::parse_layer;
use crate::values::parse_layers;
use crate::values::parse_xy;
use crate::values::parse_pts;
use crate::values::parse_net;
use crate::values::parse_drill;
use crate::values::parse_justify;

verus! {

/// The values of a run of decoded parts.
pub open spec fn part_views(ps: Seq<Part>) -> Seq<PartV> {
    Seq::new(ps.len(), |i: int| ps[i]@)
}

/// The bare real carried by a tagged list: its second element, whatever
/// follows being ignored; fewer than two elements is an arity error.
pub open spec fn spec_part_float(cs: Seq<SexpV>, name: Seq<char>) -> Result<Real, ErrV> {
    if cs.len() >= 2 {
        spec_as_float(cs[1])
    } else {
        Err(ErrV::ArityMismatch(name))
    }
}

/// The part one child node of a composite entity denotes: a bare `hide`
/// token, or a tagged list dispatched by its tag to exactly one variant;
/// an unrecognized tag or bare token is rejected by name.
pub open spec fn spec_parse_part(s: SexpV) -> Result<PartV, ErrV>
    decreases s, 2int,
{
    match s {
        SexpV::Atom(t) => {
            if t == "hide"@ {
                Ok(PartV::Hide)
            } else {
                Err(ErrV::UnknownVariant(t))
            }
        },
        SexpV::List(cs) => {
            if cs.len() >= 1 {
                match cs[0] {
                    SexpV::Atom(name) => {
                        if name == "at"@ {
                            match spec_parse_at(s) {
                                Ok(a) => Ok(PartV::At(a)),
                                Err(e) => Err(e),
                            }
                        } else if name == "layer"@ {
                            match spec_parse_layer(s) {
                                Ok(l) => Ok(PartV::Layer(l)),
                                Err(e) => Err(e),
                            }
                        } else if name == "effects"@ {
                            match spec_parse_effects(s) {
                                Ok(ef) => Ok(PartV::Effects(ef)),
                                Err(e) => Err(e),
                            }
                        } else if name == "layers"@ {
                            match spec_parse_layers(s) {
                                Ok(ls) => Ok(PartV::Layers(ls)),
                                Err(e) => Err(e),
                            }
                        } else if name == "width"@ {
                            match spec_part_float(cs, name) {
                                Ok(f) => Ok(PartV::Width(f)),
                                Err(e) => Err(e),
                            }
                        } else if name == "angle"@ {
                            match spec_part_float(cs, name) {
                                Ok(f) => Ok(PartV::Angle(f)),
                                Err(e) => Err(e),
                            }
                        } else if name == "start"@ || name == "end"@ || name == "size"@ || name
                            == "center"@ || name == "rect_delta"@ {
                            match spec_parse_xy(s) {
                                Ok(p) => Ok(PartV::Xy(p)),
                                Err(e) => Err(e),
                            }
                        } else if name == "pts"@ {
                            match spec_parse_pts(s) {
                                Ok(p) => Ok(PartV::Pts(p)),
                                Err(e) => Err(e),
                            }
                        } else if name == "thickness"@ {
                            match spec_part_float(cs, name) {
                                Ok(f) => Ok(PartV::Thickness(f)),
                                Err(e) => Err(e),
                            }
                        } else if name == "net"@ {
                            match spec_parse_net(s) {
                                Ok(n) => Ok(PartV::Net(n)),
                                Err(e) => Err(e),
                            }
                        } else if name == "drill"@ {
                            match spec_parse_drill(s) {
                                Ok(d) => Ok(PartV::Drill(d)),
                                Err(e) => Err(e),
                            }
                        } else if name == "solder_paste_margin"@ {
                            match spec_part_float(cs, name) {
                                Ok(f) => Ok(PartV::SolderPasteMargin(f)),
                                Err(e) => Err(e),
                            }
                        } else if name == "solder_mask_margin"@ {
                            match spec_part_float(cs, name) {
                                Ok(f) => Ok(PartV::SolderMaskMargin(f)),
                                Err(e) => Err(e),
                            }
                        } else if name == "clearance"@ {
                            match spec_part_float(cs, name) {
                                Ok(f) => Ok(PartV::Clearance(f)),
                                Err(e) => Err(e),
                            }
                        } else {
                            Err(ErrV::UnknownVariant(name))
                        }
                    },
                    _ => Err(ErrV::StructuralError("part"@)),
                }
            } else {
                Err(ErrV::StructuralError("part"@))
            }
        },
        SexpV::Empty => Err(ErrV::StructuralError("part"@)),
    }
}

/// The parts a run of child nodes denotes, in order; the first failure wins.
pub open spec fn spec_parse_parts(ws: Seq<SexpV>) -> Result<Seq<PartV>, ErrV>
    decreases ws, 3int,
{
    if ws.len() == 0 {
        Ok(Seq::empty())
    } else {
        match spec_parse_part(ws[0]) {
            Ok(p) => match spec_parse_parts(ws.drop_first()) {
                Ok(ps) => Ok(seq![p] + ps),
                Err(e) => Err(e),
            },
            Err(e) => Err(e),
        }
    }
}

/// One fold step of a font: a size-role coordinate sets the size, a
/// thickness part the stroke; any other part is rejected.
pub open spec fn spec_font_step(acc: Font, p: PartV) -> Result<Font, ErrV> {
    match p {
        PartV::Xy(xy) => {
            if xy.t == XyType::Size {
                Ok(Font { size: Xy { x: xy.x, y: xy.y, t: acc.size.t }, thickness: acc.thickness })
            } else {
                Err(ErrV::UnknownVariant("font"@))
            }
        },
        PartV::Thickness(t) => Ok(Font { size: acc.size, thickness: t }),
        _ => Err(ErrV::UnknownVariant("font"@)),
    }
}

/// Folds a run of parts into a font, first part first.
pub open spec fn spec_fold_font(ps: Seq<PartV>, acc: Font) -> Result<Font, ErrV>
    decreases ps.len(),
{
    if ps.len() == 0 {
        Ok(acc)
    } else {
        match spec_font_step(acc, ps[0]) {
            Ok(acc2) => spec_fold_font(ps.drop_first(), acc2),
            Err(e) => Err(e),
        }
    }
}

/// The font a `font` node denotes: its children decoded as parts and folded
/// onto the default font.
pub open spec fn spec_parse_font(s: SexpV) -> Result<Font, ErrV>
    decreases s, 2int,
    via spec_parse_font_decreases
{
    match spec_children_tagged(s, "font"@) {
        Ok(ws) => match spec_parse_parts(ws) {
            Ok(ps) => spec_fold_font(ps, font_default()),
            Err(e) => Err(e),
        },
        Err(e) => Err(e),
    }
}

#[via_fn]
proof fn spec_parse_font_decreases(s: SexpV) {
    if spec_children_tagged(s, "font"@) is Ok {
        let vs = s->List_0;
        assert(decreases_to!(s => vs));
        assert(decreases_to!(vs => vs.skip(1)));
    }
}

/// The rendering attributes an `effects` node denotes: at least one child,
/// the first a font, the second, when present, a justification.
pub open spec fn spec_parse_effects(s: SexpV) -> Result<Effects, ErrV>
    decreases s, 1int,
    via spec_parse_effects_decreases
{
    match spec_children_tagged(s, "effects"@) {
        Ok(ws) => {
            if ws.len() >= 1 {
                match spec_parse_font(ws[0]) {
                    Ok(font) => {
                        if ws.len() > 1 {
                            match spec_parse_justify(ws[1]) {
                                Ok(j) => Ok(Effects { font, justify: Some(j) }),
                                Err(e) => Err(e),
                            }
                        } else {
                            Ok(Effects { font, justify: None })
                        }
                    },
                    Err(e) => Err(e),
                }
            } else {
                Err(ErrV::StructuralError("effects"@))
            }
        },
        Err(e) => Err(e),
    }
}

#[via_fn]
proof fn spec_parse_effects_decreases(s: SexpV) {
    match spec_children_tagged(s, "effects"@) {
        Ok(ws) => {
            if ws.len() >= 1 {
                let vs = s->List_0;
                assert(decreases_to!(s => vs));
                assert(decreases_to!(vs => vs.skip(1)));
                assert(decreases_to!(vs.skip(1) => vs.skip(1)[0]));
            }
        },
        _ => {},
    }
}

/// Decodes every node of a run as a part, in order.
#[verifier::loop_isolation(false)]
pub fn parse_parts(v: &[Sexp]) -> (r: Result<Vec<Part>, DecodeError>)
    ensures
        match r {
            Ok(ps) => spec_parse_parts(sexp_views(v@)) == Ok::<Seq<PartV>, ErrV>(part_views(ps@)),
            Err(e) => spec_parse_parts(sexp_views(v@)) == Err::<Seq<PartV>, ErrV>(e@),
        },
    decreases sexp_views(v@), 3int,
{
    let ghost ws = sexp_views(v@);
    proof {
        lemma_sexp_views(v@);
        assert(ws.skip(0) =~= ws);
        match spec_parse_parts(ws) {
            Ok(rest) => {
                assert(Seq::<PartV>::empty() + rest =~= rest);
            },
            _ => {},
        }
    }
    let mut out: Vec<Part> = Vec::new();
    let mut i: usize = 0;
    while i < v.len()
        invariant
            i <= v@.len(),
            spec_parse_parts(ws) == (match spec_parse_parts(ws.skip(i as int)) {
                Ok(rest) => Ok::<Seq<PartV>, ErrV>(part_views(out@) + rest),
                Err(e) => Err::<Seq<PartV>, ErrV>(e),
            }),
        decreases v@.len() - i,
    {
        let ghost tail = ws.skip(i as int);
        proof {
            assert(tail[0] == ws[i as int]);
            assert(tail.drop_first() =~= ws.skip(i as int + 1));
            assert(decreases_to!(ws => ws[i as int]));
        }
        match parse_part(&v[i]) {
            Ok(p) => {
                let ghost old_out = part_views(out@);
                out.push(p);
                proof {
                    assert(part_views(out@) =~= old_out.push(p@));
                    if spec_parse_parts(ws.skip(i as int + 1)) is Ok {
                        let rest = spec_parse_parts(ws.skip(i as int + 1))->Ok_0;
                        assert(old_out + (seq![p@] + rest) =~= part_views(out@) + rest);
                    }
                }
            },
            Err(e) => {
                proof {
                    assert(spec_parse_parts(tail) == Err::<Seq<PartV>, ErrV>(e@));
                }
                return Err(e);
            },
        }
        i = i + 1;
    }
    proof {
        assert(ws.skip(i as int) =~= Seq::<SexpV>::empty());
        assert(part_views(out@) + Seq::<PartV>::empty() =~= part_views(out@));
    }
    Ok(out)
}

fn part_float(cs: &Vec<Sexp>, name: &String) -> (r: Result<Real, DecodeError>)
    ensures
        res_view(r) == spec_part_float(sexp_views(cs@), name@),
{
    proof {
        lemma_sexp_views(cs@);
    }
    if cs.len() >= 2 {
        as_float(&cs[1])
    } else {
        Err(DecodeError::ArityMismatch(name.clone()))
    }
}

/// Decodes one child of a composite entity into the part it denotes.
pub fn parse_part(s: &Sexp) -> (r: Result<Part, DecodeError>)
    ensures
        res_view(r) == spec_parse_part(s@),
    decreases s@, 2int,
{
    match s {
        Sexp::Atom(t) => {
            if str_eq(t.as_str(), "hide") {
                Ok(Part::Hide)
            } else {
                Err(DecodeError::UnknownVariant(t.clone()))
            }
        },
        Sexp::List(cs) => {
            proof {
                lemma_sexp_views(cs@);
            }
            if cs.len() >= 1 {
                match &cs[0] {
                    Sexp::Atom(name) => {
                        if str_eq(name.as_str(), "at") {
                            match parse_at(s) {
                                Ok(a) => Ok(Part::At(a)),
                                Err(e) => Err(e),
                            }
                        } else if str_eq(name.as_str(), "layer") {
                            match parse_layer(s) {
                                Ok(l) => Ok(Part::Layer(l)),
                                Err(e) => Err(e),
                            }
                        } else if str_eq(name.as_str(), "effects") {
                            match parse_effects(s) {
                                Ok(ef) => Ok(Part::Effects(ef)),
                                Err(e) => Err(e),
                            }
                        } else if str_eq(name.as_str(), "layers") {
                            match parse_layers(s) {
                                Ok(ls) => Ok(Part::Layers(ls)),
                                Err(e) => Err(e),
                            }
                        } else if str_eq(name.as_str(), "width") {
                            match part_float(cs, name) {
                                Ok(f) => Ok(Part::Width(f)),
                                Err(e) => Err(e),
                            }
                        } else if str_eq(name.as_str(), "angle") {
                            match part_float(cs, name) {
                                Ok(f) => Ok(Part::Angle(f)),
                                Err(e) => Err(e),
                            }
                        } else if str_eq(name.as_str(), "start") || str_eq(name.as_str(), "end")
                            || str_eq(name.as_str(), "size") || str_eq(name.as_str(), "center")
                            || str_eq(name.as_str(), "rect_delta") {
                            match parse_xy(s) {
                                Ok(p) => Ok(Part::Xy(p)),
                                Err(e) => Err(e),
                            }
                        } else if str_eq(name.as_str(), "pts") {
                            match parse_pts(s) {
                                Ok(p) => Ok(Part::Pts(p)),
                                Err(e) => Err(e),
                            }
                        } else if str_eq(name.as_str(), "thickness") {
                            match part_float(cs, name) {
                                Ok(f) => Ok(Part::Thickness(f)),
                                Err(e) => Err(e),
                            }
                        } else if str_eq(name.as_str(), "net") {
                            match parse_net(s) {
                                Ok(n) => Ok(Part::Net(n)),
                                Err(e) => Err(e),
                            }
                        } else if str_eq(name.as_str(), "drill") {
                            match parse_drill(s) {
                                Ok(d) => Ok(Part::Drill(d)),
                                Err(e) => Err(e),
                            }
                        } else if str_eq(name.as_str(), "solder_paste_margin") {
                            match part_float(cs, name) {
                                Ok(f) => Ok(Part::SolderPasteMargin(f)),
                                Err(e) => Err(e),
                            }
                        } else if str_eq(name.as_str(), "solder_mask_margin") {
                            match part_float(cs, name) {
                                Ok(f) => Ok(Part::SolderMaskMargin(f)),
                                Err(e) => Err(e),
                            }
                        } else if str_eq(name.as_str(), "clearance") {
                            match part_float(cs, name) {
                                Ok(f) => Ok(Part::Clearance(f)),
                                Err(e) => Err(e),
                            }
                        } else {
                            Err(DecodeError::UnknownVariant(name.clone()))
                        }
                    },
                    _ => Err(DecodeError::StructuralError(String::from_str("part"))),
                }
            } else {
                Err(DecodeError::StructuralError(String::from_str("part")))
            }
        },
        Sexp::Empty => Err(DecodeError::StructuralError(String::from_str("part"))),
    }
}

/// Decodes a font from a `font` node.
#[verifier::loop_isolation(false)]
pub fn parse_font(s: &Sexp) -> (r: Result<Font, DecodeError>)
    ensures
        res_view(r) == spec_parse_font(s@),
    decreases s@, 2int,
{
    let v = match expect_tagged(s, "font") {
        Ok(v) => v,
        Err(e) => {
            return Err(e);
        },
    };
    proof {
        lemma_sexp_views(v@);
        let vs = s@->List_0;
        assert(decreases_to!(s@ => vs));
        assert(decreases_to!(vs => vs.skip(1)));
    }
    let ps = match parse_parts(v) {
        Ok(ps) => ps,
        Err(e) => {
            return Err(e);
        },
    };
    let ghost pvs = part_views(ps@);
    let mut font = Font::default();
    proof {
        assert(pvs.skip(0) =~= pvs);
    }
    let mut i: usize = 0;
    while i < ps.len()
        invariant
            i <= ps@.len(),
            pvs == part_views(ps@),
            spec_fold_font(pvs, font_default()) == spec_fold_font(pvs.skip(i as int), font),
        decreases ps@.len() - i,
    {
        let ghost tail = pvs.skip(i as int);
        proof {
            assert(tail[0] == pvs[i as int]);
            assert(tail.drop_first() =~= pvs.skip(i as int + 1));
        }
        match &ps[i] {
            Part::Xy(xy) => {
                if xy.t == XyType::Size {
                    font.size = Xy { x: xy.x, y: xy.y, t: font.size.t };
                } else {
                    return Err(DecodeError::UnknownVariant(String::from_str("font")));
                }
            },
            Part::Thickness(t) => {
                font.thickness = *t;
            },
            _ => {
                return Err(DecodeError::UnknownVariant(String::from_str("font")));
            },
        }
        i = i + 1;
    }
    proof {
        assert(pvs.skip(i as int) =~= Seq::<PartV>::empty());
    }
    Ok(font)
}

/// Decodes text rendering attributes from an `effects` node.
pub fn parse_effects(s: &Sexp) -> (r: Result<Effects, DecodeError>)
    ensures
        res_view(r) == spec_parse_effects(s@),
    decreases s@, 1int,
{
    let v = match expect_tagged(s, "effects") {
        Ok(v) => v,
        Err(e) => {
            return Err(e);
        },
    };
    proof {
        lemma_sexp_views(v@);
    }
    if v.len() >= 1 {
        proof {
            let vs = s@->List_0;
            assert(decreases_to!(s@ => vs));
            assert(decreases_to!(vs => vs.skip(1)));
            assert(decreases_to!(vs.skip(1) => vs.skip(1)[0]));
            assert(sexp_view(v@[0]) == sexp_views(v@)[0]);
        }
        let font = match parse_font(&v[0]) {
            Ok(f) => f,
            Err(e) => {
                return Err(e);
            },
        };
        if v.len() > 1 {
            let j = match parse_justify(&v[1]) {
                Ok(j) => j,
                Err(e) => {
                    return Err(e);
                },
            };
            Ok(Effects { font, justify: Some(j) })
        } else {
            Ok(Effects { font, justify: None })
        }
    } else {
        Err(DecodeError::StructuralError(String::from_str("effects")))
    }
}

} // verus!
