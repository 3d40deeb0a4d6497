//! Decoders for the simple value records: placements, layers, coordinates,
//! nets, drills and justification.
//!
//! Each decoder is a pure function from a tree node to a typed record,
//! built from shape extraction followed by leaf coercion; each is specified
//! by a spec-level decoder over node values.

use vstd::prelude::*;
use vstd::string::StrSliceExecFns;
use vstd::string::StringExecFns;
use crate::err::DecodeError;
use crate::err::ErrV;
use crate::err::res_view;
use crate::num::Real;
use crate::data::At;
use crate::data::Xy;
use crate::data::XyType;
use crate::data::Xyz;
use crate::data::Layer;
use crate::data::Layers;
use crate::data::Net;
use crate::data::NetV;
use crate::data::Drill;
use crate::data::DrillV;
use crate::data::Justify;
use crate::data::Pts;
use crate::data::spec_layer_from_string;
use crate::sexp::Sexp;
use crate::sexp::SexpV;
use crate::sexp::sexp_view;
use crate::sexp::sexp_views;
use crate::sexp::lemma_sexp_views;
use crate::sexp::spec_as_float;
use crate::sexp::spec_as_int;
use crate::sexp::spec_as_string;
use crate::sexp::spec_children_tagged;
use crate::sexp::spec_children_tagged_arity;
use crate::sexp::as_float;
use crate::sexp::as_int;
use crate::sexp::as_string;
use crate::sexp::expect_tagged;
use crate::sexp::expect_tagged_arity;
use crate::sexp::str_eq;

verus! {

/// The placement an `at` node denotes: two coordinates, with a rotation of
/// 0 when only two children are given; any other arity is rejected.
pub open spec fn spec_parse_at(s: SexpV) -> Result<At, ErrV> {
    match spec_children_tagged(s, "at"@) {
        Ok(ws) => {
            if ws.len() == 2 {
                match (spec_as_float(ws[0]), spec_as_float(ws[1])) {
                    (Ok(x), Ok(y)) => Ok(At { x, y, rot: Real { mantissa: 0, scale: 0 } }),
                    (Err(e), _) => Err(e),
                    (_, Err(e)) => Err(e),
                }
            } else if ws.len() == 3 {
                match (spec_as_float(ws[0]), spec_as_float(ws[1]), spec_as_float(ws[2])) {
                    (Ok(x), Ok(y), Ok(rot)) => Ok(At { x, y, rot }),
                    (Err(e), _, _) => Err(e),
                    (_, Err(e), _) => Err(e),
                    (_, _, Err(e)) => Err(e),
                }
            } else {
                Err(ErrV::ArityMismatch("at"@))
            }
        },
        Err(e) => Err(e),
    }
}

/// Decodes a placement from an `at` node.
pub fn parse_at(s: &Sexp) -> (r: Result<At, DecodeError>)
    ensures
        res_view(r) == spec_parse_at(s@),
{
    let v = match expect_tagged(s, "at") {
        Ok(v) => v,
        Err(e) => {
            return Err(e);
        },
    };
    proof {
        lemma_sexp_views(v@);
    }
    if v.len() == 2 {
        let x = match as_float(&v[0]) {
            Ok(x) => x,
            Err(e) => {
                return Err(e);
            },
        };
        let y = match as_float(&v[1]) {
            Ok(y) => y,
            Err(e) => {
                return Err(e);
            },
        };
        Ok(At { x, y, rot: Real::zero() })
    } else if v.len() == 3 {
        let x = match as_float(&v[0]) {
            Ok(x) => x,
            Err(e) => {
                return Err(e);
            },
        };
        let y = match as_float(&v[1]) {
            Ok(y) => y,
            Err(e) => {
                return Err(e);
            },
        };
        let rot = match as_float(&v[2]) {
            Ok(rot) => rot,
            Err(e) => {
                return Err(e);
            },
        };
        Ok(At { x, y, rot })
    } else {
        Err(DecodeError::ArityMismatch(String::from_str("at")))
    }
}

/// The layer named by one string child of a `layer` node.
pub open spec fn spec_parse_layer(s: SexpV) -> Result<Layer, ErrV> {
    match spec_children_tagged_arity(s, "layer"@, 1) {
        Ok(ws) => match spec_as_string(ws[0]) {
            Ok(t) => spec_layer_from_string(t),
            Err(e) => Err(e),
        },
        Err(e) => Err(e),
    }
}

/// Decodes a layer reference from a `layer` node.
pub fn parse_layer(s: &Sexp) -> (r: Result<Layer, DecodeError>)
    ensures
        res_view(r) == spec_parse_layer(s@),
{
    let v = match expect_tagged_arity(s, "layer", 1) {
        Ok(v) => v,
        Err(e) => {
            return Err(e);
        },
    };
    proof {
        lemma_sexp_views(v@);
    }
    let t = match as_string(&v[0]) {
        Ok(t) => t,
        Err(e) => {
            return Err(e);
        },
    };
    Layer::from_string(t.as_str())
}

/// One entry of a `layers` node: a string child resolved as a layer name.
pub open spec fn spec_layer_item(s: SexpV) -> Result<Layer, ErrV> {
    match spec_as_string(s) {
        Ok(t) => spec_layer_from_string(t),
        Err(e) => Err(e),
    }
}

/// The layers named by the children of a `layers` node, in order; the first
/// failure wins.
pub open spec fn spec_layers_list(ws: Seq<SexpV>) -> Result<Seq<Layer>, ErrV>
    decreases ws.len(),
{
    if ws.len() == 0 {
        Ok(Seq::empty())
    } else {
        match spec_layer_item(ws[0]) {
            Ok(l) => match spec_layers_list(ws.drop_first()) {
                Ok(ls) => Ok(seq![l] + ls),
                Err(e) => Err(e),
            },
            Err(e) => Err(e),
        }
    }
}

/// The layer set a `layers` node denotes.
pub open spec fn spec_parse_layers(s: SexpV) -> Result<Seq<Layer>, ErrV> {
    match spec_children_tagged(s, "layers"@) {
        Ok(ws) => spec_layers_list(ws),
        Err(e) => Err(e),
    }
}

fn layer_item(s: &Sexp) -> (r: Result<Layer, DecodeError>)
    ensures
        res_view(r) == spec_layer_item(s@),
{
    let t = match as_string(s) {
        Ok(t) => t,
        Err(e) => {
            return Err(e);
        },
    };
    Layer::from_string(t.as_str())
}

/// Decodes an ordered layer set from a `layers` node, preserving order.
#[verifier::loop_isolation(false)]
pub fn parse_layers(s: &Sexp) -> (r: Result<Layers, DecodeError>)
    ensures
        res_view(r) == spec_parse_layers(s@),
{
    let v = match expect_tagged(s, "layers") {
        Ok(v) => v,
        Err(e) => {
            return Err(e);
        },
    };
    let ghost ws = sexp_views(v@);
    proof {
        lemma_sexp_views(v@);
    }
    let mut out = Layers::new();
    proof {
        assert(ws.skip(0) =~= ws);
        match spec_layers_list(ws) {
            Ok(rest) => {
                assert(Seq::<Layer>::empty() + rest =~= rest);
            },
            _ => {},
        }
    }
    let mut i: usize = 0;
    while i < v.len()
        invariant
            i <= v@.len(),
            ws == sexp_views(v@),
            ws.len() == v@.len(),
            forall|k: int| 0 <= k < v@.len() ==> ws[k] == sexp_view(#[trigger] v@[k]),
            spec_layers_list(ws) == (match spec_layers_list(ws.skip(i as int)) {
                Ok(rest) => Ok::<Seq<Layer>, ErrV>(out@ + rest),
                Err(e) => Err::<Seq<Layer>, ErrV>(e),
            }),
        decreases v@.len() - i,
    {
        let ghost tail = ws.skip(i as int);
        proof {
            assert(tail[0] == ws[i as int]);
            assert(tail.drop_first() =~= ws.skip(i as int + 1));
        }
        match layer_item(&v[i]) {
            Ok(l) => {
                let ghost old_out = out@;
                out.append(&l);
                proof {
                    if spec_layers_list(ws.skip(i as int + 1)) is Ok {
                        let rest = spec_layers_list(ws.skip(i as int + 1))->Ok_0;
                        assert(old_out + (seq![l] + rest) =~= out@ + rest);
                    }
                }
            },
            Err(e) => {
                proof {
                    assert(spec_layers_list(tail) == Err::<Seq<Layer>, ErrV>(e@));
                }
                return Err(e);
            },
        }
        i = i + 1;
    }
    proof {
        assert(ws.skip(i as int) =~= Seq::<SexpV>::empty());
        assert(out@ + Seq::<Layer>::empty() =~= out@);
    }
    Ok(out)
}

/// The coordinate role a tag denotes.
pub open spec fn spec_xy_role(t: Seq<char>) -> Option<XyType> {
    if t == "xy"@ {
        Some(XyType::Xy)
    } else if t == "start"@ {
        Some(XyType::Start)
    } else if t == "end"@ {
        Some(XyType::End)
    } else if t == "size"@ {
        Some(XyType::Size)
    } else if t == "center"@ {
        Some(XyType::Center)
    } else if t == "rect_delta"@ {
        Some(XyType::RectDelta)
    } else {
        None
    }
}

fn xy_role_from(p: &str) -> (r: Option<XyType>)
    ensures
        r == spec_xy_role(p@),
{
    if str_eq(p, "xy") {
        Some(XyType::Xy)
    } else if str_eq(p, "start") {
        Some(XyType::Start)
    } else if str_eq(p, "end") {
        Some(XyType::End)
    } else if str_eq(p, "size") {
        Some(XyType::Size)
    } else if str_eq(p, "center") {
        Some(XyType::Center)
    } else if str_eq(p, "rect_delta") {
        Some(XyType::RectDelta)
    } else {
        None
    }
}

/// The coordinate a role-tagged node denotes: its tag fixes the role, and
/// exactly two numeric children follow.
pub open spec fn spec_parse_xy(s: SexpV) -> Result<Xy, ErrV> {
    match s {
        SexpV::List(cs) => {
            if cs.len() >= 1 {
                match cs[0] {
                    SexpV::Atom(name) => match spec_xy_role(name) {
                        Some(t) => {
                            if cs.len() == 3 {
                                match (spec_as_float(cs[1]), spec_as_float(cs[2])) {
                                    (Ok(x), Ok(y)) => Ok(Xy { x, y, t }),
                                    (Err(e), _) => Err(e),
                                    (_, Err(e)) => Err(e),
                                }
                            } else {
                                Err(ErrV::ArityMismatch(name))
                            }
                        },
                        None => Err(ErrV::UnknownVariant(name)),
                    },
                    _ => Err(ErrV::StructuralError("xy"@)),
                }
            } else {
                Err(ErrV::StructuralError("xy"@))
            }
        },
        _ => Err(ErrV::StructuralError("xy"@)),
    }
}

/// Decodes a role-tagged coordinate node.
pub fn parse_xy(s: &Sexp) -> (r: Result<Xy, DecodeError>)
    ensures
        res_view(r) == spec_parse_xy(s@),
{
    match s {
        Sexp::List(cs) => {
            proof {
                lemma_sexp_views(cs@);
            }
            if cs.len() >= 1 {
                match &cs[0] {
                    Sexp::Atom(name) => {
                        match xy_role_from(name.as_str()) {
                            Some(t) => {
                                if cs.len() == 3 {
                                    let x = match as_float(&cs[1]) {
                                        Ok(x) => x,
                                        Err(e) => {
                                            return Err(e);
                                        },
                                    };
                                    let y = match as_float(&cs[2]) {
                                        Ok(y) => y,
                                        Err(e) => {
                                            return Err(e);
                                        },
                                    };
                                    Ok(Xy { x, y, t })
                                } else {
                                    Err(DecodeError::ArityMismatch(name.clone()))
                                }
                            },
                            None => Err(DecodeError::UnknownVariant(name.clone())),
                        }
                    },
                    _ => Err(DecodeError::StructuralError(String::from_str("xy"))),
                }
            } else {
                Err(DecodeError::StructuralError(String::from_str("xy")))
            }
        },
        _ => Err(DecodeError::StructuralError(String::from_str("xy"))),
    }
}

/// The coordinates of a run of nodes, each decoded by role; the first
/// failure wins.
pub open spec fn spec_xys_list(ws: Seq<SexpV>) -> Result<Seq<Xy>, ErrV>
    decreases ws.len(),
{
    if ws.len() == 0 {
        Ok(Seq::empty())
    } else {
        match spec_parse_xy(ws[0]) {
            Ok(p) => match spec_xys_list(ws.drop_first()) {
                Ok(ps) => Ok(seq![p] + ps),
                Err(e) => Err(e),
            },
            Err(e) => Err(e),
        }
    }
}

/// The point list a `pts` node denotes: every child decoded as a coordinate.
pub open spec fn spec_parse_pts(s: SexpV) -> Result<Seq<Xy>, ErrV> {
    match spec_children_tagged(s, "pts"@) {
        Ok(ws) => spec_xys_list(ws),
        Err(e) => Err(e),
    }
}

/// Decodes a point list from a `pts` node.
#[verifier::loop_isolation(false)]
pub fn parse_pts(s: &Sexp) -> (r: Result<Pts, DecodeError>)
    ensures
        res_view(r) == spec_parse_pts(s@),
{
    let v = match expect_tagged(s, "pts") {
        Ok(v) => v,
        Err(e) => {
            return Err(e);
        },
    };
    let ghost ws = sexp_views(v@);
    proof {
        lemma_sexp_views(v@);
    }
    let mut out: Vec<Xy> = Vec::new();
    proof {
        assert(ws.skip(0) =~= ws);
        match spec_xys_list(ws) {
            Ok(rest) => {
                assert(Seq::<Xy>::empty() + rest =~= rest);
            },
            _ => {},
        }
    }
    let mut i: usize = 0;
    while i < v.len()
        invariant
            i <= v@.len(),
            ws == sexp_views(v@),
            ws.len() == v@.len(),
            forall|k: int| 0 <= k < v@.len() ==> ws[k] == sexp_view(#[trigger] v@[k]),
            spec_xys_list(ws) == (match spec_xys_list(ws.skip(i as int)) {
                Ok(rest) => Ok::<Seq<Xy>, ErrV>(out@ + rest),
                Err(e) => Err::<Seq<Xy>, ErrV>(e),
            }),
        decreases v@.len() - i,
    {
        let ghost tail = ws.skip(i as int);
        proof {
            assert(tail[0] == ws[i as int]);
            assert(tail.drop_first() =~= ws.skip(i as int + 1));
        }
        match parse_xy(&v[i]) {
            Ok(p) => {
                let ghost old_out = out@;
                out.push(p);
                proof {
                    if spec_xys_list(ws.skip(i as int + 1)) is Ok {
                        let rest = spec_xys_list(ws.skip(i as int + 1))->Ok_0;
                        assert(old_out + (seq![p] + rest) =~= out@ + rest);
                    }
                }
            },
            Err(e) => {
                proof {
                    assert(spec_xys_list(tail) == Err::<Seq<Xy>, ErrV>(e@));
                }
                return Err(e);
            },
        }
        i = i + 1;
    }
    proof {
        assert(ws.skip(i as int) =~= Seq::<SexpV>::empty());
        assert(out@ + Seq::<Xy>::empty() =~= out@);
    }
    Ok(Pts { elements: out })
}

/// The coordinates a `pts` node yields when its first child is passed over;
/// the remaining children are decoded in order.
pub open spec fn spec_parse_xy_vec(s: SexpV) -> Result<Seq<Xy>, ErrV> {
    match spec_children_tagged(s, "pts"@) {
        Ok(ws) => spec_xys_list(ws.skip(1)),
        Err(e) => Err(e),
    }
}

/// Decodes the coordinates of a `pts` node, passing over the first child.
///
/// The first non-tag child is skipped, not decoded; callers must hand in a
/// `pts` list with at least one child.
#[verifier::loop_isolation(false)]
pub fn parse_xy_vec(s: &Sexp) -> (r: Result<Vec<Xy>, DecodeError>)
    requires
        spec_children_tagged(s@, "pts"@) matches Ok(ws) ==> ws.len() >= 1,
    ensures
        res_view(r) == spec_parse_xy_vec(s@),
{
    let v = match expect_tagged(s, "pts") {
        Ok(v) => v,
        Err(e) => {
            return Err(e);
        },
    };
    let ghost ws = sexp_views(v@);
    proof {
        lemma_sexp_views(v@);
    }
    let mut out: Vec<Xy> = Vec::new();
    proof {
        match spec_xys_list(ws.skip(1)) {
            Ok(rest) => {
                assert(Seq::<Xy>::empty() + rest =~= rest);
            },
            _ => {},
        }
    }
    let mut i: usize = 1;
    while i < v.len()
        invariant
            1 <= i <= v@.len() || (v@.len() == 0 && i == 1),
            v@.len() >= 1,
            ws == sexp_views(v@),
            ws.len() == v@.len(),
            forall|k: int| 0 <= k < v@.len() ==> ws[k] == sexp_view(#[trigger] v@[k]),
            spec_xys_list(ws.skip(1)) == (match spec_xys_list(ws.skip(i as int)) {
                Ok(rest) => Ok::<Seq<Xy>, ErrV>(out@ + rest),
                Err(e) => Err::<Seq<Xy>, ErrV>(e),
            }),
        decreases v@.len() - i,
    {
        let ghost tail = ws.skip(i as int);
        proof {
            assert(tail[0] == ws[i as int]);
            assert(tail.drop_first() =~= ws.skip(i as int + 1));
        }
        match parse_xy(&v[i]) {
            Ok(p) => {
                let ghost old_out = out@;
                out.push(p);
                proof {
                    if spec_xys_list(ws.skip(i as int + 1)) is Ok {
                        let rest = spec_xys_list(ws.skip(i as int + 1))->Ok_0;
                        assert(old_out + (seq![p] + rest) =~= out@ + rest);
                    }
                }
            },
            Err(e) => {
                proof {
                    assert(spec_xys_list(tail) == Err::<Seq<Xy>, ErrV>(e@));
                }
                return Err(e);
            },
        }
        i = i + 1;
    }
    proof {
        assert(ws.skip(i as int) =~= Seq::<SexpV>::empty());
        assert(out@ + Seq::<Xy>::empty() =~= out@);
    }
    Ok(out)
}

/// The 3D vector an `xyz` node denotes: exactly three numeric children.
pub open spec fn spec_parse_xyz(s: SexpV) -> Result<Xyz, ErrV> {
    match spec_children_tagged_arity(s, "xyz"@, 3) {
        Ok(ws) => match (spec_as_float(ws[0]), spec_as_float(ws[1]), spec_as_float(ws[2])) {
            (Ok(x), Ok(y), Ok(z)) => Ok(Xyz { x, y, z }),
            (Err(e), _, _) => Err(e),
            (_, Err(e), _) => Err(e),
            (_, _, Err(e)) => Err(e),
        },
        Err(e) => Err(e),
    }
}

/// Decodes a 3D vector from an `xyz` node.
pub fn parse_xyz(s: &Sexp) -> (r: Result<Xyz, DecodeError>)
    ensures
        res_view(r) == spec_parse_xyz(s@),
{
    let v = match expect_tagged_arity(s, "xyz", 3) {
        Ok(v) => v,
        Err(e) => {
            return Err(e);
        },
    };
    proof {
        lemma_sexp_views(v@);
    }
    let x = match as_float(&v[0]) {
        Ok(x) => x,
        Err(e) => {
            return Err(e);
        },
    };
    let y = match as_float(&v[1]) {
        Ok(y) => y,
        Err(e) => {
            return Err(e);
        },
    };
    let z = match as_float(&v[2]) {
        Ok(z) => z,
        Err(e) => {
            return Err(e);
        },
    };
    Ok(Xyz { x, y, z })
}

/// The net reference a `net` node denotes: an integer id and a string name.
pub open spec fn spec_parse_net(s: SexpV) -> Result<NetV, ErrV> {
    match spec_children_tagged_arity(s, "net"@, 2) {
        Ok(ws) => match (spec_as_int(ws[0]), spec_as_string(ws[1])) {
            (Ok(num), Ok(name)) => Ok(NetV { num, name }),
            (Err(e), _) => Err(e),
            (_, Err(e)) => Err(e),
        },
        Err(e) => Err(e),
    }
}

/// Decodes a net reference from a `net` node.
pub fn parse_net(s: &Sexp) -> (r: Result<Net, DecodeError>)
    ensures
        res_view(r) == spec_parse_net(s@),
{
    let v = match expect_tagged_arity(s, "net", 2) {
        Ok(v) => v,
        Err(e) => {
            return Err(e);
        },
    };
    proof {
        lemma_sexp_views(v@);
    }
    let num = match as_int(&v[0]) {
        Ok(num) => num,
        Err(e) => {
            return Err(e);
        },
    };
    let name = match as_string(&v[1]) {
        Ok(name) => name,
        Err(e) => {
            return Err(e);
        },
    };
    Ok(Net { num, name: name.clone() })
}

/// The hole a `drill` node denotes: one diameter, or a shape name with two
/// diameters; any other arity is rejected.
pub open spec fn spec_parse_drill(s: SexpV) -> Result<DrillV, ErrV> {
    match spec_children_tagged(s, "drill"@) {
        Ok(ws) => {
            if ws.len() == 1 {
                match spec_as_float(ws[0]) {
                    Ok(d) => Ok(DrillV { shape: None, drill: d, drill2: None }),
                    Err(e) => Err(e),
                }
            } else if ws.len() == 3 {
                match (spec_as_string(ws[0]), spec_as_float(ws[1]), spec_as_float(ws[2])) {
                    (Ok(shape), Ok(d), Ok(d2)) => Ok(
                        DrillV { shape: Some(shape), drill: d, drill2: Some(d2) },
                    ),
                    (Err(e), _, _) => Err(e),
                    (_, Err(e), _) => Err(e),
                    (_, _, Err(e)) => Err(e),
                }
            } else {
                Err(ErrV::ArityMismatch("drill"@))
            }
        },
        Err(e) => Err(e),
    }
}

/// Decodes a hole specification from a `drill` node.
pub fn parse_drill(s: &Sexp) -> (r: Result<Drill, DecodeError>)
    ensures
        res_view(r) == spec_parse_drill(s@),
{
    let v = match expect_tagged(s, "drill") {
        Ok(v) => v,
        Err(e) => {
            return Err(e);
        },
    };
    proof {
        lemma_sexp_views(v@);
    }
    if v.len() == 1 {
        let d = match as_float(&v[0]) {
            Ok(d) => d,
            Err(e) => {
                return Err(e);
            },
        };
        Ok(Drill { shape: None, drill: d, drill2: None })
    } else if v.len() == 3 {
        let shape = match as_string(&v[0]) {
            Ok(shape) => shape,
            Err(e) => {
                return Err(e);
            },
        };
        let d = match as_float(&v[1]) {
            Ok(d) => d,
            Err(e) => {
                return Err(e);
            },
        };
        let d2 = match as_float(&v[2]) {
            Ok(d2) => d2,
            Err(e) => {
                return Err(e);
            },
        };
        Ok(Drill { shape: Some(shape.clone()), drill: d, drill2: Some(d2) })
    } else {
        Err(DecodeError::ArityMismatch(String::from_str("drill")))
    }
}

/// The justification a `justify` node denotes: one string child, and
/// mirroring is the only value accepted.
pub open spec fn spec_parse_justify(s: SexpV) -> Result<Justify, ErrV> {
    match spec_children_tagged_arity(s, "justify"@, 1) {
        Ok(ws) => match spec_as_string(ws[0]) {
            Ok(t) => {
                if t == "mirror"@ {
                    Ok(Justify::Mirror)
                } else {
                    Err(ErrV::UnknownVariant(t))
                }
            },
            Err(e) => Err(e),
        },
        Err(e) => Err(e),
    }
}

/// Decodes a justification modifier from a `justify` node.
pub fn parse_justify(s: &Sexp) -> (r: Result<Justify, DecodeError>)
    ensures
        res_view(r) == spec_parse_justify(s@),
{
    let v = match expect_tagged_arity(s, "justify", 1) {
        Ok(v) => v,
        Err(e) => {
            return Err(e);
        },
    };
    proof {
        lemma_sexp_views(v@);
    }
    let t = match as_string(&v[0]) {
        Ok(t) => t,
        Err(e) => {
            return Err(e);
        },
    };
    if str_eq(t.as_str(), "mirror") {
        Ok(Justify::Mirror)
    } else {
        Err(DecodeError::UnknownVariant(t.clone()))
    }
}

} // verus!
