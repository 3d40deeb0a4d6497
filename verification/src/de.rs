//! The decoding façade: a conversion trait mirroring how callers pull typed
//! records out of tree nodes, and a combinator that maps a decoder's result
//! into a wrapping constructor.

use vstd::prelude::*;
use crate::err::DecodeError;
use crate::data::At;
use crate::data::Drill;
use crate::data::Effects;
use crate::data::Element;
use crate::data::Font;
use crate::data::FpArc;
use crate::data::FpCircle;
use crate::data::FpLine;
use crate::data::FpPoly;
use crate::data::FpText;
use crate::data::Justify;
use crate::data::Layer;
use crate::data::Layers;
use crate::data::Model;
use crate::data::Module;
use crate::data::Net;
use crate::data::Pad;
use crate::data::Part;
use crate::data::Pts;
use crate::data::Xy;
use crate::data::Xyz;
use crate::sexp::Sexp;
use crate::values::parse_at;
use crate::values::parse_layer;
use crate::values::parse_layers;
use crate::values::parse_xy;
use crate::values::parse_pts;
use crate::values::parse_xyz;
use crate::values::parse_net;
use crate::values::parse_drill;
use crate::values::parse_justify;
use crate::parts::parse_part;
use crate::parts::parse_font;
use crate::parts::parse_effects;
use crate::composites::parse_fp_text;
use crate::composites::parse_pad;
use crate::composites::parse_fp_poly;
use crate::composites::parse_fp_line;
use crate::composites::parse_fp_circle;
use crate::composites::parse_fp_arc;
use crate::elements::parse_element;
use crate::elements::parse_model;
use crate::elements::parse_module;

verus! {

/// Decoding a value of `Self` out of a tree node.
///
/// Implemented on decode results, so that one name serves every record; the
/// named decode functions carry the contracts, and these impls delegate.
pub trait FromSexp: Sized {
    fn from_sexp(s: &Sexp) -> Self;
}

/// Runs a decoder and wraps its success in a constructor, passing any
/// failure through unchanged.
pub fn wrap<X, Y, F, G>(s: &Sexp, make: F, wrapper: G) -> (r: Result<Y, DecodeError>) where
    F: Fn(&Sexp) -> Result<X, DecodeError>,
    G: Fn(X) -> Y,

    requires
        call_requires(make, (s,)),
        forall|x: X| call_ensures(make, (s,), Ok(x)) ==> call_requires(wrapper, (x,)),
    ensures
        r matches Ok(y) ==> exists|x: X|
            call_ensures(make, (s,), Ok(x)) && call_ensures(wrapper, (x,), y),
        r matches Err(e) ==> call_ensures(make, (s,), Err(e)),
{
    match make(s) {
        Ok(x) => Ok(wrapper(x)),
        Err(e) => Err(e),
    }
}

impl FromSexp for Result<At, DecodeError> {
    fn from_sexp(s: &Sexp) -> Self {
        parse_at(s)
    }
}

impl FromSexp for Result<Layer, DecodeError> {
    fn from_sexp(s: &Sexp) -> Self {
        parse_layer(s)
    }
}

impl FromSexp for Result<Layers, DecodeError> {
    fn from_sexp(s: &Sexp) -> Self {
        parse_layers(s)
    }
}

impl FromSexp for Result<Xy, DecodeError> {
    fn from_sexp(s: &Sexp) -> Self {
        parse_xy(s)
    }
}

impl FromSexp for Result<Pts, DecodeError> {
    fn from_sexp(s: &Sexp) -> Self {
        parse_pts(s)
    }
}

impl FromSexp for Result<Xyz, DecodeError> {
    fn from_sexp(s: &Sexp) -> Self {
        parse_xyz(s)
    }
}

impl FromSexp for Result<Net, DecodeError> {
    fn from_sexp(s: &Sexp) -> Self {
        parse_net(s)
    }
}

impl FromSexp for Result<Drill, DecodeError> {
    fn from_sexp(s: &Sexp) -> Self {
        parse_drill(s)
    }
}

impl FromSexp for Result<Justify, DecodeError> {
    fn from_sexp(s: &Sexp) -> Self {
        parse_justify(s)
    }
}

impl FromSexp for Result<Font, DecodeError> {
    fn from_sexp(s: &Sexp) -> Self {
        parse_font(s)
    }
}

impl FromSexp for Result<Effects, DecodeError> {
    fn from_sexp(s: &Sexp) -> Self {
        parse_effects(s)
    }
}

impl FromSexp for Result<Part, DecodeError> {
    fn from_sexp(s: &Sexp) -> Self {
        parse_part(s)
    }
}

impl FromSexp for Result<FpText, DecodeError> {
    fn from_sexp(s: &Sexp) -> Self {
        parse_fp_text(s)
    }
}

impl FromSexp for Result<Pad, DecodeError> {
    fn from_sexp(s: &Sexp) -> Self {
        parse_pad(s)
    }
}

impl FromSexp for Result<FpPoly, DecodeError> {
    fn from_sexp(s: &Sexp) -> Self {
        parse_fp_poly(s)
    }
}

impl FromSexp for Result<FpLine, DecodeError> {
    fn from_sexp(s: &Sexp) -> Self {
        parse_fp_line(s)
    }
}

impl FromSexp for Result<FpCircle, DecodeError> {
    fn from_sexp(s: &Sexp) -> Self {
        parse_fp_circle(s)
    }
}

impl FromSexp for Result<FpArc, DecodeError> {
    fn from_sexp(s: &Sexp) -> Self {
        parse_fp_arc(s)
    }
}

impl FromSexp for Result<Model, DecodeError> {
    fn from_sexp(s: &Sexp) -> Self {
        parse_model(s)
    }
}

impl FromSexp for Result<Element, DecodeError> {
    fn from_sexp(s: &Sexp) -> Self {
        parse_element(s)
    }
}

impl FromSexp for Result<Module, DecodeError> {
    fn from_sexp(s: &Sexp) -> Self {
        parse_module(s)
    }
}

} // verus!
