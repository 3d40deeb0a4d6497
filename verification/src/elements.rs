//! The top level: single-value elements, the element dispatch, the 3D model
//! record and the module decoder.
//!
//! A module is a named list whose children are elements; every element is a
//! bare `locked` token or a tagged list dispatched by its tag. An unknown
//! tag fails the whole module: there is no partial result.

use vstd::prelude::*;
use vstd::string::StrSliceExecFns;
use vstd::string::StringExecFns;
use crate::err::DecodeError;
use crate::err::ErrV;
use crate::err::res_view;
use crate::num::Real;
use crate::data::Element;
use crate::data::ElementV;
use crate::data::Model;
use crate::data::ModelV;
use crate::data::Module;
use crate::data::ModuleV;
use crate::data::Xyz;
use crate::sexp::Sexp;
use crate::sexp::SexpV;
use crate::sexp::sexp_views;
use crate::sexp::lemma_sexp_views;
use crate::sexp::spec_as_float;
use crate::sexp::spec_as_string;
use crate::sexp::spec_children_tagged;
use crate::sexp::spec_children_tagged_arity;
use crate::sexp::as_float;
use crate::sexp::as_string;
use crate::sexp::expect_tagged;
use crate::sexp::expect_tagged_arity;
use crate::sexp::str_eq;
use crate::values::spec_parse_at;
use crate::values::spec_parse_xyz;
use crate::values::parse_at;
use crate::values::parse_xyz;
use crate::composites::spec_parse_fp_text;
use crate::composites::spec_parse_pad;
use crate::composites::spec_parse_fp_poly;
use crate::composites::spec_parse_fp_line;
use crate::composites::spec_parse_fp_circle;
use crate::composites::spec_parse_fp_arc;
use crate::composites::parse_fp_text;
use crate::composites::parse_pad;
use crate::composites::parse_fp_poly;
use crate::composites::parse_fp_line;
use crate::composites::parse_fp_circle;
use crate::composites::parse_fp_arc;

verus! {

/// The string carried by a list tagged `name` with exactly one string child.
pub open spec fn spec_string_element(s: SexpV, name: Seq<char>) -> Result<Seq<char>, ErrV> {
    match spec_children_tagged_arity(s, name, 1) {
        Ok(ws) => spec_as_string(ws[0]),
        Err(e) => Err(e),
    }
}

/// The real carried by a list tagged `name` with exactly one numeric child.
pub open spec fn spec_float_element(s: SexpV, name: Seq<char>) -> Result<Real, ErrV> {
    match spec_children_tagged_arity(s, name, 1) {
        Ok(ws) => spec_as_float(ws[0]),
        Err(e) => Err(e),
    }
}

/// Extracts the single string child of a list tagged `name`.
pub fn parse_string_element(s: &Sexp, name: &str) -> (r: Result<String, DecodeError>)
    ensures
        res_view(r) == spec_string_element(s@, name@),
{
    let v = match expect_tagged_arity(s, name, 1) {
        Ok(v) => v,
        Err(e) => {
            return Err(e);
        },
    };
    proof {
        lemma_sexp_views(v@);
    }
    match as_string(&v[0]) {
        Ok(t) => Ok(t.clone()),
        Err(e) => Err(e),
    }
}

/// Extracts the single numeric child of a list tagged `name`.
pub fn parse_float_element(s: &Sexp, name: &str) -> (r: Result<Real, DecodeError>)
    ensures
        res_view(r) == spec_float_element(s@, name@),
{
    let v = match expect_tagged_arity(s, name, 1) {
        Ok(v) => v,
        Err(e) => {
            return Err(e);
        },
    };
    proof {
        lemma_sexp_views(v@);
    }
    as_float(&v[0])
}

/// The 3D vector wrapped as the single child of a list tagged `name`.
pub open spec fn spec_sublist_xyz(s: SexpV, name: Seq<char>) -> Result<Xyz, ErrV> {
    match spec_children_tagged_arity(s, name, 1) {
        Ok(ws) => spec_parse_xyz(ws[0]),
        Err(e) => Err(e),
    }
}

/// Unwraps the single child of a list tagged `name` and decodes it as a
/// 3D vector.
pub fn parse_sublist_xyz(s: &Sexp, name: &str) -> (r: Result<Xyz, DecodeError>)
    ensures
        res_view(r) == spec_sublist_xyz(s@, name@),
{
    let v = match expect_tagged_arity(s, name, 1) {
        Ok(v) => v,
        Err(e) => {
            return Err(e);
        },
    };
    proof {
        lemma_sexp_views(v@);
    }
    parse_xyz(&v[0])
}

/// The 3D model a `model` node denotes: exactly four children, a path name
/// and the three wrapped transform vectors, all positional.
pub open spec fn spec_parse_model(s: SexpV) -> Result<ModelV, ErrV> {
    match spec_children_tagged_arity(s, "model"@, 4) {
        Ok(ws) => match spec_as_string(ws[0]) {
            Ok(name) => match spec_sublist_xyz(ws[1], "at"@) {
                Ok(at) => match spec_sublist_xyz(ws[2], "scale"@) {
                    Ok(scale) => match spec_sublist_xyz(ws[3], "rotate"@) {
                        Ok(rotate) => Ok(ModelV { name, at, scale, rotate }),
                        Err(e) => Err(e),
                    },
                    Err(e) => Err(e),
                },
                Err(e) => Err(e),
            },
            Err(e) => Err(e),
        },
        Err(e) => Err(e),
    }
}

/// Decodes a 3D model reference from a `model` node.
pub fn parse_model(s: &Sexp) -> (r: Result<Model, DecodeError>)
    ensures
        res_view(r) == spec_parse_model(s@),
{
    let v = match expect_tagged_arity(s, "model", 4) {
        Ok(v) => v,
        Err(e) => {
            return Err(e);
        },
    };
    proof {
        lemma_sexp_views(v@);
    }
    let name = match as_string(&v[0]) {
        Ok(t) => t,
        Err(e) => {
            return Err(e);
        },
    };
    let at = match parse_sublist_xyz(&v[1], "at") {
        Ok(at) => at,
        Err(e) => {
            return Err(e);
        },
    };
    let scale = match parse_sublist_xyz(&v[2], "scale") {
        Ok(scale) => scale,
        Err(e) => {
            return Err(e);
        },
    };
    let rotate = match parse_sublist_xyz(&v[3], "rotate") {
        Ok(rotate) => rotate,
        Err(e) => {
            return Err(e);
        },
    };
    Ok(Model { name: name.clone(), at, scale, rotate })
}

/// The element one top-level child of a module denotes: a bare `locked`
/// token, or a tagged list dispatched exhaustively by its tag; an
/// unrecognized tag fails, naming the tag.
pub open spec fn spec_parse_element(s: SexpV) -> Result<ElementV, ErrV> {
    match s {
        SexpV::Atom(t) => {
            if t == "locked"@ {
                Ok(ElementV::Locked)
            } else {
                Err(ErrV::UnknownVariant(t))
            }
        },
        SexpV::List(cs) => {
            if cs.len() >= 1 {
                match cs[0] {
                    SexpV::Atom(name) => {
                        if name == "solder_mask_margin"@ {
                            match spec_float_element(s, name) {
                                Ok(f) => Ok(ElementV::SolderMaskMargin(f)),
                                Err(e) => Err(e),
                            }
                        } else if name == "layer"@ {
                            match spec_string_element(s, name) {
                                Ok(t) => Ok(ElementV::Layer(t)),
                                Err(e) => Err(e),
                            }
                        } else if name == "descr"@ {
                            match spec_string_element(s, name) {
                                Ok(t) => Ok(ElementV::Descr(t)),
                                Err(e) => Err(e),
                            }
                        } else if name == "tags"@ {
                            match spec_string_element(s, name) {
                                Ok(t) => Ok(ElementV::Tags(t)),
                                Err(e) => Err(e),
                            }
                        } else if name == "attr"@ {
                            match spec_string_element(s, name) {
                                Ok(t) => Ok(ElementV::Attr(t)),
                                Err(e) => Err(e),
                            }
                        } else if name == "fp_text"@ {
                            match spec_parse_fp_text(s) {
                                Ok(t) => Ok(ElementV::FpText(t)),
                                Err(e) => Err(e),
                            }
                        } else if name == "pad"@ {
                            match spec_parse_pad(s) {
                                Ok(p) => Ok(ElementV::Pad(p)),
                                Err(e) => Err(e),
                            }
                        } else if name == "fp_poly"@ {
                            match spec_parse_fp_poly(s) {
                                Ok(p) => Ok(ElementV::FpPoly(p)),
                                Err(e) => Err(e),
                            }
                        } else if name == "fp_line"@ {
                            match spec_parse_fp_line(s) {
                                Ok(l) => Ok(ElementV::FpLine(l)),
                                Err(e) => Err(e),
                            }
                        } else if name == "fp_circle"@ {
                            match spec_parse_fp_circle(s) {
                                Ok(c) => Ok(ElementV::FpCircle(c)),
                                Err(e) => Err(e),
                            }
                        } else if name == "fp_arc"@ {
                            match spec_parse_fp_arc(s) {
                                Ok(a) => Ok(ElementV::FpArc(a)),
                                Err(e) => Err(e),
                            }
                        } else if name == "tedit"@ {
                            match spec_string_element(s, name) {
                                Ok(t) => Ok(ElementV::TEdit(t)),
                                Err(e) => Err(e),
                            }
                        } else if name == "tstamp"@ {
                            match spec_string_element(s, name) {
                                Ok(t) => Ok(ElementV::TStamp(t)),
                                Err(e) => Err(e),
                            }
                        } else if name == "path"@ {
                            match spec_string_element(s, name) {
                                Ok(t) => Ok(ElementV::Path(t)),
                                Err(e) => Err(e),
                            }
                        } else if name == "at"@ {
                            match spec_parse_at(s) {
                                Ok(a) => Ok(ElementV::At(a)),
                                Err(e) => Err(e),
                            }
                        } else if name == "model"@ {
                            match spec_parse_model(s) {
                                Ok(m) => Ok(ElementV::Model(m)),
                                Err(e) => Err(e),
                            }
                        } else {
                            Err(ErrV::UnknownVariant(name))
                        }
                    },
                    _ => Err(ErrV::StructuralError("element"@)),
                }
            } else {
                Err(ErrV::StructuralError("element"@))
            }
        },
        SexpV::Empty => Err(ErrV::StructuralError("element"@)),
    }
}

/// Decodes one top-level child of a module.
pub fn parse_element(s: &Sexp) -> (r: Result<Element, DecodeError>)
    ensures
        res_view(r) == spec_parse_element(s@),
{
    match s {
        Sexp::Atom(t) => {
            if str_eq(t.as_str(), "locked") {
                Ok(Element::Locked)
            } else {
                Err(DecodeError::UnknownVariant(t.clone()))
            }
        },
        Sexp::List(cs) => {
            proof {
                lemma_sexp_views(cs@);
            }
            if cs.len() >= 1 {
                match &cs[0] {
                    Sexp::Atom(name) => {
                        if str_eq(name.as_str(), "solder_mask_margin") {
                            match parse_float_element(s, "solder_mask_margin") {
                                Ok(f) => Ok(Element::SolderMaskMargin(f)),
                                Err(e) => Err(e),
                            }
                        } else if str_eq(name.as_str(), "layer") {
                            match parse_string_element(s, "layer") {
                                Ok(t) => Ok(Element::Layer(t)),
                                Err(e) => Err(e),
                            }
                        } else if str_eq(name.as_str(), "descr") {
                            match parse_string_element(s, "descr") {
                                Ok(t) => Ok(Element::Descr(t)),
                                Err(e) => Err(e),
                            }
                        } else if str_eq(name.as_str(), "tags") {
                            match parse_string_element(s, "tags") {
                                Ok(t) => Ok(Element::Tags(t)),
                                Err(e) => Err(e),
                            }
                        } else if str_eq(name.as_str(), "attr") {
                            match parse_string_element(s, "attr") {
                                Ok(t) => Ok(Element::Attr(t)),
                                Err(e) => Err(e),
                            }
                        } else if str_eq(name.as_str(), "fp_text") {
                            match parse_fp_text(s) {
                                Ok(t) => Ok(Element::FpText(t)),
                                Err(e) => Err(e),
                            }
                        } else if str_eq(name.as_str(), "pad") {
                            match parse_pad(s) {
                                Ok(p) => Ok(Element::Pad(p)),
                                Err(e) => Err(e),
                            }
                        } else if str_eq(name.as_str(), "fp_poly") {
                            match parse_fp_poly(s) {
                                Ok(p) => Ok(Element::FpPoly(p)),
                                Err(e) => Err(e),
                            }
                        } else if str_eq(name.as_str(), "fp_line") {
                            match parse_fp_line(s) {
                                Ok(l) => Ok(Element::FpLine(l)),
                                Err(e) => Err(e),
                            }
                        } else if str_eq(name.as_str(), "fp_circle") {
                            match parse_fp_circle(s) {
                                Ok(c) => Ok(Element::FpCircle(c)),
                                Err(e) => Err(e),
                            }
                        } else if str_eq(name.as_str(), "fp_arc") {
                            match parse_fp_arc(s) {
                                Ok(a) => Ok(Element::FpArc(a)),
                                Err(e) => Err(e),
                            }
                        } else if str_eq(name.as_str(), "tedit") {
                            match parse_string_element(s, "tedit") {
                                Ok(t) => Ok(Element::TEdit(t)),
                                Err(e) => Err(e),
                            }
                        } else if str_eq(name.as_str(), "tstamp") {
                            match parse_string_element(s, "tstamp") {
                                Ok(t) => Ok(Element::TStamp(t)),
                                Err(e) => Err(e),
                            }
                        } else if str_eq(name.as_str(), "path") {
                            match parse_string_element(s, "path") {
                                Ok(t) => Ok(Element::Path(t)),
                                Err(e) => Err(e),
                            }
                        } else if str_eq(name.as_str(), "at") {
                            match parse_at(s) {
                                Ok(a) => Ok(Element::At(a)),
                                Err(e) => Err(e),
                            }
                        } else if str_eq(name.as_str(), "model") {
                            match parse_model(s) {
                                Ok(m) => Ok(Element::Model(m)),
                                Err(e) => Err(e),
                            }
                        } else {
                            Err(DecodeError::UnknownVariant(name.clone()))
                        }
                    },
                    _ => Err(DecodeError::StructuralError(String::from_str("element"))),
                }
            } else {
                Err(DecodeError::StructuralError(String::from_str("element")))
            }
        },
        Sexp::Empty => Err(DecodeError::StructuralError(String::from_str("element"))),
    }
}

/// The elements a run of module children denotes, in order; the first
/// failure wins.
pub open spec fn spec_elements_list(ws: Seq<SexpV>) -> Result<Seq<ElementV>, ErrV>
    decreases ws.len(),
{
    if ws.len() == 0 {
        Ok(Seq::empty())
    } else {
        match spec_parse_element(ws[0]) {
            Ok(el) => match spec_elements_list(ws.drop_first()) {
                Ok(es) => Ok(seq![el] + es),
                Err(e) => Err(e),
            },
            Err(e) => Err(e),
        }
    }
}

/// The module a `module` node denotes: its first child is the module name,
/// a string that must be present; every following child is an element, kept
/// in source order. Any element failure fails the whole module.
pub open spec fn spec_parse_module(s: SexpV) -> Result<ModuleV, ErrV> {
    match spec_children_tagged(s, "module"@) {
        Ok(ws) => {
            if ws.len() >= 1 {
                match spec_as_string(ws[0]) {
                    Ok(name) => match spec_elements_list(ws.skip(1)) {
                        Ok(es) => Ok(ModuleV { name, elements: es }),
                        Err(e) => Err(e),
                    },
                    Err(e) => Err(e),
                }
            } else {
                Err(ErrV::StructuralError("module"@))
            }
        },
        Err(e) => Err(e),
    }
}

/// Decodes a complete footprint from a `module` node.
#[verifier::loop_isolation(false)]
pub fn parse_module(s: &Sexp) -> (r: Result<Module, DecodeError>)
    ensures
        res_view(r) == spec_parse_module(s@),
{
    let v = match expect_tagged(s, "module") {
        Ok(v) => v,
        Err(e) => {
            return Err(e);
        },
    };
    let ghost ws = sexp_views(v@);
    proof {
        lemma_sexp_views(v@);
    }
    if v.len() < 1 {
        return Err(DecodeError::StructuralError(String::from_str("module")));
    }
    let name = match as_string(&v[0]) {
        Ok(t) => t,
        Err(e) => {
            return Err(e);
        },
    };
    let mut module = Module::new(name.clone());
    proof {
        match spec_elements_list(ws.skip(1)) {
            Ok(rest) => {
                assert(Seq::<ElementV>::empty() + rest =~= rest);
            },
            _ => {},
        }
    }
    let mut i: usize = 1;
    while i < v.len()
        invariant
            1 <= i <= v@.len(),
            module@.name == name@,
            spec_elements_list(ws.skip(1)) == (match spec_elements_list(ws.skip(i as int)) {
                Ok(rest) => Ok::<Seq<ElementV>, ErrV>(module@.elements + rest),
                Err(e) => Err::<Seq<ElementV>, ErrV>(e),
            }),
        decreases v@.len() - i,
    {
        let ghost tail = ws.skip(i as int);
        proof {
            assert(tail[0] == ws[i as int]);
            assert(tail.drop_first() =~= ws.skip(i as int + 1));
        }
        match parse_element(&v[i]) {
            Ok(el) => {
                let ghost old_es = module@.elements;
                let ghost ev = el@;
                module.append(el);
                proof {
                    if spec_elements_list(ws.skip(i as int + 1)) is Ok {
                        let rest = spec_elements_list(ws.skip(i as int + 1))->Ok_0;
                        assert(old_es + (seq![ev] + rest) =~= module@.elements + rest);
                    }
                }
            },
            Err(e) => {
                proof {
                    assert(spec_elements_list(tail) == Err::<Seq<ElementV>, ErrV>(e@));
                }
                return Err(e);
            },
        }
        i = i + 1;
    }
    proof {
        assert(ws.skip(i as int) =~= Seq::<SexpV>::empty());
        assert(module@.elements + Seq::<ElementV>::empty() =~= module@.elements);
    }
    Ok(module)
}

} // verus!
