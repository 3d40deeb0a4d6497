//! Laws the decoders obey, stated over the spec-level decoders and proved
//! once for all inputs.

use vstd::prelude::*;
use crate::err::ErrV;
use crate::num::Real;
use crate::data::At;
use crate::data::ElementV;
use crate::data::FpLine;
use crate::data::Justify;
use crate::data::ModuleV;
use crate::data::PartV;
use crate::sexp::SexpV;
use crate::sexp::spec_as_string;
use crate::sexp::spec_children_tagged;
use crate::sexp::spec_children_tagged_arity;
use crate::values::spec_parse_at;
use crate::values::spec_parse_justify;
use crate::parts::spec_parse_parts;
use crate::composites::spec_fold_line;
use crate::composites::spec_parse_fp_poly;
use crate::elements::spec_elements_list;
use crate::elements::spec_parse_element;
use crate::elements::spec_parse_module;

verus! {

/// A placement decodes only from an `at` list with two or three children;
/// with two the rotation is 0, and with three it is exactly the third
/// child's numeric value.
pub proof fn lemma_at_rotation(s: SexpV, a: At)
    requires
        spec_parse_at(s) == Ok::<At, ErrV>(a),
    ensures
        spec_children_tagged(s, "at"@) is Ok,
        ({
            let ws = spec_children_tagged(s, "at"@)->Ok_0;
            &&& ws.len() == 2 || ws.len() == 3
            &&& ws.len() == 2 ==> a.rot == (Real { mantissa: 0, scale: 0 })
            &&& ws.len() == 3 ==> crate::sexp::spec_as_float(ws[2]) == Ok::<Real, ErrV>(a.rot)
        }),
{
}

/// An `at` list with any child count other than two or three is rejected
/// with an arity mismatch naming `at`.
pub proof fn lemma_at_arity(s: SexpV, ws: Seq<SexpV>)
    requires
        spec_children_tagged(s, "at"@) == Ok::<Seq<SexpV>, ErrV>(ws),
        ws.len() != 2,
        ws.len() != 3,
    ensures
        spec_parse_at(s) == Err::<At, ErrV>(ErrV::ArityMismatch("at"@)),
{
}

/// Decoding is deterministic: two decodes of value-equal trees yield
/// value-equal results, success or failure alike.
pub proof fn lemma_decode_deterministic(
    s1: SexpV,
    s2: SexpV,
    r1: Result<ModuleV, ErrV>,
    r2: Result<ModuleV, ErrV>,
)
    requires
        s1 == s2,
        r1 == spec_parse_module(s1),
        r2 == spec_parse_module(s2),
    ensures
        r1 == r2,
{
}

/// Mirroring is the only justification accepted: a successful decode can
/// only come from a `justify` list whose single child is the token
/// `mirror`, and can only yield the mirror value.
pub proof fn lemma_justify_only_mirror(s: SexpV, j: Justify)
    requires
        spec_parse_justify(s) == Ok::<Justify, ErrV>(j),
    ensures
        j == Justify::Mirror,
        spec_children_tagged_arity(s, "justify"@, 1) matches Ok(ws) && spec_as_string(ws[0])
            == Ok::<Seq<char>, ErrV>("mirror"@),
{
}

/// If any child of a module fails to decode as an element, the whole run of
/// children fails: no partial element list is ever produced.
pub proof fn lemma_module_all_or_nothing(ws: Seq<SexpV>, i: int, e: ErrV)
    requires
        0 <= i < ws.len(),
        spec_parse_element(ws[i]) == Err::<ElementV, ErrV>(e),
    ensures
        spec_elements_list(ws) is Err,
    decreases ws.len(),
{
    if ws.len() > 0 {
        if i == 0 {
        } else {
            if crate::elements::spec_parse_element(ws[0]) is Ok {
                assert(ws.drop_first()[i - 1] == ws[i]);
                lemma_module_all_or_nothing(ws.drop_first(), i - 1, e);
            }
        }
    }
}

/// The polygon fold is total: an `fp_poly` node decodes successfully
/// exactly when its children decode as parts, whatever those parts are.
pub proof fn lemma_poly_accepts_any_parts(s: SexpV)
    ensures
        spec_parse_fp_poly(s) is Ok <==> (spec_children_tagged(s, "fp_poly"@) matches Ok(ws)
            && spec_parse_parts(ws) is Ok),
{
}

/// The parts a line fold handles: start and end coordinates, a layer and
/// a width.
pub open spec fn line_part_handled(p: PartV) -> bool {
    match p {
        PartV::Xy(xy) => xy.t == crate::data::XyType::Start || xy.t == crate::data::XyType::End,
        PartV::Layer(_) => true,
        PartV::Width(_) => true,
        _ => false,
    }
}

/// The line fold is strict: one part it does not handle, anywhere in the
/// run, fails the fold — the same parts a polygon would ignore.
pub proof fn lemma_line_rejects_unhandled(ps: Seq<PartV>, acc: FpLine, i: int)
    requires
        0 <= i < ps.len(),
        !line_part_handled(ps[i]),
    ensures
        spec_fold_line(ps, acc) is Err,
    decreases ps.len(),
{
    if ps.len() > 0 {
        if i == 0 {
        } else {
            match crate::composites::spec_line_step(acc, ps[0]) {
                Ok(acc2) => {
                    assert(ps.drop_first()[i - 1] == ps[i]);
                    lemma_line_rejects_unhandled(ps.drop_first(), acc2, i - 1);
                },
                Err(_) => {},
            }
        }
    }
}

} // verus!
