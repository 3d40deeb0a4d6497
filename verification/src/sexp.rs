//! The generic symbolic-expression tree that decoders consume, and the leaf
//! and shape coercions every decoder is built from.
//!
//! A node is an atom holding one token, a list of child nodes, or empty.
//! The textual reader that produces these trees lives outside this crate;
//! decoders only walk the finished tree.

use vstd::prelude::*;
use vstd::slice::slice_subrange;
use vstd::string::StrSliceExecFns;
use vstd::string::StringExecFns;
use crate::err::DecodeError;
use crate::err::ErrV;
use crate::err::res_view;
use crate::num::Real;
use crate::num::spec_parse_int;
use crate::num::spec_parse_real;
use crate::num::parse_int;
use crate::num::parse_real;

verus! {

/// One node of a symbolic-expression tree.
#[derive(Debug)]
pub enum Sexp {
    /// A single token; numbers and strings alike arrive as their text.
    Atom(String),
    /// An ordered list of child nodes.
    List(Vec<Sexp>),
    /// An empty node.
    Empty,
}

/// Mathematical value of a tree node: tokens become character sequences,
/// lists become sequences of child values.
pub enum SexpV {
    Atom(Seq<char>),
    List(Seq<SexpV>),
    Empty,
}

/// Mathematical value of a node, defined structurally over the tree.
pub open spec fn sexp_view(s: Sexp) -> SexpV
    decreases s,
    via sexp_view_decreases
{
    match s {
        Sexp::Atom(t) => SexpV::Atom(t@),
        Sexp::List(cs) => SexpV::List(sexp_views(cs@)),
        Sexp::Empty => SexpV::Empty,
    }
}

/// Values of a sequence of nodes, element by element.
pub open spec fn sexp_views(cs: Seq<Sexp>) -> Seq<SexpV>
    decreases cs,
{
    if cs.len() == 0 {
        Seq::empty()
    } else {
        sexp_views(cs.drop_last()).push(sexp_view(cs.last()))
    }
}

#[via_fn]
proof fn sexp_view_decreases(s: Sexp) {
    match s {
        Sexp::List(cs) => {
            assert(decreases_to!(s => cs));
            assert(decreases_to!(cs => cs@));
        },
        _ => {},
    }
}

impl View for Sexp {
    type V = SexpV;

    open spec fn view(&self) -> SexpV {
        sexp_view(*self)
    }
}

/// `sexp_views` maps the node values one to one.
pub proof fn lemma_sexp_views(cs: Seq<Sexp>)
    ensures
        sexp_views(cs).len() == cs.len(),
        forall|i: int| 0 <= i < cs.len() ==> sexp_views(cs)[i] == sexp_view(#[trigger] cs[i]),
    decreases cs,
{
    if cs.len() > 0 {
        lemma_sexp_views(cs.drop_last());
        assert(forall|i: int| 0 <= i < cs.len() - 1 ==> cs.drop_last()[i] == cs[i]);
    }
}

/// Whether two pieces of text are the same characters.
pub fn str_eq(a: &str, b: &str) -> (r: bool)
    ensures
        r == (a@ == b@),
{
    let n = a.unicode_len();
    if n != b.unicode_len() {
        return false;
    }
    let mut i: usize = 0;
    while i < n
        invariant
            i <= n,
            n == a@.len() == b@.len(),
            forall|k: int| 0 <= k < i ==> a@[k] == b@[k],
        decreases n - i,
    {
        if a.get_char(i) != b.get_char(i) {
            return false;
        }
        i = i + 1;
    }
    proof {
        assert(a@ =~= b@);
    }
    true
}

/// The token of an atom node; other shapes are type mismatches.
pub open spec fn spec_as_string(s: SexpV) -> Result<Seq<char>, ErrV> {
    match s {
        SexpV::Atom(t) => Ok(t),
        SexpV::List(_) => Err(ErrV::TypeMismatch("list"@)),
        SexpV::Empty => Err(ErrV::TypeMismatch("empty"@)),
    }
}

/// The decimal held by an atom node; other shapes or tokens are type
/// mismatches naming the offender.
pub open spec fn spec_as_float(s: SexpV) -> Result<Real, ErrV> {
    match s {
        SexpV::Atom(t) => match spec_parse_real(t) {
            Some(r) => Ok(r),
            None => Err(ErrV::TypeMismatch(t)),
        },
        SexpV::List(_) => Err(ErrV::TypeMismatch("list"@)),
        SexpV::Empty => Err(ErrV::TypeMismatch("empty"@)),
    }
}

/// The integer held by an atom node; other shapes or tokens are type
/// mismatches naming the offender.
pub open spec fn spec_as_int(s: SexpV) -> Result<i64, ErrV> {
    match s {
        SexpV::Atom(t) => match spec_parse_int(t) {
            Some(v) => Ok(v),
            None => Err(ErrV::TypeMismatch(t)),
        },
        SexpV::List(_) => Err(ErrV::TypeMismatch("list"@)),
        SexpV::Empty => Err(ErrV::TypeMismatch("empty"@)),
    }
}

/// Projects an atom node to its token.
pub fn as_string(s: &Sexp) -> (r: Result<&String, DecodeError>)
    ensures
        res_view(r) == spec_as_string(s@),
{
    match s {
        Sexp::Atom(t) => Ok(t),
        Sexp::List(_) => Err(DecodeError::TypeMismatch(String::from_str("list"))),
        Sexp::Empty => Err(DecodeError::TypeMismatch(String::from_str("empty"))),
    }
}

/// Projects an atom node to the decimal it spells.
pub fn as_float(s: &Sexp) -> (r: Result<Real, DecodeError>)
    ensures
        res_view(r) == spec_as_float(s@),
{
    match s {
        Sexp::Atom(t) => match parse_real(t.as_str()) {
            Some(r) => Ok(r),
            None => Err(DecodeError::TypeMismatch(t.clone())),
        },
        Sexp::List(_) => Err(DecodeError::TypeMismatch(String::from_str("list"))),
        Sexp::Empty => Err(DecodeError::TypeMismatch(String::from_str("empty"))),
    }
}

/// Projects an atom node to the integer it spells.
pub fn as_int(s: &Sexp) -> (r: Result<i64, DecodeError>)
    ensures
        res_view(r) == spec_as_int(s@),
{
    match s {
        Sexp::Atom(t) => match parse_int(t.as_str()) {
            Some(v) => Ok(v),
            None => Err(DecodeError::TypeMismatch(t.clone())),
        },
        Sexp::List(_) => Err(DecodeError::TypeMismatch(String::from_str("list"))),
        Sexp::Empty => Err(DecodeError::TypeMismatch(String::from_str("empty"))),
    }
}

/// The non-tag children of a list headed by `tag`; every other shape is a
/// tag mismatch naming the expected tag.
pub open spec fn spec_children_tagged(s: SexpV, tag: Seq<char>) -> Result<Seq<SexpV>, ErrV> {
    match s {
        SexpV::List(cs) => {
            if cs.len() >= 1 && cs[0] == SexpV::Atom(tag) {
                Ok(cs.skip(1))
            } else {
                Err(ErrV::TagMismatch(tag))
            }
        },
        _ => Err(ErrV::TagMismatch(tag)),
    }
}

/// As `spec_children_tagged`, but also demanding exactly `n` children.
pub open spec fn spec_children_tagged_arity(s: SexpV, tag: Seq<char>, n: int) -> Result<
    Seq<SexpV>,
    ErrV,
> {
    match spec_children_tagged(s, tag) {
        Ok(ws) => {
            if ws.len() == n {
                Ok(ws)
            } else {
                Err(ErrV::ArityMismatch(tag))
            }
        },
        Err(e) => Err(e),
    }
}

/// Checks that `s` is a list headed by `tag` and hands back the children
/// after the tag.
pub fn expect_tagged<'a>(s: &'a Sexp, tag: &str) -> (r: Result<&'a [Sexp], DecodeError>)
    ensures
        match r {
            Ok(v) => spec_children_tagged(s@, tag@) == Ok::<Seq<SexpV>, ErrV>(sexp_views(v@)),
            Err(e) => spec_children_tagged(s@, tag@) == Err::<Seq<SexpV>, ErrV>(e@),
        },
{
    match s {
        Sexp::List(cs) => {
            proof {
                lemma_sexp_views(cs@);
            }
            if cs.len() >= 1 {
                let head_is_tag: bool = match &cs[0] {
                    Sexp::Atom(t) => str_eq(t.as_str(), tag),
                    _ => false,
                };
                if head_is_tag {
                    let v = slice_subrange(cs.as_slice(), 1, cs.len());
                    proof {
                        lemma_sexp_views(v@);
                        assert forall|i: int| 0 <= i < v@.len() implies sexp_views(v@)[i]
                            == sexp_views(cs@).skip(1)[i] by {
                            assert(v@[i] == cs@[i + 1]);
                            assert(sexp_views(v@)[i] == sexp_view(v@[i]));
                            assert(sexp_views(cs@)[i + 1] == sexp_view(cs@[i + 1]));
                        }
                        assert(sexp_views(v@) =~= sexp_views(cs@).skip(1));
                    }
                    Ok(v)
                } else {
                    Err(DecodeError::TagMismatch(String::from_str(tag)))
                }
            } else {
                Err(DecodeError::TagMismatch(String::from_str(tag)))
            }
        },
        _ => Err(DecodeError::TagMismatch(String::from_str(tag))),
    }
}

/// Checks that `s` is a list headed by `tag` with exactly `n` children
/// after the tag, and hands those children back.
pub fn expect_tagged_arity<'a>(s: &'a Sexp, tag: &str, n: usize) -> (r: Result<
    &'a [Sexp],
    DecodeError,
>)
    ensures
        match r {
            Ok(v) => spec_children_tagged_arity(s@, tag@, n as int) == Ok::<Seq<SexpV>, ErrV>(
                sexp_views(v@),
            ),
            Err(e) => spec_children_tagged_arity(s@, tag@, n as int) == Err::<Seq<SexpV>, ErrV>(
                e@,
            ),
        },
{
    match expect_tagged(s, tag) {
        Ok(v) => {
            proof {
                lemma_sexp_views(v@);
            }
            if v.len() == n {
                Ok(v)
            } else {
                Err(DecodeError::ArityMismatch(String::from_str(tag)))
            }
        },
        Err(e) => Err(e),
    }
}

} // verus!
