//! A model of a field's declared type, and the classifications that the
//! derivations make of it.
use vstd::prelude::*;
use crate::text::str_eq;

verus! {

/// A declared type, as far as the derivations look into it.
#[derive(Debug)]
pub enum TypeExpr {
    /// A path type such as `Option<Vec<String>>`.
    Path(TypePath),
    /// A trait object; `first_trait` is the last identifier of the path of its
    /// first trait bound, when that bound is a trait.
    TraitObject { has_dyn: bool, first_trait: Option<String> },
    /// A type in invisible delimiters.
    Group(Box<TypeExpr>),
    /// A type in parentheses.
    Paren(Box<TypeExpr>),
    /// Any other type: arrays, references, tuples, function pointers, ...
    Other,
}

/// A path type; `qself` is the self type of a qualified path `<T as Tr>::X`.
#[derive(Debug)]
pub struct TypePath {
    pub qself: Option<Box<TypeExpr>>,
    pub leading_colon: bool,
    pub segments: Vec<PathSegment>,
}

/// One segment of a path, with the arguments of its angle-bracketed list
/// (empty when it has none).
#[derive(Debug)]
pub struct PathSegment {
    pub ident: String,
    pub args: Vec<GenericArg>,
}

/// A generic argument: a type, or anything else (a lifetime, a constant, a
/// binding).
#[derive(Debug)]
pub enum GenericArg {
    Type(TypeExpr),
    Other,
}

/// The type that a path type's last segment takes as its first generic
/// argument, if it is a type.
pub open spec fn first_type_arg(p: TypePath) -> Option<TypeExpr> {
    if p.segments.len() > 0 {
        let seg = p.segments[p.segments.len() - 1];
        if seg.args.len() > 0 {
            match seg.args[0] {
                GenericArg::Type(t) => Some(t),
                GenericArg::Other => None,
            }
        } else {
            None
        }
    } else {
        None
    }
}

/// The type nested one level inside `t`: the first generic argument of an
/// unqualified path type.
pub open spec fn inner_of(t: TypeExpr) -> Option<TypeExpr> {
    match t {
        TypeExpr::Path(p) => if p.qself is None {
            first_type_arg(p)
        } else {
            None
        },
        _ => None,
    }
}

/// The type identifiers met on the way into `t` through first generic
/// arguments: `Option<OneOrMany<String>>` gives `Option`, `OneOrMany`,
/// `String`; a `dyn` trait object ends the walk with its trait's name.
pub open spec fn type_parts(t: TypeExpr) -> Seq<Seq<char>>
    decreases t,
{
    match t {
        TypeExpr::Path(p) => {
            if p.qself is None && p.segments.len() > 0 {
                let seg = p.segments[p.segments.len() - 1];
                let rest = if seg.args.len() > 0 {
                    match seg.args[0] {
                        GenericArg::Type(inner) => {
                            proof {
                                vstd::std_specs::vec::axiom_vec_index_decreases(
                                    p.segments,
                                    p.segments.len() - 1,
                                );
                                vstd::std_specs::vec::axiom_vec_index_decreases(seg.args, 0);
                            }
                            type_parts(inner)
                        },
                        GenericArg::Other => Seq::empty(),
                    }
                } else {
                    Seq::empty()
                };
                seq![seg.ident@] + rest
            } else {
                Seq::empty()
            }
        },
        TypeExpr::TraitObject { has_dyn, first_trait } => {
            if has_dyn && first_trait is Some {
                seq![first_trait->Some_0@]
            } else {
                Seq::empty()
            }
        },
        _ => Seq::empty(),
    }
}

/// The names of `t`'s nesting, from the outermost type inwards.
pub fn type_str_parts(t: &TypeExpr) -> (r: Vec<String>)
    ensures
        r@.map_values(|s: String| s@) == type_parts(*t),
    decreases t,
{
    match t {
        TypeExpr::Path(p) => {
            if p.qself.is_none() && p.segments.len() > 0 {
                let last = p.segments.len() - 1;
                let seg = &p.segments[last];
                let mut r: Vec<String> = Vec::new();
                r.push(seg.ident.clone());
                if seg.args.len() > 0 {
                    match &seg.args[0] {
                        GenericArg::Type(inner) => {
                            proof {
                                vstd::std_specs::vec::axiom_vec_index_decreases(
                                    p.segments,
                                    last as int,
                                );
                                vstd::std_specs::vec::axiom_vec_index_decreases(seg.args, 0);
                            }
                            let mut rest = type_str_parts(inner);
                            let ghost r0 = r@;
                            let ghost rest0 = rest@;
                            r.append(&mut rest);
                            assert(r@.map_values(|s: String| s@) =~= r0.map_values(
                                |s: String| s@,
                            ) + rest0.map_values(|s: String| s@));
                        },
                        GenericArg::Other => {
                            assert(r@.map_values(|s: String| s@) =~= type_parts(*t));
                        },
                    }
                } else {
                    assert(r@.map_values(|s: String| s@) =~= type_parts(*t));
                }
                r
            } else {
                let r: Vec<String> = Vec::new();
                assert(r@.map_values(|s: String| s@) =~= type_parts(*t));
                r
            }
        },
        TypeExpr::TraitObject { has_dyn, first_trait } => {
            let mut r: Vec<String> = Vec::new();
            if *has_dyn {
                if let Some(name) = first_trait {
                    r.push(name.clone());
                }
            }
            assert(r@.map_values(|s: String| s@) =~= type_parts(*t));
            r
        },
        _ => {
            let r: Vec<String> = Vec::new();
            assert(r@.map_values(|s: String| s@) =~= type_parts(*t));
            r
        },
    }
}

/// The type nested one level inside `t`, if any.
pub fn inner_type(t: &TypeExpr) -> (r: Option<&TypeExpr>)
    ensures
        match r {
            Some(i) => inner_of(*t) == Some(*i),
            None => inner_of(*t) is None,
        },
{
    match t {
        TypeExpr::Path(p) => {
            if p.qself.is_none() && p.segments.len() > 0 {
                let seg = &p.segments[p.segments.len() - 1];
                if seg.args.len() > 0 {
                    match &seg.args[0] {
                        GenericArg::Type(inner) => Some(inner),
                        GenericArg::Other => None,
                    }
                } else {
                    None
                }
            } else {
                None
            }
        },
        _ => None,
    }
}

/// How a setter treats an optional field, by the shape of the type inside
/// the option.
#[derive(Debug)]
pub enum FieldShape {
    /// `Option<String>`: the setter takes any string.
    PlainString,
    /// `Option<OneOrMany<String>>`: a setter for one string and one for many.
    OneOrManyString,
    /// `Option<Closure<..>>`: the setter takes a callback.
    CallbackClosure,
    /// Anything else: the setter takes the inner type as it is.
    Other,
}

/// The classification of a field by the names nested in its type, past the
/// outermost: the first of these patterns that matches wins.
pub open spec fn shape_of_parts(parts: Seq<Seq<char>>) -> FieldShape {
    let rest = if parts.len() > 0 {
        parts.skip(1)
    } else {
        Seq::empty()
    };
    if rest == seq!["String"@] {
        FieldShape::PlainString
    } else if rest == seq!["OneOrMany"@, "String"@] {
        FieldShape::OneOrManyString
    } else if rest.len() == 2 && rest[0] == "Closure"@ {
        FieldShape::CallbackClosure
    } else {
        FieldShape::Other
    }
}

pub open spec fn shape_of(t: TypeExpr) -> FieldShape {
    shape_of_parts(type_parts(t))
}

/// Classify a field for setter generation.
pub fn classify(t: &TypeExpr) -> (r: FieldShape)
    ensures
        r == shape_of(*t),
{
    let parts = type_str_parts(t);
    let ghost pv = parts@.map_values(|s: String| s@);
    assert(parts@.len() == pv.len());
    let n = parts.len();
    if n == 2 && str_eq(parts[1].as_str(), "String") {
        assert(pv.skip(1) =~= seq!["String"@]);
        return FieldShape::PlainString;
    }
    if n == 3 && str_eq(parts[1].as_str(), "OneOrMany") && str_eq(parts[2].as_str(), "String") {
        assert(pv.skip(1) =~= seq!["OneOrMany"@, "String"@]);
        return FieldShape::OneOrManyString;
    }
    if n == 3 && str_eq(parts[1].as_str(), "Closure") {
        proof {
            assert(pv.skip(1)[0] == pv[1]);
            assert(pv.skip(1) != seq!["String"@]);
            if pv.skip(1) == seq!["OneOrMany"@, "String"@] {
                assert(pv.skip(1)[0] == "OneOrMany"@);
                assert("OneOrMany"@ != "Closure"@) by {
                    reveal_strlit("OneOrMany");
                    reveal_strlit("Closure");
                }
            }
        }
        return FieldShape::CallbackClosure;
    }
    proof {
        let rest = if n > 0 {
            pv.skip(1)
        } else {
            Seq::empty()
        };
        assert(n >= 1 ==> rest.len() == n - 1);
        if n >= 2 {
            assert(rest[0] == pv[1]);
            assert(pv[1] == parts@[1]@);
        }
        if n >= 3 {
            assert(rest[1] == pv[2]);
            assert(pv[2] == parts@[2]@);
        }
        if rest == seq!["String"@] {
            assert(rest.len() == 1);
            assert(rest[0] == "String"@);
        }
        if rest == seq!["OneOrMany"@, "String"@] {
            assert(rest.len() == 2);
            assert(rest[0] == "OneOrMany"@ && rest[1] == "String"@);
        }
    }
    FieldShape::Other
}

/// Whether a type names `Option`: `Option`, or `std::option::Option` or
/// `core::option::Option` (with or without a leading `::`), also inside
/// parentheses, invisible groups, or as the self type of a qualified path.
pub open spec fn is_option_type(t: TypeExpr) -> bool
    decreases t,
{
    match t {
        TypeExpr::Group(e) => is_option_type(*e),
        TypeExpr::Paren(e) => is_option_type(*e),
        TypeExpr::Path(p) => match p.qself {
            Some(q) => is_option_type(*q),
            None => {
                let s = p.segments;
                (!p.leading_colon && s.len() == 1 && s[0].ident@ == "Option"@) || (s.len() == 3
                    && (s[0].ident@ == "std"@ || s[0].ident@ == "core"@) && s[1].ident@
                    == "option"@ && s[2].ident@ == "Option"@)
            },
        },
        _ => false,
    }
}

/// Whether a field's type is an `Option`.
pub fn is_option(t: &TypeExpr) -> (r: bool)
    ensures
        r == is_option_type(*t),
    decreases t,
{
    match t {
        TypeExpr::Group(e) => is_option(e),
        TypeExpr::Paren(e) => is_option(e),
        TypeExpr::Path(p) => match &p.qself {
            Some(q) => is_option(q),
            None => {
                let s = &p.segments;
                (!p.leading_colon && s.len() == 1 && str_eq(s[0].ident.as_str(), "Option")) || (
                s.len() == 3 && (str_eq(s[0].ident.as_str(), "std") || str_eq(
                    s[0].ident.as_str(),
                    "core",
                )) && str_eq(s[1].ident.as_str(), "option") && str_eq(
                    s[2].ident.as_str(),
                    "Option",
                ))
            },
        },
        _ => false,
    }
}

} // verus!
