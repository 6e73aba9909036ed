//! Re-parsing of a token sequence into a type expression.
//!
//! The recursive-descent helpers in this module promise only progress and
//! bounds; what pins the result down is the final faithfulness check in
//! `parse_type_all`: a tree is returned only if printing it reproduces
//! the input tokens (locations of punctuation and delimiters aside), so
//! the public contract does not rest on the descent itself.

use vstd::prelude::*;
use crate::loc::Loc;
use crate::token::{Token, TokM, Delim, toks_m, toks_size, lemma_toks_m, lemma_tok_size_le,
    toks_match, toks_match_vec};
use crate::ast::{TypeExpr, TypePath, PathSegment, GenericArg, Lifetime};
use crate::print::{print_ty, print_type_tokens};

verus! {

/// The tokens of a group at `i` weigh strictly less than the whole
/// sequence that holds the group.
proof fn lemma_group_inner_smaller(toks: Seq<Token>, i: int, inner: Seq<Token>)
    requires
        0 <= i < toks.len(),
        toks[i].m() matches TokM::Group { inner: im, .. } && im == toks_m(inner),
    ensures
        toks_size(toks_m(inner)) < toks_size(toks_m(toks)),
{
    lemma_toks_m(toks);
    lemma_tok_size_le(toks_m(toks), i);
}

/// Parses the whole token sequence as one type expression; anything left
/// over, or any token sequence outside the closed grammar, is refusal, not
/// an error. A parse is accepted only if it is faithful: printing the
/// resulting tree reproduces the input tokens, punctuation and delimiter
/// locations aside.
pub(crate) fn parse_type_all(toks: &Vec<Token>) -> (r: Option<TypeExpr>)
    ensures
        r matches Option::Some(out) ==> toks_match(print_ty(out.m()), toks_m(toks@)),
{
    match parse_type_at(toks, 0) {
        Option::Some((ty, end)) => if end == toks.len() {
            let printed = print_type_tokens(&ty);
            if toks_match_vec(&printed, toks) {
                Option::Some(ty)
            } else {
                Option::None
            }
        } else {
            Option::None
        },
        Option::None => Option::None,
    }
}

/// Parses one type expression starting at `i`; on success yields the tree
/// and the position just past the consumed tokens.
fn parse_type_at(toks: &Vec<Token>, i: usize) -> (r: Option<(TypeExpr, usize)>)
    requires
        i <= toks@.len(),
    ensures
        r matches Option::Some(p) ==> i < p.1 <= toks@.len(),
    decreases toks_size(toks_m(toks@)), toks@.len() - i, 1int,
{
    if i >= toks.len() {
        return Option::None;
    }
    match &toks[i] {
        Token::Punct { ch, .. } => {
            if *ch == '&' {
                let mut j: usize = i + 1;
                let mut lifetime: Option<Lifetime> = Option::None;
                if toks.len() - j >= 2 {
                    let tick = match &toks[j] {
                        Token::Punct { ch: c2, .. } => *c2 == '\'',
                        _ => false,
                    };
                    if tick {
                        match &toks[j + 1] {
                            Token::Ident { text, span } => {
                                lifetime = Option::Some(
                                    Lifetime { name: text.clone(), span: *span },
                                );
                                j = j + 2;
                            },
                            _ => {
                                return Option::None;
                            },
                        }
                    }
                }
                let mut mutable = false;
                if j < toks.len() {
                    let is_mut = match &toks[j] {
                        Token::Ident { text, .. } => crate::token::str_is(text, "mut"),
                        _ => false,
                    };
                    if is_mut {
                        mutable = true;
                        j = j + 1;
                    }
                }
                match parse_type_at(toks, j) {
                    Option::Some((inner, end)) => Option::Some(
                        (
                            TypeExpr::Reference { lifetime, mutable, inner: Box::new(inner) },
                            end,
                        ),
                    ),
                    Option::None => Option::None,
                }
            } else if *ch == ':' {
                parse_path_type(toks, i)
            } else {
                Option::None
            }
        },
        Token::Ident { .. } => parse_path_type(toks, i),
        Token::Group { delim, inner, span } => {
            proof {
                lemma_group_inner_smaller(toks@, i as int, inner@);
            }
            match delim {
                Delim::Bracket => {
                    // an array: element type, a semicolon, a length literal
                    match parse_type_at(inner, 0) {
                        Option::Some((elem, k)) => {
                            if inner.len() - k == 2 {
                                let semi = match &inner[k] {
                                    Token::Punct { ch, .. } => *ch == ';',
                                    _ => false,
                                };
                                if semi {
                                    match &inner[k + 1] {
                                        Token::Literal { text, span: lspan } => Option::Some(
                                            (
                                                TypeExpr::Array {
                                                    elem: Box::new(elem),
                                                    len_text: text.clone(),
                                                    len_span: *lspan,
                                                },
                                                i + 1,
                                            ),
                                        ),
                                        _ => Option::None,
                                    }
                                } else {
                                    Option::None
                                }
                            } else {
                                Option::None
                            }
                        },
                        Option::None => Option::None,
                    }
                },
                Delim::Paren => {
                    // a tuple, or a parenthesized group around one type
                    let mut elems: Vec<TypeExpr> = Vec::new();
                    let mut k: usize = 0;
                    let mut trailing = false;
                    while k < inner.len()
                        invariant
                            k <= inner@.len(),
                            toks_size(toks_m(inner@)) < toks_size(toks_m(toks@)),
                        decreases inner@.len() - k,
                    {
                        match parse_type_at(inner, k) {
                            Option::Some((ty, k2)) => {
                                elems.push(ty);
                                k = k2;
                                trailing = false;
                            },
                            Option::None => {
                                return Option::None;
                            },
                        }
                        if k < inner.len() {
                            let comma = match &inner[k] {
                                Token::Punct { ch, .. } => *ch == ',',
                                _ => false,
                            };
                            if comma {
                                k = k + 1;
                                trailing = true;
                            } else {
                                return Option::None;
                            }
                        }
                    }
                    if elems.len() == 1 && !trailing {
                        let mut elems2 = elems;
                        match elems2.pop() {
                            Option::Some(only) => Option::Some(
                                (TypeExpr::Group { inner: Box::new(only) }, i + 1),
                            ),
                            Option::None => Option::None,
                        }
                    } else {
                        Option::Some((TypeExpr::Tuple { elems }, i + 1))
                    }
                },
                Delim::Brace => Option::None,
            }
        },
        Token::Literal { .. } => Option::None,
    }
}

/// Parses a (possibly absolute) path type starting at `i`.
fn parse_path_type(toks: &Vec<Token>, i: usize) -> (r: Option<(TypeExpr, usize)>)
    requires
        i <= toks@.len(),
    ensures
        r matches Option::Some(p) ==> i < p.1 <= toks@.len(),
    decreases toks_size(toks_m(toks@)), toks@.len() - i, 0int,
{
    let mut j: usize = i;
    let mut absolute = false;
    if toks.len() - j >= 2 {
        let c1 = match &toks[j] {
            Token::Punct { ch, .. } => *ch == ':',
            _ => false,
        };
        let c2 = match &toks[j + 1] {
            Token::Punct { ch, .. } => *ch == ':',
            _ => false,
        };
        if c1 && c2 {
            absolute = true;
            j = j + 2;
        } else if c1 {
            return Option::None;
        }
    }
    let mut segments: Vec<PathSegment> = Vec::new();
    loop
        invariant
            i <= j <= toks@.len(),
            segments@.len() >= 1 ==> i < j,
        decreases toks@.len() - j,
    {
        if j >= toks.len() {
            return Option::None;
        }
        let ghost j0 = j;
        let (name, span) = match &toks[j] {
            Token::Ident { text, span } => (text.clone(), *span),
            _ => {
                return Option::None;
            },
        };
        j = j + 1;
        let mut args: Option<Vec<GenericArg>> = Option::None;
        let lt = if j < toks.len() {
            match &toks[j] {
                Token::Punct { ch, .. } => *ch == '<',
                _ => false,
            }
        } else {
            false
        };
        if lt {
            j = j + 1;
            let mut list: Vec<GenericArg> = Vec::new();
            let closed_now = if j < toks.len() {
                match &toks[j] {
                    Token::Punct { ch, .. } => *ch == '>',
                    _ => false,
                }
            } else {
                false
            };
            if closed_now {
                j = j + 1;
            } else {
                loop
                    invariant
                        i < j <= toks@.len(),
                        j0 < j,
                    decreases toks@.len() - j,
                {
                    if j >= toks.len() {
                        return Option::None;
                    }
                    match parse_generic_arg(toks, j) {
                        Option::Some((arg, j2)) => {
                            list.push(arg);
                            j = j2;
                        },
                        Option::None => {
                            return Option::None;
                        },
                    }
                    if j >= toks.len() {
                        return Option::None;
                    }
                    let comma = match &toks[j] {
                        Token::Punct { ch, .. } => *ch == ',',
                        _ => false,
                    };
                    let close = match &toks[j] {
                        Token::Punct { ch, .. } => *ch == '>',
                        _ => false,
                    };
                    if comma {
                        j = j + 1;
                    } else if close {
                        j = j + 1;
                        break ;
                    } else {
                        return Option::None;
                    }
                }
            }
            args = Option::Some(list);
        }
        segments.push(PathSegment { name, span, args });
        // continue only across a `::` separator followed by more path
        let sep = if toks.len() - j >= 2 {
            let c1 = match &toks[j] {
                Token::Punct { ch, .. } => *ch == ':',
                _ => false,
            };
            let c2 = match &toks[j + 1] {
                Token::Punct { ch, .. } => *ch == ':',
                _ => false,
            };
            c1 && c2
        } else {
            false
        };
        if sep {
            j = j + 2;
        } else {
            break ;
        }
    }
    if segments.len() == 0 {
        Option::None
    } else {
        Option::Some((TypeExpr::Named { path: TypePath { absolute, segments } }, j))
    }
}

/// Parses one generic argument at `i`: a lifetime, a constant literal, or
/// a type.
fn parse_generic_arg(toks: &Vec<Token>, i: usize) -> (r: Option<(GenericArg, usize)>)
    requires
        i <= toks@.len(),
    ensures
        r matches Option::Some(p) ==> i < p.1 <= toks@.len(),
    decreases toks_size(toks_m(toks@)), toks@.len() - i, 2int,
{
    if i >= toks.len() {
        return Option::None;
    }
    let tick = match &toks[i] {
        Token::Punct { ch, .. } => *ch == '\'',
        _ => false,
    };
    if tick {
        if i + 1 < toks.len() {
            match &toks[i + 1] {
                Token::Ident { text, span } => Option::Some(
                    (
                        GenericArg::LifetimeArg {
                            lifetime: Lifetime { name: text.clone(), span: *span },
                        },
                        i + 2,
                    ),
                ),
                _ => Option::None,
            }
        } else {
            Option::None
        }
    } else {
        match &toks[i] {
            Token::Literal { text, span } => Option::Some(
                (GenericArg::ConstArg { text: text.clone(), span: *span }, i + 1),
            ),
            _ => match parse_type_at(toks, i) {
                Option::Some((ty, end)) => Option::Some((GenericArg::TypeArg { ty }, end)),
                Option::None => Option::None,
            },
        }
    }
}

} // verus!
