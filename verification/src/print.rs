use vstd::prelude::*;
use crate::loc::Loc;
use crate::token::{Token, TokM, Delim, toks_m, clone_tokens, lemma_toks_m_push, append_toks};
use crate::ast::{TypeExpr, TypePath, PathSegment, GenericArg, SegM, ArgM, TypeM, PathM, segs_m, args_m,
    tys_m, lemma_segs_m, lemma_args_m, lemma_tys_m};

verus! {

/// The location handle printing stamps on tokens it invents (punctuation
/// and delimiters, for which the tree stores no location).
pub open spec fn loc0() -> Loc {
    Loc { id: 0u32 }
}

/// A punctuation token at the invented location.
pub open spec fn pu(c: char) -> TokM {
    TokM::Punct { ch: c, span: loc0() }
}

/// The printed form of a path segment list, starting at `i`, segments
/// joined by `::`.
pub open spec fn print_segs_from(ss: Seq<SegM>, i: int) -> Seq<TokM>
    decreases ss, ss.len() - i,
{
    if i < 0 || i >= ss.len() {
        Seq::empty()
    } else if i == ss.len() - 1 {
        print_seg(ss[i])
    } else {
        print_seg(ss[i]) + seq![pu(':'), pu(':')] + print_segs_from(ss, i + 1)
    }
}

/// The printed form of one path segment.
pub open spec fn print_seg(s: SegM) -> Seq<TokM>
    decreases s, 0int,
{
    seq![TokM::Ident { text: s.name, span: s.span }] + match s.args {
        Option::Some(aa) => seq![pu('<')] + print_args_from(aa, 0) + seq![pu('>')],
        Option::None => Seq::empty(),
    }
}

/// The printed form of a generic argument list, starting at `i`, arguments
/// joined by commas.
pub open spec fn print_args_from(aa: Seq<ArgM>, i: int) -> Seq<TokM>
    decreases aa, aa.len() - i,
{
    if i < 0 || i >= aa.len() {
        Seq::empty()
    } else if i == aa.len() - 1 {
        print_arg(aa[i])
    } else {
        print_arg(aa[i]) + seq![pu(',')] + print_args_from(aa, i + 1)
    }
}

/// The printed form of one generic argument.
pub open spec fn print_arg(a: ArgM) -> Seq<TokM>
    decreases a, 0int,
{
    match a {
        ArgM::TypeArg { ty } => print_ty(ty),
        ArgM::LifetimeArg { lifetime } => seq![
            pu('\''),
            TokM::Ident { text: lifetime.name, span: lifetime.span },
        ],
        ArgM::ConstArg { text, span } => seq![TokM::Literal { text, span }],
    }
}

/// The printed form of a path.
pub open spec fn print_path(p: PathM) -> Seq<TokM>
    decreases p, 0int,
{
    (if p.absolute {
        seq![pu(':'), pu(':')]
    } else {
        Seq::empty()
    }) + print_segs_from(p.segments, 0)
}

/// The printed form of a tuple element list, starting at `i`, elements
/// joined by commas, without a trailing comma.
pub open spec fn print_elems_from(tt: Seq<TypeM>, i: int) -> Seq<TokM>
    decreases tt, tt.len() - i,
{
    if i < 0 || i >= tt.len() {
        Seq::empty()
    } else if i == tt.len() - 1 {
        print_ty(tt[i])
    } else {
        print_ty(tt[i]) + seq![pu(',')] + print_elems_from(tt, i + 1)
    }
}

/// The printed form of a type expression: the token sequence the tree
/// stands for. Identifiers, lifetimes and literals keep their stored
/// locations; invented punctuation carries `loc0`. A one-element tuple
/// prints with a trailing comma, which keeps it distinct from a
/// parenthesized group.
pub open spec fn print_ty(t: TypeM) -> Seq<TokM>
    decreases t, 1int,
{
    match t {
        TypeM::Named { path } => print_path(path),
        TypeM::Reference { lifetime, mutable, inner } => seq![pu('&')] + (match lifetime {
            Option::Some(l) => seq![pu('\''), TokM::Ident { text: l.name, span: l.span }],
            Option::None => Seq::empty(),
        }) + (if mutable {
            seq![TokM::Ident { text: "mut"@, span: loc0() }]
        } else {
            Seq::empty()
        }) + print_ty(*inner),
        TypeM::Array { elem, len_text, len_span } => seq![
            TokM::Group {
                delim: Delim::Bracket,
                inner: print_ty(*elem) + seq![pu(';'), TokM::Literal { text: len_text, span: len_span }],
                span: loc0(),
            },
        ],
        TypeM::Tuple { elems } => seq![
            TokM::Group {
                delim: Delim::Paren,
                inner: print_elems_from(elems, 0) + (if elems.len() == 1 {
                    seq![pu(',')]
                } else {
                    Seq::empty()
                }),
                span: loc0(),
            },
        ],
        TypeM::Group { inner } => seq![
            TokM::Group { delim: Delim::Paren, inner: print_ty(*inner), span: loc0() },
        ],
        TypeM::Opaque { tokens } => tokens,
    }
}

/// Printing a segment list from one position on ignores the first
/// segment once the position is past it.
pub proof fn lemma_print_segs_from_drop(ss: Seq<SegM>, i: int)
    requires
        1 <= i,
        ss.len() >= 1,
    ensures
        print_segs_from(ss, i) == print_segs_from(ss.drop_first(), i - 1),
    decreases ss.len() - i,
{
    assert(ss.drop_first().len() == ss.len() - 1);
    if i < ss.len() {
        assert(ss.drop_first()[i - 1] == ss[i]);
        if i < ss.len() - 1 {
            lemma_print_segs_from_drop(ss, i + 1);
        }
    }
}

/// Printing an argument list from one position on ignores the first
/// argument once the position is past it.
pub proof fn lemma_print_args_from_drop(aa: Seq<ArgM>, i: int)
    requires
        1 <= i,
        aa.len() >= 1,
    ensures
        print_args_from(aa, i) == print_args_from(aa.drop_first(), i - 1),
    decreases aa.len() - i,
{
    assert(aa.drop_first().len() == aa.len() - 1);
    if i < aa.len() {
        assert(aa.drop_first()[i - 1] == aa[i]);
        if i < aa.len() - 1 {
            lemma_print_args_from_drop(aa, i + 1);
        }
    }
}

/// Printing an element list from one position on ignores the first
/// element once the position is past it.
pub proof fn lemma_print_elems_from_drop(tt: Seq<TypeM>, i: int)
    requires
        1 <= i,
        tt.len() >= 1,
    ensures
        print_elems_from(tt, i) == print_elems_from(tt.drop_first(), i - 1),
    decreases tt.len() - i,
{
    assert(tt.drop_first().len() == tt.len() - 1);
    if i < tt.len() {
        assert(tt.drop_first()[i - 1] == tt[i]);
        if i < tt.len() - 1 {
            lemma_print_elems_from_drop(tt, i + 1);
        }
    }
}

fn push_punct(out: &mut Vec<Token>, c: char)
    ensures
        toks_m(final(out)@) == toks_m(old(out)@) + seq![pu(c)],
{
    let ghost s0 = out@;
    let tok = Token::Punct { ch: c, span: Loc::none() };
    let ghost tm = tok;
    out.push(tok);
    proof {
        lemma_toks_m_push(s0, tm);
    }
}

fn push_ident(out: &mut Vec<Token>, text: String, span: Loc)
    ensures
        toks_m(final(out)@) == toks_m(old(out)@) + seq![TokM::Ident { text: text@, span }],
{
    let ghost s0 = out@;
    let tok = Token::Ident { text, span };
    let ghost tm = tok;
    out.push(tok);
    proof {
        lemma_toks_m_push(s0, tm);
    }
}

fn push_literal(out: &mut Vec<Token>, text: String, span: Loc)
    ensures
        toks_m(final(out)@) == toks_m(old(out)@) + seq![TokM::Literal { text: text@, span }],
{
    let ghost s0 = out@;
    let tok = Token::Literal { text, span };
    let ghost tm = tok;
    out.push(tok);
    proof {
        lemma_toks_m_push(s0, tm);
    }
}

fn push_group(out: &mut Vec<Token>, delim: Delim, inner: Vec<Token>, span: Loc)
    ensures
        toks_m(final(out)@) == toks_m(old(out)@) + seq![
            TokM::Group { delim, inner: toks_m(inner@), span },
        ],
{
    let ghost s0 = out@;
    let tok = Token::Group { delim, inner, span };
    let ghost tm = tok;
    out.push(tok);
    proof {
        lemma_toks_m_push(s0, tm);
    }
}

/// Prints a type expression back to the token sequence it stands for.
pub fn print_type_tokens(t: &TypeExpr) -> (r: Vec<Token>)
    ensures
        toks_m(r@) == print_ty(t.m()),
    decreases t, 1int,
{
    match t {
        TypeExpr::Named { path } => print_path_tokens(path),
        TypeExpr::Reference { lifetime, mutable, inner } => {
            let mut out: Vec<Token> = Vec::new();
            push_punct(&mut out, '&');
            match lifetime {
                Option::Some(l) => {
                    push_punct(&mut out, '\'');
                    push_ident(&mut out, l.name.clone(), l.span);
                },
                Option::None => {},
            }
            if *mutable {
                push_ident(&mut out, "mut".to_owned(), Loc::none());
            }
            let inner_toks = print_type_tokens(inner);
            append_toks(&mut out, inner_toks);
            proof {
                assert(toks_m(out@) =~~= print_ty(t.m()));
            }
            out
        },
        TypeExpr::Array { elem, len_text, len_span } => {
            let mut inner = print_type_tokens(elem);
            push_punct(&mut inner, ';');
            push_literal(&mut inner, len_text.clone(), *len_span);
            let ghost im = toks_m(inner@);
            proof {
                assert(im =~~= print_ty((**elem).m()) + seq![
                    pu(';'),
                    TokM::Literal { text: len_text@, span: *len_span },
                ]);
            }
            let mut out: Vec<Token> = Vec::new();
            push_group(&mut out, Delim::Bracket, inner, Loc::none());
            proof {
                assert(toks_m(out@) =~~= seq![
                    TokM::Group { delim: Delim::Bracket, inner: im, span: loc0() },
                ]);
                assert(print_ty(t.m()) == seq![
                    TokM::Group {
                        delim: Delim::Bracket,
                        inner: print_ty((**elem).m()) + seq![
                            pu(';'),
                            TokM::Literal { text: len_text@, span: *len_span },
                        ],
                        span: loc0(),
                    },
                ]);
                assert(toks_m(out@) =~~= print_ty(t.m()));
            }
            out
        },
        TypeExpr::Tuple { elems } => {
            let mut inner = print_elems_from_tokens(elems, 0);
            if elems.len() == 1 {
                push_punct(&mut inner, ',');
            }
            let mut out: Vec<Token> = Vec::new();
            push_group(&mut out, Delim::Paren, inner, Loc::none());
            proof {
                lemma_tys_m(elems@);
                assert(toks_m(out@) =~~= print_ty(t.m()));
            }
            out
        },
        TypeExpr::Group { inner } => {
            let inner_toks = print_type_tokens(inner);
            let mut out: Vec<Token> = Vec::new();
            push_group(&mut out, Delim::Paren, inner_toks, Loc::none());
            proof {
                assert(toks_m(out@) =~~= print_ty(t.m()));
            }
            out
        },
        TypeExpr::Opaque { tokens } => clone_tokens(tokens),
    }
}

/// Prints a path to tokens.
pub fn print_path_tokens(p: &TypePath) -> (r: Vec<Token>)
    ensures
        toks_m(r@) == print_path(p.m()),
    decreases p, 0int,
{
    let mut out: Vec<Token> = Vec::new();
    if p.absolute {
        push_punct(&mut out, ':');
        push_punct(&mut out, ':');
    }
    let segs = print_segs_from_tokens(&p.segments, 0);
    append_toks(&mut out, segs);
    proof {
        assert(toks_m(out@) =~~= print_path(p.m()));
    }
    out
}

fn print_segs_from_tokens(ss: &Vec<PathSegment>, i: usize) -> (r: Vec<Token>)
    requires
        i <= ss@.len(),
    ensures
        toks_m(r@) == print_segs_from(segs_m(ss@), i as int),
    decreases ss, ss@.len() - i,
{
    proof {
        lemma_segs_m(ss@);
    }
    let mut out: Vec<Token> = Vec::new();
    if i < ss.len() {
        let seg_toks = print_seg_tokens(&ss[i]);
        append_toks(&mut out, seg_toks);
        if i + 1 < ss.len() {
            push_punct(&mut out, ':');
            push_punct(&mut out, ':');
            let rest = print_segs_from_tokens(ss, i + 1);
            append_toks(&mut out, rest);
        }
    }
    proof {
        assert(toks_m(out@) =~~= print_segs_from(segs_m(ss@), i as int));
    }
    out
}

fn print_seg_tokens(s: &PathSegment) -> (r: Vec<Token>)
    ensures
        toks_m(r@) == print_seg(s.m()),
    decreases s, 0int,
{
    let mut out: Vec<Token> = Vec::new();
    push_ident(&mut out, s.name.clone(), s.span);
    match &s.args {
        Option::Some(v) => {
            push_punct(&mut out, '<');
            let args_toks = print_args_from_tokens(v, 0);
            append_toks(&mut out, args_toks);
            push_punct(&mut out, '>');
        },
        Option::None => {},
    }
    proof {
        assert(toks_m(out@) =~~= print_seg(s.m()));
    }
    out
}

fn print_args_from_tokens(aa: &Vec<GenericArg>, i: usize) -> (r: Vec<Token>)
    requires
        i <= aa@.len(),
    ensures
        toks_m(r@) == print_args_from(args_m(aa@), i as int),
    decreases aa, aa@.len() - i,
{
    proof {
        lemma_args_m(aa@);
    }
    let mut out: Vec<Token> = Vec::new();
    if i < aa.len() {
        let arg_toks = print_arg_tokens(&aa[i]);
        append_toks(&mut out, arg_toks);
        if i + 1 < aa.len() {
            push_punct(&mut out, ',');
            let rest = print_args_from_tokens(aa, i + 1);
            append_toks(&mut out, rest);
        }
    }
    proof {
        assert(toks_m(out@) =~~= print_args_from(args_m(aa@), i as int));
    }
    out
}

fn print_arg_tokens(a: &GenericArg) -> (r: Vec<Token>)
    ensures
        toks_m(r@) == print_arg(a.m()),
    decreases a, 0int,
{
    match a {
        GenericArg::TypeArg { ty } => print_type_tokens(ty),
        GenericArg::LifetimeArg { lifetime } => {
            let mut out: Vec<Token> = Vec::new();
            push_punct(&mut out, '\'');
            push_ident(&mut out, lifetime.name.clone(), lifetime.span);
            proof {
                assert(toks_m(out@) =~~= print_arg(a.m()));
            }
            out
        },
        GenericArg::ConstArg { text, span } => {
            let mut out: Vec<Token> = Vec::new();
            push_literal(&mut out, text.clone(), *span);
            proof {
                assert(toks_m(out@) =~~= print_arg(a.m()));
            }
            out
        },
    }
}

fn print_elems_from_tokens(tt: &Vec<TypeExpr>, i: usize) -> (r: Vec<Token>)
    requires
        i <= tt@.len(),
    ensures
        toks_m(r@) == print_elems_from(tys_m(tt@), i as int),
    decreases tt, tt@.len() - i,
{
    proof {
        lemma_tys_m(tt@);
    }
    let mut out: Vec<Token> = Vec::new();
    if i < tt.len() {
        let elem_toks = print_type_tokens(&tt[i]);
        append_toks(&mut out, elem_toks);
        if i + 1 < tt.len() {
            push_punct(&mut out, ',');
            let rest = print_elems_from_tokens(tt, i + 1);
            append_toks(&mut out, rest);
        }
    }
    proof {
        assert(toks_m(out@) =~~= print_elems_from(tys_m(tt@), i as int));
    }
    out
}

} // verus!
