use vstd::prelude::*;
use crate::loc::Loc;
use crate::token::{Token, TokM, toks_m, lemma_toks_m, toks_match, lemma_toks_match_refl, str_is};
use crate::ast::{TypeExpr, TypePath, PathSegment, GenericArg, Lifetime, LifetimeM, clone_type,
    args_m, segs_m, tys_m, lemma_args_m, lemma_segs_m, lemma_tys_m};
use crate::errors::RewriteFailure;
use crate::print::{print_ty, print_path, print_seg, print_arg, print_segs_from, print_args_from,
    print_elems_from, print_type_tokens, lemma_print_segs_from_drop, lemma_print_args_from_drop,
    lemma_print_elems_from_drop};
use crate::subst::{subst_toks, toks_has_self, repl_is_placeholder, substitute,
    lemma_subst_id_toks, lemma_subst_self_toks, lemma_subst_toks_add, lemma_subst_single,
    lemma_subst_ident_tok, repl_is_single_ident, renamed_text, replacement_is_single_ident,
    placeholder};
use crate::parse::parse_type_all;

verus! {

fn subst_name(name: &String, repl: &Vec<Token>) -> (r: String)
    requires
        repl_is_single_ident(toks_m(repl@)),
    ensures
        r@ == renamed_text(name@, toks_m(repl@)),
{
    proof {
        lemma_toks_m(repl@);
        assert(toks_m(repl@)[0] == repl@[0].m());
    }
    if str_is(name, "Self") {
        match &repl[0] {
            Token::Ident { text, .. } => text.clone(),
            _ => {
                proof {
                    assert(false);
                }
                name.clone()
            },
        }
    } else {
        name.clone()
    }
}

fn subst_ident_lifetime(l: &Lifetime, repl: &Vec<Token>) -> (r: Lifetime)
    requires
        repl_is_single_ident(toks_m(repl@)),
    ensures
        r.m() == (LifetimeM { name: renamed_text(l.name@, toks_m(repl@)), span: l.span }),
{
    Lifetime { name: subst_name(&l.name, repl), span: l.span }
}

fn subst_ident_arg(a: &GenericArg, repl: &Vec<Token>) -> (r: GenericArg)
    requires
        repl_is_single_ident(toks_m(repl@)),
    ensures
        print_arg(r.m()) == subst_toks(print_arg(a.m()), toks_m(repl@)),
    decreases a, 0int,
{
    let ghost rm = toks_m(repl@);
    match a {
        GenericArg::TypeArg { ty } => GenericArg::TypeArg { ty: subst_ident_type(ty, repl) },
        GenericArg::LifetimeArg { lifetime } => {
            let r = GenericArg::LifetimeArg { lifetime: subst_ident_lifetime(lifetime, repl) };
            proof {
                let tick = TokM::Punct { ch: '\'', span: crate::print::loc0() };
                let id = TokM::Ident { text: lifetime.m().name, span: lifetime.m().span };
                assert(seq![tick, id] =~= seq![tick] + seq![id]);
                lemma_subst_toks_add(seq![tick], seq![id], rm);
                lemma_subst_single(tick, rm);
                lemma_subst_single(id, rm);
                lemma_subst_ident_tok(lifetime.m().name, lifetime.m().span, rm);
                assert(print_arg(r.m()) =~= subst_toks(print_arg(a.m()), rm));
            }
            r
        },
        GenericArg::ConstArg { text, span } => {
            let r = GenericArg::ConstArg { text: text.clone(), span: *span };
            proof {
                lemma_subst_single((TokM::Literal { text: text@, span: *span }), rm);
                assert(print_arg(r.m()) =~= subst_toks(print_arg(a.m()), rm));
            }
            r
        },
    }
}

fn subst_ident_args_from(aa: &Vec<GenericArg>, i: usize, repl: &Vec<Token>) -> (r: Vec<GenericArg>)
    requires
        i <= aa@.len(),
        repl_is_single_ident(toks_m(repl@)),
    ensures
        r@.len() == aa@.len() - i,
        print_args_from(args_m(r@), 0) == subst_toks(
            print_args_from(args_m(aa@), i as int),
            toks_m(repl@),
        ),
    decreases aa, aa@.len() - i,
{
    let ghost rm = toks_m(repl@);
    proof {
        lemma_args_m(aa@);
    }
    if i < aa.len() {
        let first = subst_ident_arg(&aa[i], repl);
        let ghost first_m = first.m();
        let mut rest = subst_ident_args_from(aa, i + 1, repl);
        let ghost rest_s = rest@;
        rest.insert(0, first);
        proof {
            assert(rest@ =~= seq![first] + rest_s);
            lemma_args_m(rest@);
            lemma_args_m(rest_s);
            assert(args_m(rest@)[0] == first_m);
            assert forall|k: int| 0 <= k < rest_s.len() implies args_m(rest@).drop_first()[k]
                == args_m(rest_s)[k] by {
                assert(rest@[k + 1] == rest_s[k]);
                assert(args_m(rest@)[k + 1] == rest@[k + 1].m());
                assert(args_m(rest_s)[k] == rest_s[k].m());
            }
            assert(args_m(rest@).drop_first() =~= args_m(rest_s));
            if i + 1 == aa@.len() {
                // last argument: both sides are the printed single argument
                assert(print_args_from(args_m(rest@), 0) == print_arg(first_m));
                assert(print_args_from(args_m(aa@), i as int) == print_arg(aa@[i as int].m()));
            } else {
                lemma_print_args_from_drop(args_m(rest@), 1);
                assert(print_args_from(args_m(rest@), 0) == print_arg(first_m) + seq![
                    crate::print::pu(','),
                ] + print_args_from(args_m(rest_s), 0));
                let x = print_arg(aa@[i as int].m());
                let y = seq![crate::print::pu(',')];
                let z = print_args_from(args_m(aa@), i + 1);
                assert(print_args_from(args_m(aa@), i as int) == x + y + z);
                lemma_subst_toks_add(x + y, z, rm);
                lemma_subst_toks_add(x, y, rm);
                lemma_subst_single(crate::print::pu(','), rm);
                assert(print_args_from(args_m(rest@), 0) =~= subst_toks(
                    print_args_from(args_m(aa@), i as int),
                    rm,
                ));
            }
        }
        rest
    } else {
        let r: Vec<GenericArg> = Vec::new();
        proof {
            lemma_args_m(r@);
            assert(args_m(r@) =~= Seq::<crate::ast::ArgM>::empty());
            assert(print_args_from(args_m(r@), 0) =~= Seq::<TokM>::empty());
            assert(subst_toks(print_args_from(args_m(aa@), i as int), rm) =~= Seq::<
                TokM,
            >::empty());
        }
        r
    }
}

fn subst_ident_seg(s: &PathSegment, repl: &Vec<Token>) -> (r: PathSegment)
    requires
        repl_is_single_ident(toks_m(repl@)),
    ensures
        print_seg(r.m()) == subst_toks(print_seg(s.m()), toks_m(repl@)),
    decreases s, 1int,
{
    let ghost rm = toks_m(repl@);
    let name = subst_name(&s.name, repl);
    let args = match &s.args {
        Option::Some(v) => Option::Some(subst_ident_args_from(v, 0, repl)),
        Option::None => Option::None,
    };
    let r = PathSegment { name, span: s.span, args };
    proof {
        let head = TokM::Ident { text: s.name@, span: s.span };
        lemma_subst_ident_tok(s.name@, s.span, rm);
        match s.m().args {
            Option::Some(am) => {
                let lt = seq![crate::print::pu('<')];
                let gt = seq![crate::print::pu('>')];
                let p = print_args_from(am, 0);
                assert(print_seg(s.m()) == seq![head] + (lt + p + gt));
                lemma_subst_toks_add(seq![head], lt + p + gt, rm);
                lemma_subst_toks_add(lt + p, gt, rm);
                lemma_subst_toks_add(lt, p, rm);
                lemma_subst_single(crate::print::pu('<'), rm);
                lemma_subst_single(crate::print::pu('>'), rm);
                lemma_subst_single(head, rm);
                assert(print_seg(r.m()) =~= subst_toks(print_seg(s.m()), rm));
            },
            Option::None => {
                lemma_subst_single(head, rm);
                assert(print_seg(s.m()) =~= seq![head]);
                assert(print_seg(r.m()) =~= subst_toks(print_seg(s.m()), rm));
            },
        }
    }
    r
}

fn subst_ident_segs_from(ss: &Vec<PathSegment>, i: usize, repl: &Vec<Token>) -> (r: Vec<
    PathSegment,
>)
    requires
        i <= ss@.len(),
        repl_is_single_ident(toks_m(repl@)),
    ensures
        r@.len() == ss@.len() - i,
        print_segs_from(segs_m(r@), 0) == subst_toks(
            print_segs_from(segs_m(ss@), i as int),
            toks_m(repl@),
        ),
    decreases ss, ss@.len() - i,
{
    let ghost rm = toks_m(repl@);
    proof {
        lemma_segs_m(ss@);
    }
    if i < ss.len() {
        let first = subst_ident_seg(&ss[i], repl);
        let ghost first_m = first.m();
        let mut rest = subst_ident_segs_from(ss, i + 1, repl);
        let ghost rest_s = rest@;
        rest.insert(0, first);
        proof {
            assert(rest@ =~= seq![first] + rest_s);
            lemma_segs_m(rest@);
            lemma_segs_m(rest_s);
            assert(segs_m(rest@)[0] == first_m);
            assert forall|k: int| 0 <= k < rest_s.len() implies segs_m(rest@).drop_first()[k]
                == segs_m(rest_s)[k] by {
                assert(rest@[k + 1] == rest_s[k]);
                assert(segs_m(rest@)[k + 1] == rest@[k + 1].m());
                assert(segs_m(rest_s)[k] == rest_s[k].m());
            }
            assert(segs_m(rest@).drop_first() =~= segs_m(rest_s));
            if i + 1 == ss@.len() {
                assert(print_segs_from(segs_m(rest@), 0) == print_seg(first_m));
                assert(print_segs_from(segs_m(ss@), i as int) == print_seg(ss@[i as int].m()));
            } else {
                lemma_print_segs_from_drop(segs_m(rest@), 1);
                assert(print_segs_from(segs_m(rest@), 0) == print_seg(first_m) + seq![
                    crate::print::pu(':'),
                    crate::print::pu(':'),
                ] + print_segs_from(segs_m(rest_s), 0));
                let x = print_seg(ss@[i as int].m());
                let y = seq![crate::print::pu(':'), crate::print::pu(':')];
                let z = print_segs_from(segs_m(ss@), i + 1);
                assert(print_segs_from(segs_m(ss@), i as int) == x + y + z);
                lemma_subst_toks_add(x + y, z, rm);
                lemma_subst_toks_add(x, y, rm);
                assert(y =~= seq![crate::print::pu(':')] + seq![crate::print::pu(':')]);
                lemma_subst_toks_add(seq![crate::print::pu(':')], seq![crate::print::pu(':')], rm);
                lemma_subst_single(crate::print::pu(':'), rm);
                assert(print_segs_from(segs_m(rest@), 0) =~= subst_toks(
                    print_segs_from(segs_m(ss@), i as int),
                    rm,
                ));
            }
        }
        rest
    } else {
        let r: Vec<PathSegment> = Vec::new();
        proof {
            lemma_segs_m(r@);
            assert(segs_m(r@) =~= Seq::<crate::ast::SegM>::empty());
            assert(print_segs_from(segs_m(r@), 0) =~= Seq::<TokM>::empty());
            assert(subst_toks(print_segs_from(segs_m(ss@), i as int), rm) =~= Seq::<
                TokM,
            >::empty());
        }
        r
    }
}

fn subst_ident_path(p: &TypePath, repl: &Vec<Token>) -> (r: TypePath)
    requires
        repl_is_single_ident(toks_m(repl@)),
    ensures
        print_path(r.m()) == subst_toks(print_path(p.m()), toks_m(repl@)),
    decreases p, 0int,
{
    let ghost rm = toks_m(repl@);
    let segments = subst_ident_segs_from(&p.segments, 0, repl);
    let r = TypePath { absolute: p.absolute, segments };
    proof {
        let pre: Seq<TokM> = if p.absolute {
            seq![crate::print::pu(':'), crate::print::pu(':')]
        } else {
            Seq::empty()
        };
        lemma_subst_toks_add(pre, print_segs_from(segs_m(p.segments@), 0), rm);
        if p.absolute {
            assert(pre =~= seq![crate::print::pu(':')] + seq![crate::print::pu(':')]);
            lemma_subst_toks_add(seq![crate::print::pu(':')], seq![crate::print::pu(':')], rm);
            lemma_subst_single(crate::print::pu(':'), rm);
        } else {
            assert(subst_toks(pre, rm) =~= Seq::<TokM>::empty());
        }
        assert(print_path(r.m()) =~= subst_toks(print_path(p.m()), rm));
    }
    r
}

fn subst_ident_elems_from(tt: &Vec<TypeExpr>, i: usize, repl: &Vec<Token>) -> (r: Vec<TypeExpr>)
    requires
        i <= tt@.len(),
        repl_is_single_ident(toks_m(repl@)),
    ensures
        r@.len() == tt@.len() - i,
        print_elems_from(tys_m(r@), 0) == subst_toks(
            print_elems_from(tys_m(tt@), i as int),
            toks_m(repl@),
        ),
    decreases tt, tt@.len() - i,
{
    let ghost rm = toks_m(repl@);
    proof {
        lemma_tys_m(tt@);
    }
    if i < tt.len() {
        let first = subst_ident_type(&tt[i], repl);
        let ghost first_m = first.m();
        let mut rest = subst_ident_elems_from(tt, i + 1, repl);
        let ghost rest_s = rest@;
        rest.insert(0, first);
        proof {
            assert(rest@ =~= seq![first] + rest_s);
            lemma_tys_m(rest@);
            lemma_tys_m(rest_s);
            assert(tys_m(rest@)[0] == first_m);
            assert forall|k: int| 0 <= k < rest_s.len() implies tys_m(rest@).drop_first()[k]
                == tys_m(rest_s)[k] by {
                assert(rest@[k + 1] == rest_s[k]);
                assert(tys_m(rest@)[k + 1] == rest@[k + 1].m());
                assert(tys_m(rest_s)[k] == rest_s[k].m());
            }
            assert(tys_m(rest@).drop_first() =~= tys_m(rest_s));
            if i + 1 == tt@.len() {
                assert(print_elems_from(tys_m(rest@), 0) == print_ty(first_m));
                assert(print_elems_from(tys_m(tt@), i as int) == print_ty(tt@[i as int].m()));
            } else {
                lemma_print_elems_from_drop(tys_m(rest@), 1);
                assert(print_elems_from(tys_m(rest@), 0) == print_ty(first_m) + seq![
                    crate::print::pu(','),
                ] + print_elems_from(tys_m(rest_s), 0));
                let x = print_ty(tt@[i as int].m());
                let y = seq![crate::print::pu(',')];
                let z = print_elems_from(tys_m(tt@), i + 1);
                assert(print_elems_from(tys_m(tt@), i as int) == x + y + z);
                lemma_subst_toks_add(x + y, z, rm);
                lemma_subst_toks_add(x, y, rm);
                lemma_subst_single(crate::print::pu(','), rm);
                assert(print_elems_from(tys_m(rest@), 0) =~= subst_toks(
                    print_elems_from(tys_m(tt@), i as int),
                    rm,
                ));
            }
        }
        rest
    } else {
        let r: Vec<TypeExpr> = Vec::new();
        proof {
            lemma_tys_m(r@);
            assert(tys_m(r@) =~= Seq::<crate::ast::TypeM>::empty());
            assert(print_elems_from(tys_m(r@), 0) =~= Seq::<TokM>::empty());
            assert(subst_toks(print_elems_from(tys_m(tt@), i as int), rm) =~= Seq::<
                TokM,
            >::empty());
        }
        r
    }
}

/// Substitutes a one-identifier replacement structurally: every identifier
/// equal to the placeholder — a segment name, a lifetime name, a token
/// inside an opaque shape — takes the replacement's text and keeps its own
/// location. The printed form of the result is exactly the token-level
/// substitution of the printed input, so no re-parse is needed.
fn subst_ident_type(t: &TypeExpr, repl: &Vec<Token>) -> (r: TypeExpr)
    requires
        repl_is_single_ident(toks_m(repl@)),
    ensures
        print_ty(r.m()) == subst_toks(print_ty(t.m()), toks_m(repl@)),
    decreases t, 2int,
{
    let ghost rm = toks_m(repl@);
    match t {
        TypeExpr::Named { path } => {
            let r = TypeExpr::Named { path: subst_ident_path(path, repl) };
            proof {
                assert(print_ty(r.m()) =~~= subst_toks(print_ty(t.m()), rm));
            }
            r
        },
        TypeExpr::Reference { lifetime, mutable, inner } => {
            let new_lifetime = match lifetime {
                Option::Some(l) => Option::Some(subst_ident_lifetime(l, repl)),
                Option::None => Option::None,
            };
            let new_inner = subst_ident_type(inner, repl);
            let r = TypeExpr::Reference {
                lifetime: new_lifetime,
                mutable: *mutable,
                inner: Box::new(new_inner),
            };
            proof {
                let amp = seq![crate::print::pu('&')];
                let life: Seq<TokM> = match t.m()->Reference_lifetime {
                    Option::Some(l) => seq![
                        crate::print::pu('\''),
                        TokM::Ident { text: l.name, span: l.span },
                    ],
                    Option::None => Seq::empty(),
                };
                let mu: Seq<TokM> = if *mutable {
                    seq![TokM::Ident { text: "mut"@, span: crate::print::loc0() }]
                } else {
                    Seq::empty()
                };
                let body = print_ty((**inner).m());
                assert(print_ty(t.m()) == amp + life + mu + body);
                lemma_subst_toks_add(amp + life + mu, body, rm);
                lemma_subst_toks_add(amp + life, mu, rm);
                lemma_subst_toks_add(amp, life, rm);
                lemma_subst_single(crate::print::pu('&'), rm);
                match t.m()->Reference_lifetime {
                    Option::Some(l) => {
                        assert(life =~= seq![crate::print::pu('\'')] + seq![
                            TokM::Ident { text: l.name, span: l.span },
                        ]);
                        lemma_subst_toks_add(
                            seq![crate::print::pu('\'')],
                            seq![TokM::Ident { text: l.name, span: l.span }],
                            rm,
                        );
                        lemma_subst_single(crate::print::pu('\''), rm);
                        lemma_subst_single((TokM::Ident { text: l.name, span: l.span }), rm);
                        lemma_subst_ident_tok(l.name, l.span, rm);
                    },
                    Option::None => {
                        assert(subst_toks(life, rm) =~= Seq::<TokM>::empty());
                    },
                }
                if *mutable {
                    reveal_strlit("mut");
                    reveal_strlit("Self");
                    assert("mut"@.len() == 3 && placeholder().len() == 4);
                    lemma_subst_single(
                        (TokM::Ident { text: "mut"@, span: crate::print::loc0() }),
                        rm,
                    );
                } else {
                    assert(subst_toks(mu, rm) =~= Seq::<TokM>::empty());
                }
                assert(print_ty(r.m()) =~~= subst_toks(print_ty(t.m()), rm));
            }
            r
        },
        TypeExpr::Array { elem, len_text, len_span } => {
            let new_elem = subst_ident_type(elem, repl);
            let r = TypeExpr::Array {
                elem: Box::new(new_elem),
                len_text: len_text.clone(),
                len_span: *len_span,
            };
            proof {
                let semi = seq![crate::print::pu(';')];
                let lit = seq![TokM::Literal { text: len_text@, span: *len_span }];
                let body = print_ty((**elem).m());
                lemma_subst_toks_add(body, semi + lit, rm);
                lemma_subst_toks_add(semi, lit, rm);
                lemma_subst_single(crate::print::pu(';'), rm);
                lemma_subst_single((TokM::Literal { text: len_text@, span: *len_span }), rm);
                assert(body + seq![
                    crate::print::pu(';'),
                    TokM::Literal { text: len_text@, span: *len_span },
                ] =~= body + (semi + lit));
                lemma_subst_single(
                    (TokM::Group {
                        delim: crate::token::Delim::Bracket,
                        inner: body + seq![
                            crate::print::pu(';'),
                            TokM::Literal { text: len_text@, span: *len_span },
                        ],
                        span: crate::print::loc0(),
                    }),
                    rm,
                );
                assert(print_ty(t.m()) == seq![
                    TokM::Group {
                        delim: crate::token::Delim::Bracket,
                        inner: body + seq![
                            crate::print::pu(';'),
                            TokM::Literal { text: len_text@, span: *len_span },
                        ],
                        span: crate::print::loc0(),
                    },
                ]);
                assert(subst_toks(print_ty(t.m()), rm) =~~= seq![
                    TokM::Group {
                        delim: crate::token::Delim::Bracket,
                        inner: subst_toks(body, rm) + (seq![crate::print::pu(';')] + seq![
                            TokM::Literal { text: len_text@, span: *len_span },
                        ]),
                        span: crate::print::loc0(),
                    },
                ]);
                assert(print_ty(r.m()) == seq![
                    TokM::Group {
                        delim: crate::token::Delim::Bracket,
                        inner: print_ty(new_elem.m()) + seq![
                            crate::print::pu(';'),
                            TokM::Literal { text: len_text@, span: *len_span },
                        ],
                        span: crate::print::loc0(),
                    },
                ]);
                assert(subst_toks(body, rm) + seq![
                    crate::print::pu(';'),
                    TokM::Literal { text: len_text@, span: *len_span },
                ] =~= subst_toks(body, rm) + (seq![crate::print::pu(';')] + seq![
                    TokM::Literal { text: len_text@, span: *len_span },
                ]));
                assert(print_ty(r.m()) =~~= subst_toks(print_ty(t.m()), rm));
            }
            r
        },
        TypeExpr::Tuple { elems } => {
            let new_elems = subst_ident_elems_from(elems, 0, repl);
            let ghost new_elems_s = new_elems@;
            let r = TypeExpr::Tuple { elems: new_elems };
            proof {
                lemma_tys_m(elems@);
                lemma_tys_m(new_elems_s);
                let body = print_elems_from(tys_m(elems@), 0);
                let tail: Seq<TokM> = if elems@.len() == 1 {
                    seq![crate::print::pu(',')]
                } else {
                    Seq::empty()
                };
                lemma_subst_toks_add(body, tail, rm);
                if elems@.len() == 1 {
                    lemma_subst_single(crate::print::pu(','), rm);
                } else {
                    assert(subst_toks(tail, rm) =~= Seq::<TokM>::empty());
                }
                lemma_subst_single(
                    (TokM::Group {
                        delim: crate::token::Delim::Paren,
                        inner: body + tail,
                        span: crate::print::loc0(),
                    }),
                    rm,
                );
                assert(tys_m(new_elems_s).len() == tys_m(elems@).len());
                assert(print_ty(t.m()) == seq![
                    TokM::Group {
                        delim: crate::token::Delim::Paren,
                        inner: body + tail,
                        span: crate::print::loc0(),
                    },
                ]);
                assert(subst_toks(print_ty(t.m()), rm) =~~= seq![
                    TokM::Group {
                        delim: crate::token::Delim::Paren,
                        inner: subst_toks(body, rm) + subst_toks(tail, rm),
                        span: crate::print::loc0(),
                    },
                ]);
                assert(print_ty(r.m()) == seq![
                    TokM::Group {
                        delim: crate::token::Delim::Paren,
                        inner: print_elems_from(tys_m(new_elems_s), 0) + (if tys_m(
                            new_elems_s,
                        ).len() == 1 {
                            seq![crate::print::pu(',')]
                        } else {
                            Seq::<TokM>::empty()
                        }),
                        span: crate::print::loc0(),
                    },
                ]);
                assert(print_ty(r.m()) =~~= subst_toks(print_ty(t.m()), rm));
            }
            r
        },
        TypeExpr::Group { inner } => {
            let new_inner = subst_ident_type(inner, repl);
            let r = TypeExpr::Group { inner: Box::new(new_inner) };
            proof {
                lemma_subst_single(
                    (TokM::Group {
                        delim: crate::token::Delim::Paren,
                        inner: print_ty((**inner).m()),
                        span: crate::print::loc0(),
                    }),
                    rm,
                );
                assert(print_ty(r.m()) =~~= subst_toks(print_ty(t.m()), rm));
            }
            r
        },
        TypeExpr::Opaque { tokens } => {
            let r = TypeExpr::Opaque { tokens: substitute(tokens, repl) };
            proof {
                assert(print_ty(r.m()) =~~= subst_toks(print_ty(t.m()), rm));
            }
            r
        },
    }
}

fn tok_eq_one(x: &Token, y: &Token) -> (r: bool)
    ensures
        r == (x.m() == y.m()),
    decreases x,
{
    match (x, y) {
        (Token::Ident { text: ta, span: sa }, Token::Ident { text: tb, span: sb }) => *ta == *tb
            && *sa == *sb,
        (Token::Punct { ch: ca, span: sa }, Token::Punct { ch: cb, span: sb }) => *ca == *cb && *sa
            == *sb,
        (Token::Literal { text: ta, span: sa }, Token::Literal { text: tb, span: sb }) => *ta
            == *tb && *sa == *sb,
        (
            Token::Group { delim: da, inner: ia, span: sa },
            Token::Group { delim: db, inner: ib, span: sb },
        ) => *da == *db && *sa == *sb && toks_eq_vec(ia, ib),
        _ => false,
    }
}

/// True iff the two token sequences have the same model, locations
/// included.
pub fn toks_eq_vec(a: &Vec<Token>, b: &Vec<Token>) -> (r: bool)
    ensures
        r == (toks_m(a@) == toks_m(b@)),
    decreases a,
{
    proof {
        lemma_toks_m(a@);
        lemma_toks_m(b@);
    }
    if a.len() != b.len() {
        proof {
            assert(toks_m(a@).len() != toks_m(b@).len());
        }
        return false;
    }
    let mut i: usize = 0;
    while i < a.len()
        invariant
            i <= a@.len(),
            a@.len() == b@.len(),
            forall|k: int| 0 <= k < i ==> toks_m(a@)[k] == toks_m(b@)[k],
        decreases a@.len() - i,
    {
        proof {
            lemma_toks_m(a@);
            lemma_toks_m(b@);
        }
        if !tok_eq_one(&a[i], &b[i]) {
            proof {
                assert(toks_m(a@)[i as int] != toks_m(b@)[i as int]);
            }
            return false;
        }
        i = i + 1;
    }
    proof {
        assert(toks_m(a@) =~= toks_m(b@));
    }
    true
}

/// The top-level location of the first token, for anchoring a diagnostic;
/// nowhere when the sequence is empty.
pub open spec fn spec_tok_span(t: TokM) -> Loc {
    match t {
        TokM::Ident { span, .. } => span,
        TokM::Punct { span, .. } => span,
        TokM::Literal { span, .. } => span,
        TokM::Group { span, .. } => span,
    }
}

fn first_span(toks: &Vec<Token>) -> (r: Loc)
    ensures
        toks@.len() > 0 ==> r == spec_tok_span(toks_m(toks@)[0]),
        toks@.len() == 0 ==> r == (Loc { id: 0u32 }),
{
    proof {
        lemma_toks_m(toks@);
    }
    if toks.len() > 0 {
        proof {
            assert(toks_m(toks@)[0] == toks@[0].m());
        }
        match &toks[0] {
            Token::Ident { span, .. } => *span,
            Token::Punct { span, .. } => *span,
            Token::Literal { span, .. } => *span,
            Token::Group { span, .. } => *span,
        }
    } else {
        Loc::none()
    }
}

/// The location the rewriter anchors a failure at: the first rewritten
/// token's, or nowhere when there is none.
pub open spec fn spec_first_span(ts: Seq<TokM>) -> Loc {
    if ts.len() > 0 {
        spec_tok_span(ts[0])
    } else {
        Loc { id: 0u32 }
    }
}

/// Replaces every occurrence of the reserved `Self` placeholder in the
/// printed form of `typ` by `replace_with`, re-stamping each substituted
/// token with the location of the identifier it replaces, and re-parses
/// the outcome as a type expression.
///
/// Success is owed in every case but one. When substitution changes
/// nothing — the placeholder does not occur, or the replacement is the
/// placeholder itself — the result is a structural copy of the input.
/// When the replacement is a single identifier (the intended use), the
/// substitution is performed structurally and always succeeds, opaque
/// shapes included. Only a replacement of several tokens goes through a
/// re-parse of the rewritten token sequence, and a replacement that
/// breaks the closed grammar is then reported as a `RewriteFailure`
/// anchored at the first rewritten token.
pub fn sanitize_self(typ: &TypeExpr, replace_with: &Vec<Token>) -> (r: Result<
    TypeExpr,
    RewriteFailure,
>)
    ensures
        r matches Ok(out) ==> toks_match(
            print_ty(out.m()),
            subst_toks(print_ty(typ.m()), toks_m(replace_with@)),
        ),
        !toks_has_self(print_ty(typ.m())) ==> (r matches Ok(out) && out.m() == typ.m()),
        repl_is_placeholder(toks_m(replace_with@)) ==> (r matches Ok(out) && out.m() == typ.m()),
        repl_is_single_ident(toks_m(replace_with@)) ==> r is Ok,
        r matches Err(e) ==> toks_has_self(print_ty(typ.m())) && !repl_is_single_ident(
            toks_m(replace_with@),
        ) && e == (RewriteFailure {
            span: spec_first_span(subst_toks(print_ty(typ.m()), toks_m(replace_with@))),
        }),
{
    let printed = print_type_tokens(typ);
    let substituted = substitute(&printed, replace_with);
    if toks_eq_vec(&substituted, &printed) {
        let out = clone_type(typ);
        proof {
            lemma_toks_match_refl(print_ty(typ.m()));
        }
        Ok(out)
    } else {
        proof {
            if !toks_has_self(print_ty(typ.m())) {
                lemma_subst_id_toks(print_ty(typ.m()), toks_m(replace_with@));
            }
            if repl_is_placeholder(toks_m(replace_with@)) {
                lemma_subst_self_toks(print_ty(typ.m()), toks_m(replace_with@));
            }
        }
        if replacement_is_single_ident(replace_with) {
            let out = subst_ident_type(typ, replace_with);
            proof {
                lemma_toks_match_refl(print_ty(out.m()));
            }
            Ok(out)
        } else {
            match parse_type_all(&substituted) {
                Option::Some(out) => Ok(out),
                Option::None => Err(RewriteFailure { span: first_span(&substituted) }),
            }
        }
    }
}

} // verus!
