use vstd::prelude::*;
use crate::loc::Loc;
use crate::token::{Token, TokM, toks_m, lemma_toks_m, clone_token, clone_tokens, append_toks,
    lemma_toks_m_push, str_is};

verus! {

/// The reserved placeholder identifier that stands for "the implementing
/// type itself".
pub open spec fn placeholder() -> Seq<char> {
    "Self"@
}

/// `t` with its top-level location handle replaced by `sp`.
pub open spec fn with_span(t: TokM, sp: Loc) -> TokM {
    match t {
        TokM::Ident { text, .. } => TokM::Ident { text, span: sp },
        TokM::Punct { ch, .. } => TokM::Punct { ch, span: sp },
        TokM::Literal { text, .. } => TokM::Literal { text, span: sp },
        TokM::Group { delim, inner, .. } => TokM::Group { delim, inner, span: sp },
    }
}

/// The replacement sequence, re-stamped with the location of the
/// identifier it replaces. Only top-level handles are re-stamped; tokens
/// inside a replacement group keep theirs.
pub open spec fn respan(repl: Seq<TokM>, sp: Loc) -> Seq<TokM> {
    Seq::new(repl.len(), |i: int| with_span(repl[i], sp))
}

/// What one token substitutes to: a placeholder identifier becomes the
/// re-stamped replacement, a group is rewritten throughout, anything else
/// passes through unchanged.
pub open spec fn subst_tok(t: TokM, repl: Seq<TokM>) -> Seq<TokM>
    decreases t,
{
    match t {
        TokM::Ident { text, span } => if text == placeholder() {
            respan(repl, span)
        } else {
            seq![t]
        },
        TokM::Group { delim, inner, span } => seq![
            TokM::Group { delim, inner: subst_toks(inner, repl), span },
        ],
        _ => seq![t],
    }
}

/// What a token sequence substitutes to.
pub open spec fn subst_toks(ts: Seq<TokM>, repl: Seq<TokM>) -> Seq<TokM>
    decreases ts,
{
    if ts.len() == 0 {
        Seq::empty()
    } else {
        subst_tok(ts[0], repl) + subst_toks(ts.drop_first(), repl)
    }
}

/// Whether the placeholder occurs anywhere in this token, groups included.
pub open spec fn tok_has_self(t: TokM) -> bool
    decreases t,
{
    match t {
        TokM::Ident { text, .. } => text == placeholder(),
        TokM::Group { inner, .. } => toks_has_self(inner),
        _ => false,
    }
}

/// Whether the placeholder occurs anywhere in this token sequence.
pub open spec fn toks_has_self(ts: Seq<TokM>) -> bool
    decreases ts,
{
    ts.len() > 0 && (tok_has_self(ts[0]) || toks_has_self(ts.drop_first()))
}

/// Substituting onto the end of a sequence splits off the last token.
pub proof fn lemma_subst_push(ts: Seq<TokM>, x: TokM, repl: Seq<TokM>)
    ensures
        subst_toks(ts.push(x), repl) == subst_toks(ts, repl) + subst_tok(x, repl),
    decreases ts.len(),
{
    if ts.len() == 0 {
        assert(ts.push(x)[0] == x);
        assert(ts.push(x).drop_first() =~= Seq::<TokM>::empty());
        assert(subst_toks(Seq::<TokM>::empty(), repl) == Seq::<TokM>::empty());
        assert(subst_toks(ts, repl) == Seq::<TokM>::empty());
        assert(subst_toks(ts.push(x), repl) == subst_tok(x, repl) + subst_toks(
            Seq::<TokM>::empty(),
            repl,
        ));
        assert(subst_toks(ts.push(x), repl) =~= subst_toks(ts, repl) + subst_tok(x, repl));
    } else {
        assert(ts.push(x)[0] == ts[0]);
        assert(ts.push(x).drop_first() =~= ts.drop_first().push(x));
        lemma_subst_push(ts.drop_first(), x, repl);
        assert(subst_toks(ts.push(x), repl) == subst_tok(ts[0], repl) + (subst_toks(
            ts.drop_first(),
            repl,
        ) + subst_tok(x, repl)));
        assert(subst_tok(ts[0], repl) + (subst_toks(ts.drop_first(), repl) + subst_tok(x, repl))
            =~= (subst_tok(ts[0], repl) + subst_toks(ts.drop_first(), repl)) + subst_tok(x, repl));
        assert(subst_toks(ts.push(x), repl) =~= subst_toks(ts, repl) + subst_tok(x, repl));
    }
}

/// Substitution distributes over concatenation.
pub proof fn lemma_subst_toks_add(a: Seq<TokM>, b: Seq<TokM>, rm: Seq<TokM>)
    ensures
        subst_toks(a + b, rm) == subst_toks(a, rm) + subst_toks(b, rm),
    decreases a.len(),
{
    if a.len() == 0 {
        assert(a + b =~= b);
        assert(subst_toks(a, rm) =~= Seq::<TokM>::empty());
        assert(subst_toks(a, rm) + subst_toks(b, rm) =~= subst_toks(b, rm));
    } else {
        assert((a + b)[0] == a[0]);
        assert((a + b).drop_first() =~= a.drop_first() + b);
        lemma_subst_toks_add(a.drop_first(), b, rm);
        assert(subst_toks(a + b, rm) == subst_tok(a[0], rm) + (subst_toks(a.drop_first(), rm)
            + subst_toks(b, rm)));
        assert(subst_tok(a[0], rm) + (subst_toks(a.drop_first(), rm) + subst_toks(b, rm)) =~= (
        subst_tok(a[0], rm) + subst_toks(a.drop_first(), rm)) + subst_toks(b, rm));
    }
}

/// Substituting a one-token sequence is substituting its token.
pub proof fn lemma_subst_single(x: TokM, rm: Seq<TokM>)
    ensures
        subst_toks(seq![x], rm) == subst_tok(x, rm),
{
    assert(seq![x].drop_first() =~= Seq::<TokM>::empty());
    assert(subst_toks(Seq::<TokM>::empty(), rm) =~= Seq::<TokM>::empty());
    assert(subst_tok(x, rm) + Seq::<TokM>::empty() =~= subst_tok(x, rm));
}

/// A replacement that is one identifier token, whatever its text.
pub open spec fn repl_is_single_ident(repl: Seq<TokM>) -> bool {
    repl.len() == 1 && repl[0] is Ident
}

/// The text of an identifier token.
pub open spec fn ident_text_of(t: TokM) -> Seq<char> {
    match t {
        TokM::Ident { text, .. } => text,
        _ => Seq::empty(),
    }
}

/// What an identifier's text becomes under a one-identifier replacement.
pub open spec fn renamed_text(name: Seq<char>, rm: Seq<TokM>) -> Seq<char> {
    if name == placeholder() {
        ident_text_of(rm[0])
    } else {
        name
    }
}

/// Under a one-identifier replacement, an identifier token keeps its
/// location and only its text changes.
pub proof fn lemma_subst_ident_tok(name: Seq<char>, span: Loc, rm: Seq<TokM>)
    requires
        repl_is_single_ident(rm),
    ensures
        subst_tok((TokM::Ident { text: name, span }), rm) == seq![
            TokM::Ident { text: renamed_text(name, rm), span },
        ],
{
    if name == placeholder() {
        assert(with_span(rm[0], span) == (TokM::Ident { text: ident_text_of(rm[0]), span }));
        assert(respan(rm, span) =~= seq![TokM::Ident { text: ident_text_of(rm[0]), span }]);
    }
}

/// True iff the replacement is one identifier token.
pub fn replacement_is_single_ident(repl: &Vec<Token>) -> (r: bool)
    ensures
        r == repl_is_single_ident(toks_m(repl@)),
{
    proof {
        lemma_toks_m(repl@);
    }
    if repl.len() == 1 {
        proof {
            assert(toks_m(repl@)[0] == repl@[0].m());
        }
        match &repl[0] {
            Token::Ident { .. } => true,
            _ => false,
        }
    } else {
        false
    }
}

/// A token free of the placeholder substitutes to itself.
pub proof fn lemma_subst_id_tok(t: TokM, repl: Seq<TokM>)
    requires
        !tok_has_self(t),
    ensures
        subst_tok(t, repl) == seq![t],
    decreases t,
{
    match t {
        TokM::Group { delim, inner, span } => {
            lemma_subst_id_toks(inner, repl);
        },
        _ => {},
    }
}

/// A sequence free of the placeholder substitutes to itself.
pub proof fn lemma_subst_id_toks(ts: Seq<TokM>, repl: Seq<TokM>)
    requires
        !toks_has_self(ts),
    ensures
        subst_toks(ts, repl) == ts,
    decreases ts,
{
    if ts.len() == 0 {
        assert(subst_toks(ts, repl) =~= ts);
    } else {
        lemma_subst_id_tok(ts[0], repl);
        lemma_subst_id_toks(ts.drop_first(), repl);
        assert(subst_toks(ts, repl) =~= ts);
    }
}

/// A replacement that is the placeholder itself, wherever it points.
pub open spec fn repl_is_placeholder(repl: Seq<TokM>) -> bool {
    repl.len() == 1 && match repl[0] {
        TokM::Ident { text, .. } => text == placeholder(),
        _ => false,
    }
}

/// Replacing the placeholder by itself changes no token.
pub proof fn lemma_subst_self_tok(t: TokM, repl: Seq<TokM>)
    requires
        repl_is_placeholder(repl),
    ensures
        subst_tok(t, repl) == seq![t],
    decreases t,
{
    match t {
        TokM::Ident { text, span } => {
            if text == placeholder() {
                assert(with_span(repl[0], span) == t);
                assert(respan(repl, span) =~= seq![t]);
            }
        },
        TokM::Group { delim, inner, span } => {
            lemma_subst_self_toks(inner, repl);
        },
        _ => {},
    }
}

/// Replacing the placeholder by itself changes no sequence.
pub proof fn lemma_subst_self_toks(ts: Seq<TokM>, repl: Seq<TokM>)
    requires
        repl_is_placeholder(repl),
    ensures
        subst_toks(ts, repl) == ts,
    decreases ts,
{
    if ts.len() == 0 {
        assert(subst_toks(ts, repl) =~= ts);
    } else {
        lemma_subst_self_tok(ts[0], repl);
        lemma_subst_self_toks(ts.drop_first(), repl);
        assert(subst_toks(ts, repl) =~= ts);
    }
}

/// A copy of `t` whose top-level location handle is `sp`.
fn token_respan(t: &Token, sp: Loc) -> (r: Token)
    ensures
        r.m() == with_span(t.m(), sp),
{
    match t {
        Token::Ident { text, .. } => Token::Ident { text: text.clone(), span: sp },
        Token::Punct { ch, .. } => Token::Punct { ch: *ch, span: sp },
        Token::Literal { text, .. } => Token::Literal { text: text.clone(), span: sp },
        Token::Group { delim, inner, .. } => Token::Group {
            delim: *delim,
            inner: clone_tokens(inner),
            span: sp,
        },
    }
}

/// What one token substitutes to.
fn subst_one(t: &Token, repl: &Vec<Token>) -> (r: Vec<Token>)
    ensures
        toks_m(r@) == subst_tok(t.m(), toks_m(repl@)),
    decreases t,
{
    match t {
        Token::Ident { text, span } => {
            if str_is(text, "Self") {
                let mut out: Vec<Token> = Vec::new();
                let mut i: usize = 0;
                while i < repl.len()
                    invariant
                        i <= repl.len(),
                        out@.len() == i,
                        forall|k: int|
                            0 <= k < i ==> out@[k].m() == with_span(
                                #[trigger] repl@[k].m(),
                                *span,
                            ),
                    decreases repl.len() - i,
                {
                    out.push(token_respan(&repl[i], *span));
                    i = i + 1;
                }
                proof {
                    lemma_toks_m(out@);
                    lemma_toks_m(repl@);
                    assert forall|k: int| 0 <= k < repl@.len() implies toks_m(out@)[k] == respan(
                        toks_m(repl@),
                        *span,
                    )[k] by {
                        assert(out@[k].m() == with_span(repl@[k].m(), *span));
                    }
                    assert(toks_m(out@) =~= respan(toks_m(repl@), *span));
                }
                out
            } else {
                let mut out: Vec<Token> = Vec::new();
                out.push(clone_token(t));
                proof {
                    lemma_toks_m_push(Seq::empty(), out@[0]);
                    assert(toks_m(out@) =~= seq![t.m()]);
                }
                out
            }
        },
        Token::Group { delim, inner, span } => {
            let new_inner = substitute(inner, repl);
            let mut out: Vec<Token> = Vec::new();
            let tok = Token::Group { delim: *delim, inner: new_inner, span: *span };
            let ghost tm = tok;
            out.push(tok);
            proof {
                lemma_toks_m_push(Seq::empty(), tm);
                assert(toks_m(out@) =~= seq![tm.m()]);
            }
            out
        },
        _ => {
            let mut out: Vec<Token> = Vec::new();
            out.push(clone_token(t));
            proof {
                lemma_toks_m_push(Seq::empty(), out@[0]);
                assert(toks_m(out@) =~= seq![t.m()]);
            }
            out
        },
    }
}

/// Replaces every placeholder identifier in `toks` — at any depth inside
/// groups — by the re-stamped replacement sequence; every other token
/// passes through unchanged, in order.
pub fn substitute(toks: &Vec<Token>, repl: &Vec<Token>) -> (r: Vec<Token>)
    ensures
        toks_m(r@) == subst_toks(toks_m(toks@), toks_m(repl@)),
    decreases toks,
{
    let ghost tm = toks_m(toks@);
    let ghost rm = toks_m(repl@);
    proof {
        lemma_toks_m(toks@);
    }
    let mut out: Vec<Token> = Vec::new();
    let mut i: usize = 0;
    while i < toks.len()
        invariant
            i <= toks.len(),
            tm == toks_m(toks@),
            rm == toks_m(repl@),
            toks_m(out@) == subst_toks(tm.take(i as int), rm),
            tm.len() == toks@.len(),
            forall|k: int| 0 <= k < toks@.len() ==> tm[k] == #[trigger] toks@[k].m(),
        decreases toks.len() - i,
    {
        let piece = subst_one(&toks[i], repl);
        append_toks(&mut out, piece);
        proof {
            assert(tm.take(i + 1) =~= tm.take(i as int).push(tm[i as int]));
            lemma_subst_push(tm.take(i as int), tm[i as int], rm);
        }
        i = i + 1;
    }
    proof {
        assert(tm.take(toks@.len() as int) =~= tm);
    }
    out
}

} // verus!
