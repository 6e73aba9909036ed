use vstd::prelude::*;
use crate::loc::Loc;

verus! {

/// The delimiter of a bracketed token group.
#[derive(Clone, Copy, PartialEq, Eq, Structural, Debug)]
pub enum Delim {
    Paren,
    Bracket,
    Brace,
}

/// One token of a type expression, as the upstream parser hands them over:
/// identifiers, punctuation, literals, and delimited groups. Angle brackets
/// of generic argument lists are plain punctuation, not groups.
#[derive(Debug)]
pub enum Token {
    Ident { text: String, span: Loc },
    Punct { ch: char, span: Loc },
    Literal { text: String, span: Loc },
    Group { delim: Delim, inner: Vec<Token>, span: Loc },
}

/// The mathematical model of a token: identifier and literal text becomes a
/// sequence of characters, a group's contents a sequence of models.
#[verifier::ext_equal]
pub enum TokM {
    Ident { text: Seq<char>, span: Loc },
    Punct { ch: char, span: Loc },
    Literal { text: Seq<char>, span: Loc },
    Group { delim: Delim, inner: Seq<TokM>, span: Loc },
}

impl Token {
    /// The model of this token.
    pub open spec fn m(self) -> TokM
        decreases self,
    {
        match self {
            Token::Ident { text, span } => TokM::Ident { text: text@, span },
            Token::Punct { ch, span } => TokM::Punct { ch, span },
            Token::Literal { text, span } => TokM::Literal { text: text@, span },
            Token::Group { delim, inner, span } => TokM::Group {
                delim,
                inner: toks_m(inner@),
                span,
            },
        }
    }
}

/// True iff the two views are of the same characters.
pub fn str_is(a: &String, b: &str) -> (r: bool)
    ensures
        r == (a@ == b@),
{
    *a == b.to_owned()
}

/// The model of a token sequence, element by element.
pub open spec fn toks_m(ts: Seq<Token>) -> Seq<TokM>
    decreases ts,
{
    if ts.len() == 0 {
        Seq::empty()
    } else {
        seq![ts[0].m()] + toks_m(ts.drop_first())
    }
}

/// The model of a token sequence is the sequence of the tokens' models.
pub proof fn lemma_toks_m(ts: Seq<Token>)
    ensures
        toks_m(ts).len() == ts.len(),
        forall|i: int| 0 <= i < ts.len() ==> toks_m(ts)[i] == #[trigger] ts[i].m(),
    decreases ts.len(),
{
    if ts.len() > 0 {
        lemma_toks_m(ts.drop_first());
        assert forall|i: int| 0 <= i < ts.len() implies toks_m(ts)[i] == #[trigger] ts[i].m() by {
            if i > 0 {
                assert(ts.drop_first()[i - 1] == ts[i]);
                assert(toks_m(ts)[i] == toks_m(ts.drop_first())[i - 1]);
            }
        }
    }
}

/// Concatenation of token sequences models to the concatenation of the models.
pub proof fn lemma_toks_m_add(a: Seq<Token>, b: Seq<Token>)
    ensures
        toks_m(a + b) == toks_m(a) + toks_m(b),
{
    lemma_toks_m(a);
    lemma_toks_m(b);
    lemma_toks_m(a + b);
    assert forall|i: int| 0 <= i < (a + b).len() implies toks_m(a + b)[i] == (toks_m(a)
        + toks_m(b))[i] by {
        assert(toks_m(a + b)[i] == (a + b)[i].m());
        if i < a.len() {
            assert((a + b)[i] == a[i]);
            assert(toks_m(a)[i] == a[i].m());
        } else {
            assert((a + b)[i] == b[i - a.len()]);
            assert(toks_m(b)[i - a.len()] == b[i - a.len()].m());
        }
    }
    assert(toks_m(a + b) =~= toks_m(a) + toks_m(b));
}

/// Pushing one token onto a sequence appends its model to the model.
pub proof fn lemma_toks_m_push(s: Seq<Token>, x: Token)
    ensures
        toks_m(s.push(x)) == toks_m(s) + seq![x.m()],
{
    lemma_toks_m(s);
    lemma_toks_m(s.push(x));
    assert forall|i: int| 0 <= i < s.len() + 1 implies toks_m(s.push(x))[i] == (toks_m(s)
        + seq![x.m()])[i] by {
        assert(toks_m(s.push(x))[i] == s.push(x)[i].m());
        if i < s.len() {
            assert(s.push(x)[i] == s[i]);
            assert(toks_m(s)[i] == s[i].m());
        } else {
            assert(s.push(x)[i] == x);
        }
    }
    assert(toks_m(s.push(x)) =~= toks_m(s) + seq![x.m()]);
}

/// The weight of a token: groups weigh one more than their contents.
pub open spec fn tok_size(t: TokM) -> nat
    decreases t,
{
    match t {
        TokM::Group { inner, .. } => 1 + toks_size(inner),
        _ => 1,
    }
}

/// The weight of a token sequence.
pub open spec fn toks_size(ts: Seq<TokM>) -> nat
    decreases ts,
{
    if ts.len() == 0 {
        0
    } else {
        tok_size(ts[0]) + toks_size(ts.drop_first())
    }
}

/// Each token weighs no more than the sequence that holds it.
pub proof fn lemma_tok_size_le(ts: Seq<TokM>, i: int)
    requires
        0 <= i < ts.len(),
    ensures
        tok_size(ts[i]) <= toks_size(ts),
    decreases ts.len(),
{
    if i > 0 {
        lemma_tok_size_le(ts.drop_first(), i - 1);
        assert(ts.drop_first()[i - 1] == ts[i]);
    }
}

/// Moves the tokens of `other` onto the end of `out`.
pub fn append_toks(out: &mut Vec<Token>, other: Vec<Token>)
    ensures
        toks_m(final(out)@) == toks_m(old(out)@) + toks_m(other@),
{
    let ghost s0 = out@;
    let mut o = other;
    out.append(&mut o);
    proof {
        lemma_toks_m_add(s0, other@);
    }
}

/// A structural copy of a token; the copy has the same model.
pub fn clone_token(t: &Token) -> (r: Token)
    ensures
        r.m() == t.m(),
    decreases t,
{
    match t {
        Token::Ident { text, span } => Token::Ident { text: text.clone(), span: *span },
        Token::Punct { ch, span } => Token::Punct { ch: *ch, span: *span },
        Token::Literal { text, span } => Token::Literal { text: text.clone(), span: *span },
        Token::Group { delim, inner, span } => Token::Group {
            delim: *delim,
            inner: clone_tokens(inner),
            span: *span,
        },
    }
}

/// A structural copy of a token sequence, element by element.
pub fn clone_tokens(ts: &Vec<Token>) -> (r: Vec<Token>)
    ensures
        toks_m(r@) == toks_m(ts@),
    decreases ts,
{
    let mut r: Vec<Token> = Vec::new();
    let mut i: usize = 0;
    while i < ts.len()
        invariant
            i <= ts.len(),
            r@.len() == i,
            forall|k: int| 0 <= k < i ==> r@[k].m() == #[trigger] ts@[k].m(),
        decreases ts.len() - i,
    {
        r.push(clone_token(&ts[i]));
        i = i + 1;
    }
    proof {
        lemma_toks_m(r@);
        lemma_toks_m(ts@);
        assert forall|k: int| 0 <= k < ts@.len() implies toks_m(r@)[k] == toks_m(ts@)[k] by {
            assert(r@[k].m() == ts@[k].m());
        }
        assert(toks_m(r@) =~= toks_m(ts@));
    }
    r
}

/// Two tokens carry the same content: identifiers and literals must agree
/// on text and location, punctuation on its character, groups on delimiter
/// and contents. Locations of punctuation and of group delimiters are not
/// compared: a type expression tree stores none for them.
pub open spec fn tok_matches(a: TokM, b: TokM) -> bool
    decreases a,
{
    match (a, b) {
        (TokM::Ident { text: ta, span: sa }, TokM::Ident { text: tb, span: sb }) => ta == tb && sa
            == sb,
        (TokM::Punct { ch: ca, .. }, TokM::Punct { ch: cb, .. }) => ca == cb,
        (TokM::Literal { text: ta, span: sa }, TokM::Literal { text: tb, span: sb }) => ta == tb
            && sa == sb,
        (TokM::Group { delim: da, inner: ia, .. }, TokM::Group { delim: db, inner: ib, .. }) => da
            == db && toks_match(ia, ib),
        _ => false,
    }
}

/// Pointwise `tok_matches` over two sequences of the same length.
pub open spec fn toks_match(a: Seq<TokM>, b: Seq<TokM>) -> bool
    decreases a,
{
    a.len() == b.len() && (a.len() == 0 || (tok_matches(a[0], b[0]) && toks_match(
        a.drop_first(),
        b.drop_first(),
    )))
}

/// `toks_match` holds exactly when the lengths agree and every pair of
/// tokens matches.
pub proof fn lemma_toks_match_index(a: Seq<TokM>, b: Seq<TokM>)
    ensures
        toks_match(a, b) <==> (a.len() == b.len() && forall|k: int|
            0 <= k < a.len() ==> #[trigger] tok_matches(a[k], b[k])),
    decreases a.len(),
{
    if a.len() == b.len() && a.len() > 0 {
        lemma_toks_match_index(a.drop_first(), b.drop_first());
        if toks_match(a, b) {
            assert forall|k: int| 0 <= k < a.len() implies #[trigger] tok_matches(a[k], b[k]) by {
                if k > 0 {
                    assert(tok_matches(a.drop_first()[k - 1], b.drop_first()[k - 1]));
                    assert(a.drop_first()[k - 1] == a[k]);
                    assert(b.drop_first()[k - 1] == b[k]);
                }
            }
        }
        if forall|k: int| 0 <= k < a.len() ==> #[trigger] tok_matches(a[k], b[k]) {
            assert(tok_matches(a[0], b[0]));
            assert forall|k: int| 0 <= k < a.drop_first().len() implies #[trigger] tok_matches(
                a.drop_first()[k],
                b.drop_first()[k],
            ) by {
                assert(a.drop_first()[k] == a[k + 1]);
                assert(b.drop_first()[k] == b[k + 1]);
            }
        }
    }
}

/// Every token matches itself.
pub proof fn lemma_tok_matches_refl(t: TokM)
    ensures
        tok_matches(t, t),
    decreases t,
{
    match t {
        TokM::Group { inner, .. } => {
            lemma_toks_match_refl(inner);
        },
        _ => {},
    }
}

/// Every sequence matches itself.
pub proof fn lemma_toks_match_refl(ts: Seq<TokM>)
    ensures
        toks_match(ts, ts),
    decreases ts,
{
    if ts.len() > 0 {
        lemma_tok_matches_refl(ts[0]);
        lemma_toks_match_refl(ts.drop_first());
    }
}

fn tok_match_one(x: &Token, y: &Token) -> (r: bool)
    ensures
        r == tok_matches(x.m(), y.m()),
    decreases x,
{
    match (x, y) {
        (Token::Ident { text: ta, span: sa }, Token::Ident { text: tb, span: sb }) => *ta == *tb
            && *sa == *sb,
        (Token::Punct { ch: ca, .. }, Token::Punct { ch: cb, .. }) => *ca == *cb,
        (Token::Literal { text: ta, span: sa }, Token::Literal { text: tb, span: sb }) => *ta
            == *tb && *sa == *sb,
        (Token::Group { delim: da, inner: ia, .. }, Token::Group { delim: db, inner: ib, .. }) => *da
            == *db && toks_match_vec(ia, ib),
        _ => false,
    }
}

/// True iff the two token sequences carry the same content, locations of
/// punctuation and delimiters aside.
pub fn toks_match_vec(a: &Vec<Token>, b: &Vec<Token>) -> (r: bool)
    ensures
        r == toks_match(toks_m(a@), toks_m(b@)),
    decreases a,
{
    proof {
        lemma_toks_m(a@);
        lemma_toks_m(b@);
        lemma_toks_match_index(toks_m(a@), toks_m(b@));
    }
    if a.len() != b.len() {
        return false;
    }
    let mut i: usize = 0;
    while i < a.len()
        invariant
            i <= a@.len(),
            a@.len() == b@.len(),
            forall|k: int|
                0 <= k < i ==> #[trigger] tok_matches(toks_m(a@)[k], toks_m(b@)[k]),
        decreases a@.len() - i,
    {
        proof {
            lemma_toks_m(a@);
            lemma_toks_m(b@);
        }
        if !tok_match_one(&a[i], &b[i]) {
            proof {
                lemma_toks_match_index(toks_m(a@), toks_m(b@));
            }
            return false;
        }
        i = i + 1;
    }
    proof {
        lemma_toks_match_index(toks_m(a@), toks_m(b@));
    }
    true
}

} // verus!
