use vstd::prelude::*;
use crate::token::{Token, TokM, Delim, toks_m, lemma_toks_m};
use crate::ast::TypeExpr;
use crate::print::{print_ty, print_type_tokens};

verus! {

/// The opening character of a delimiter.
pub open spec fn open_char(d: Delim) -> char {
    match d {
        Delim::Paren => '(',
        Delim::Bracket => '[',
        Delim::Brace => '{',
    }
}

/// The closing character of a delimiter.
pub open spec fn close_char(d: Delim) -> char {
    match d {
        Delim::Paren => ')',
        Delim::Bracket => ']',
        Delim::Brace => '}',
    }
}

/// The rendered text of one token: its own text, or a group's delimiters
/// around its rendered contents.
pub open spec fn tok_text(t: TokM) -> Seq<char>
    decreases t, 1int,
{
    match t {
        TokM::Ident { text, .. } => text,
        TokM::Punct { ch, .. } => seq![ch],
        TokM::Literal { text, .. } => text,
        TokM::Group { delim, inner, .. } => seq![open_char(delim)] + toks_text_from(inner, 0)
            + seq![close_char(delim)],
    }
}

/// Two adjacent tokens that render with no space between them: a
/// lifetime tick sticks to what follows, and the two halves of a path
/// separator stick together.
pub open spec fn joined(a: TokM, b: TokM) -> bool {
    (a matches TokM::Punct { ch: '\'', .. }) || ((a matches TokM::Punct { ch: ':', .. }) && (
    b matches TokM::Punct { ch: ':', .. }))
}

/// The rendered text of a token sequence from `i` on: the tokens' texts,
/// joined by single spaces except across joined pairs.
pub open spec fn toks_text_from(ts: Seq<TokM>, i: int) -> Seq<char>
    decreases ts, ts.len() - i, 0int,
{
    if i < 0 || i >= ts.len() {
        Seq::empty()
    } else if i == ts.len() - 1 {
        tok_text(ts[i])
    } else {
        tok_text(ts[i]) + (if joined(ts[i], ts[i + 1]) {
            Seq::<char>::empty()
        } else {
            seq![' ']
        }) + toks_text_from(ts, i + 1)
    }
}

fn is_punct_of(t: &Token, c: char) -> (r: bool)
    ensures
        r == (t.m() matches TokM::Punct { ch, .. } && ch == c),
{
    match t {
        Token::Punct { ch, .. } => *ch == c,
        _ => false,
    }
}

fn push_str_chars(out: &mut Vec<char>, s: &str)
    ensures
        final(out)@ == old(out)@ + s@,
{
    let n = s.unicode_len();
    let mut i: usize = 0;
    while i < n
        invariant
            n == s@.len(),
            i <= n,
            out@ == old(out)@ + s@.take(i as int),
        decreases n - i,
    {
        out.push(s.get_char(i));
        proof {
            assert(s@.take(i + 1) =~= s@.take(i as int).push(s@[i as int]));
            assert(out@ =~= old(out)@ + s@.take(i + 1));
        }
        i = i + 1;
    }
    proof {
        assert(s@.take(n as int) =~= s@);
        assert(out@ =~= old(out)@ + s@);
    }
}

fn tok_text_into(out: &mut Vec<char>, t: &Token)
    ensures
        final(out)@ == old(out)@ + tok_text(t.m()),
    decreases t, 1int,
{
    match t {
        Token::Ident { text, .. } => {
            push_str_chars(out, text.as_str());
        },
        Token::Punct { ch, .. } => {
            out.push(*ch);
            proof {
                assert(out@ =~= old(out)@ + seq![*ch]);
            }
        },
        Token::Literal { text, .. } => {
            push_str_chars(out, text.as_str());
        },
        Token::Group { delim, inner, .. } => {
            let (o, c) = match delim {
                Delim::Paren => ('(', ')'),
                Delim::Bracket => ('[', ']'),
                Delim::Brace => ('{', '}'),
            };
            out.push(o);
            toks_text_into(out, inner, 0);
            out.push(c);
            proof {
                assert(out@ =~= old(out)@ + tok_text(t.m()));
            }
        },
    }
}

fn toks_text_into(out: &mut Vec<char>, ts: &Vec<Token>, i: usize)
    requires
        i <= ts@.len(),
    ensures
        final(out)@ == old(out)@ + toks_text_from(toks_m(ts@), i as int),
    decreases ts, ts@.len() - i, 0int,
{
    proof {
        lemma_toks_m(ts@);
    }
    if i < ts.len() {
        tok_text_into(out, &ts[i]);
        if ts.len() - i >= 2 {
            let stick = is_punct_of(&ts[i], '\'') || (is_punct_of(&ts[i], ':') && is_punct_of(
                &ts[i + 1],
                ':',
            ));
            if !stick {
                out.push(' ');
            }
            toks_text_into(out, ts, i + 1);
        }
    }
    proof {
        assert(out@ =~= old(out)@ + toks_text_from(toks_m(ts@), i as int));
    }
}

/// Renders a token sequence as text: tokens joined by single spaces, a
/// group as its delimiters wrapped directly around its rendered contents.
pub fn tokens_text(ts: &Vec<Token>) -> (r: Vec<char>)
    ensures
        r@ == toks_text_from(toks_m(ts@), 0),
{
    let mut out: Vec<char> = Vec::new();
    toks_text_into(&mut out, ts, 0);
    out
}

/// Renders a type expression as text, through its printed token form.
pub fn type_text(t: &TypeExpr) -> (r: Vec<char>)
    ensures
        r@ == toks_text_from(print_ty(t.m()), 0),
{
    let toks = print_type_tokens(t);
    tokens_text(&toks)
}

} // verus!
