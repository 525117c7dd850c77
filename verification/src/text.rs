//! Token lists: generated code is kept as a list of token texts, each a
//! `String`, and rendered with single spaces in between.

use vstd::prelude::*;

verus! {

/// The mathematical value of a token list: one character sequence per entry.
pub type Tokens = Seq<Seq<char>>;

/// Whether `s` holds exactly the characters of `word`.
pub fn is_word(s: &String, word: &str) -> (r: bool)
    ensures
        r == (s@ == word@),
{
    let w = String::from_str(word);
    *s == w
}

/// Appends the token `word` to `out`.
pub fn push_word(out: &mut Vec<String>, word: &str)
    ensures
        final(out).deep_view() == old(out).deep_view().push(word@),
{
    out.push(String::from_str(word));
    assert(out.deep_view() =~= old(out).deep_view().push(word@));
}

/// Appends a copy of `token` to `out`.
pub fn push_token(out: &mut Vec<String>, token: &String)
    ensures
        final(out).deep_view() == old(out).deep_view().push(token@),
{
    out.push(token.clone());
    assert(out.deep_view() =~= old(out).deep_view().push(token@));
}

/// Appends copies of all of `more` to `out`, in order.
pub fn push_all(out: &mut Vec<String>, more: &Vec<String>)
    ensures
        final(out).deep_view() == old(out).deep_view() + more.deep_view(),
{
    let mut i: usize = 0;
    while i < more.len()
        invariant
            i <= more.len(),
            out.deep_view() == old(out).deep_view() + more.deep_view().take(i as int),
        decreases more.len() - i,
    {
        let ghost before = out.deep_view();
        out.push(more[i].clone());
        i = i + 1;
        assert(out.deep_view() =~= before.push(more@[i - 1]@));
        assert(out.deep_view() =~= old(out).deep_view() + more.deep_view().take(i as int));
    }
    assert(more.deep_view().take(i as int) =~= more.deep_view());
}

/// The text of a token list: the tokens in order, a single space after
/// each; an empty token leaves no trace.
pub open spec fn spaced(tokens: Tokens) -> Seq<char>
    decreases tokens.len(),
{
    if tokens.len() == 0 {
        Seq::empty()
    } else if tokens.last().len() == 0 {
        spaced(tokens.drop_last())
    } else {
        spaced(tokens.drop_last()) + tokens.last() + seq![' ']
    }
}

/// Renders a token list as source text.
pub fn render(tokens: &Vec<String>) -> (r: String)
    ensures
        r@ == spaced(tokens.deep_view()),
{
    let mut out = String::new();
    let mut i: usize = 0;
    while i < tokens.len()
        invariant
            i <= tokens.len(),
            out@ == spaced(tokens.deep_view().take(i as int)),
        decreases tokens.len() - i,
    {
        let ghost before = tokens.deep_view().take(i as int);
        if !tokens[i].as_str().is_empty() {
            out.append(tokens[i].as_str());
            out.append(" ");
        }
        i = i + 1;
        proof {
            reveal_strlit(" ");
            let now = tokens.deep_view().take(i as int);
            assert(now.drop_last() =~= before);
            assert(now.last() == tokens@[i - 1]@);
            assert(" "@ =~= seq![' ']);
        }
    }
    assert(tokens.deep_view().take(i as int) =~= tokens.deep_view());
    out
}

} // verus!
