//! The lexical input of the compiler: a tree of tokens.
//!
//! A token is an identifier, a punctuation character, a literal, or a
//! delimited group holding its own token stream.  Every token carries the
//! byte position where it started, used for diagnostics.

use vstd::prelude::*;

verus! {

/// The delimiter of a token group.  `Naked` stands for an undelimited
/// stream spliced into its surroundings.
#[derive(Clone, Copy, PartialEq, Eq, Structural, Debug)]
pub enum Delim {
    Paren,
    Bracket,
    Brace,
    Naked,
}

/// One lexical unit of the input.
#[derive(Debug)]
pub enum Token {
    Ident { name: String, pos: usize },
    Punct { ch: String, pos: usize },
    Literal { text: String, pos: usize },
    Group { delim: Delim, tokens: Vec<Token>, pos: usize },
}

/// The mathematical model of a [`Token`]: names become character
/// sequences and group contents become sequences of models.
pub enum TokenModel {
    Ident { name: Seq<char>, pos: usize },
    Punct { ch: Seq<char>, pos: usize },
    Literal { text: Seq<char>, pos: usize },
    Group { delim: Delim, tokens: Seq<TokenModel>, pos: usize },
}

impl View for Token {
    type V = TokenModel;

    open spec fn view(&self) -> TokenModel {
        token_model(*self)
    }
}

pub open spec fn token_model(t: Token) -> TokenModel
    decreases t,
{
    match t {
        Token::Ident { name, pos } => TokenModel::Ident { name: name@, pos },
        Token::Punct { ch, pos } => TokenModel::Punct { ch: ch@, pos },
        Token::Literal { text, pos } => TokenModel::Literal { text: text@, pos },
        Token::Group { delim, tokens, pos } => {
            proof {
                assert(tokens == t->tokens);
                assert(decreases_to!(t => t->tokens));
                assert(decreases_to!(t->tokens => t->tokens@));
            }
            TokenModel::Group { delim, tokens: tokens_model(tokens@), pos }
        },
    }
}

pub open spec fn tokens_model(ts: Seq<Token>) -> Seq<TokenModel>
    decreases ts,
{
    if ts.len() == 0 {
        Seq::empty()
    } else {
        proof {
            assert(decreases_to!(ts => ts[0]));
            assert(decreases_to!(ts => ts.subrange(1, ts.len() as int)));
            assert(ts.drop_first() == ts.subrange(1, ts.len() as int));
        }
        seq![token_model(ts[0])] + tokens_model(ts.drop_first())
    }
}

pub proof fn lemma_tokens_model_len(ts: Seq<Token>)
    ensures
        tokens_model(ts).len() == ts.len(),
        forall|i: int| 0 <= i < ts.len() ==> tokens_model(ts)[i] == token_model(ts[i]),
    decreases ts.len(),
{
    if ts.len() > 0 {
        lemma_tokens_model_len(ts.drop_first());
        assert forall|i: int| 0 <= i < ts.len() implies tokens_model(ts)[i] == token_model(
            ts[i],
        ) by {
            if i > 0 {
                assert(tokens_model(ts)[i] == tokens_model(ts.drop_first())[i - 1]);
                assert(ts.drop_first()[i - 1] == ts[i]);
            }
        }
    }
}

/// Structural size of one token model, used as a termination measure.
pub open spec fn size_of_token(t: TokenModel) -> nat
    decreases t,
{
    match t {
        TokenModel::Group { tokens, .. } => {
            proof {
                assert(decreases_to!(t => t->tokens));
            }
            1 + size_of_tokens(tokens)
        },
        _ => 1,
    }
}

pub open spec fn size_of_tokens(ts: Seq<TokenModel>) -> nat
    decreases ts,
{
    if ts.len() == 0 {
        0
    } else {
        proof {
            assert(decreases_to!(ts => ts[0]));
            assert(decreases_to!(ts => ts.subrange(1, ts.len() as int)));
            assert(ts.drop_first() == ts.subrange(1, ts.len() as int));
        }
        size_of_token(ts[0]) + size_of_tokens(ts.drop_first())
    }
}

/// Size of the suffix of `ts` that starts at `i`.
pub open spec fn size_of_suffix(ts: Seq<TokenModel>, i: int) -> nat
    decreases ts.len() - i,
{
    if i < 0 || i >= ts.len() {
        0
    } else {
        size_of_token(ts[i]) + size_of_suffix(ts, i + 1)
    }
}

pub proof fn lemma_size_of_skip(ts: Seq<TokenModel>, i: int)
    requires
        0 <= i <= ts.len(),
    ensures
        size_of_tokens(ts.skip(i)) == size_of_suffix(ts, i),
    decreases ts.len() - i,
{
    if i == ts.len() {
        assert(ts.skip(i).len() == 0);
    } else {
        lemma_size_of_skip(ts, i + 1);
        assert(ts.skip(i).drop_first() =~= ts.skip(i + 1));
        assert(ts.skip(i)[0] == ts[i]);
    }
}

pub proof fn lemma_size_of_token_pos(t: TokenModel)
    ensures
        size_of_token(t) >= 1,
{
}

pub proof fn lemma_size_of_suffix_step(ts: Seq<TokenModel>, i: int)
    requires
        0 <= i < ts.len(),
    ensures
        size_of_suffix(ts, i) == size_of_token(ts[i]) + size_of_suffix(ts, i + 1),
        size_of_token(ts[i]) >= 1,
{
    lemma_size_of_token_pos(ts[i]);
}

pub proof fn lemma_size_of_group(t: TokenModel)
    requires
        t is Group,
    ensures
        size_of_token(t) == 1 + size_of_suffix(t->tokens, 0),
{
    lemma_size_of_skip(t->tokens, 0);
    assert(t->tokens.skip(0) =~= t->tokens);
}

impl Token {
    /// Position of the token, for diagnostics.
    pub fn position(&self) -> (p: usize)
        ensures
            p == spec_position(self@),
    {
        match self {
            Token::Ident { pos, .. } => *pos,
            Token::Punct { pos, .. } => *pos,
            Token::Literal { pos, .. } => *pos,
            Token::Group { pos, .. } => *pos,
        }
    }
}

/// String equality against a literal.
pub fn string_is(s: &String, lit: &str) -> (r: bool)
    ensures
        r == (s@ == lit@),
{
    let other = String::from_str(lit);
    *s == other
}

pub open spec fn spec_position(t: TokenModel) -> usize {
    match t {
        TokenModel::Ident { pos, .. } => pos,
        TokenModel::Punct { pos, .. } => pos,
        TokenModel::Literal { pos, .. } => pos,
        TokenModel::Group { pos, .. } => pos,
    }
}

} // verus!
