//! The generated code, as a tree of output tokens, and its rendering
//! to a single line of text.
//!
//! The renderer's spacing convention is part of the library's
//! contract: tokens are separated by single spaces, except around
//! member access dots, before commas and semicolons, between a name
//! and its call parentheses, and at group edges.

use vstd::prelude::*;

use crate::tokens::string_is;

verus! {

/// One token of the generated code.
#[derive(Debug)]
pub enum OutTok {
    /// An identifier or keyword.
    Id(String),
    /// A literal, written exactly as it should appear.
    Lit(String),
    /// A punctuation string such as `.`, `::` or `!=`.
    Pu(String),
    /// A `( ... )` group.
    Paren(Vec<OutTok>),
    /// A `[ ... ]` group.
    Bracket(Vec<OutTok>),
    /// A `{ ... }` group.
    Brace(Vec<OutTok>),
}

/// The mathematical model of an [`OutTok`].
pub enum OutModel {
    Id(Seq<char>),
    Lit(Seq<char>),
    Pu(Seq<char>),
    Paren(Seq<OutModel>),
    Bracket(Seq<OutModel>),
    Brace(Seq<OutModel>),
}

pub open spec fn out_model(t: OutTok) -> OutModel
    decreases t,
{
    match t {
        OutTok::Id(s) => OutModel::Id(s@),
        OutTok::Lit(s) => OutModel::Lit(s@),
        OutTok::Pu(s) => OutModel::Pu(s@),
        OutTok::Paren(items) => {
            proof {
                assert(items == t->Paren_0);
                assert(decreases_to!(t => t->Paren_0));
                assert(decreases_to!(t->Paren_0 => t->Paren_0@));
            }
            OutModel::Paren(outs_model(items@))
        },
        OutTok::Bracket(items) => {
            proof {
                assert(items == t->Bracket_0);
                assert(decreases_to!(t => t->Bracket_0));
                assert(decreases_to!(t->Bracket_0 => t->Bracket_0@));
            }
            OutModel::Bracket(outs_model(items@))
        },
        OutTok::Brace(items) => {
            proof {
                assert(items == t->Brace_0);
                assert(decreases_to!(t => t->Brace_0));
                assert(decreases_to!(t->Brace_0 => t->Brace_0@));
            }
            OutModel::Brace(outs_model(items@))
        },
    }
}

pub open spec fn outs_model(ts: Seq<OutTok>) -> Seq<OutModel>
    decreases ts,
{
    if ts.len() == 0 {
        Seq::empty()
    } else {
        proof {
            assert(decreases_to!(ts => ts[0]));
            assert(decreases_to!(ts => ts.subrange(1, ts.len() as int)));
            assert(ts.drop_first() == ts.subrange(1, ts.len() as int));
        }
        seq![out_model(ts[0])] + outs_model(ts.drop_first())
    }
}

pub proof fn lemma_outs_model_len(ts: Seq<OutTok>)
    ensures
        outs_model(ts).len() == ts.len(),
        forall|i: int| 0 <= i < ts.len() ==> outs_model(ts)[i] == out_model(ts[i]),
    decreases ts.len(),
{
    if ts.len() > 0 {
        lemma_outs_model_len(ts.drop_first());
        assert forall|i: int| 0 <= i < ts.len() implies outs_model(ts)[i] == out_model(ts[i]) by {
            if i > 0 {
                assert(outs_model(ts)[i] == outs_model(ts.drop_first())[i - 1]);
                assert(ts.drop_first()[i - 1] == ts[i]);
            }
        }
    }
}

pub proof fn lemma_outs_model_push(ts: Seq<OutTok>, t: OutTok)
    ensures
        outs_model(ts.push(t)) == outs_model(ts).push(out_model(t)),
{
    lemma_outs_model_len(ts);
    lemma_outs_model_len(ts.push(t));
    assert(outs_model(ts.push(t)) =~= outs_model(ts).push(out_model(t)));
}

impl View for OutTok {
    type V = OutModel;

    open spec fn view(&self) -> OutModel {
        out_model(*self)
    }
}

// ---------------------------------------------------------------------
// Sizes, for termination of the renderer
// ---------------------------------------------------------------------
pub open spec fn out_size(t: OutModel) -> nat
    decreases t,
{
    match t {
        OutModel::Paren(items) => {
            proof {
                assert(decreases_to!(t => t->Paren_0));
            }
            1 + outs_size(items)
        },
        OutModel::Bracket(items) => {
            proof {
                assert(decreases_to!(t => t->Bracket_0));
            }
            1 + outs_size(items)
        },
        OutModel::Brace(items) => {
            proof {
                assert(decreases_to!(t => t->Brace_0));
            }
            1 + outs_size(items)
        },
        _ => 1,
    }
}

pub open spec fn outs_size(ts: Seq<OutModel>) -> nat
    decreases ts,
{
    if ts.len() == 0 {
        0
    } else {
        proof {
            assert(decreases_to!(ts => ts[0]));
            assert(decreases_to!(ts => ts.subrange(1, ts.len() as int)));
            assert(ts.drop_first() == ts.subrange(1, ts.len() as int));
        }
        out_size(ts[0]) + outs_size(ts.drop_first())
    }
}

pub open spec fn outs_suffix_size(ts: Seq<OutModel>, i: int) -> nat
    decreases ts.len() - i,
{
    if i < 0 || i >= ts.len() {
        0
    } else {
        out_size(ts[i]) + outs_suffix_size(ts, i + 1)
    }
}

pub proof fn lemma_out_size_pos(t: OutModel)
    ensures
        out_size(t) >= 1,
{
}

pub proof fn lemma_outs_suffix_step(ts: Seq<OutModel>, i: int)
    requires
        0 <= i < ts.len(),
    ensures
        outs_suffix_size(ts, i) == out_size(ts[i]) + outs_suffix_size(ts, i + 1),
        out_size(ts[i]) >= 1,
{
    lemma_out_size_pos(ts[i]);
}

pub proof fn lemma_outs_suffix_zero(ts: Seq<OutModel>)
    ensures
        outs_suffix_size(ts, 0) == outs_size(ts),
    decreases ts.len(),
{
    if ts.len() > 0 {
        lemma_outs_suffix_zero(ts.drop_first());
        lemma_outs_suffix_shift(ts, 1);
    }
}

pub proof fn lemma_outs_suffix_shift(ts: Seq<OutModel>, i: int)
    requires
        0 < i <= ts.len(),
        ts.len() > 0,
    ensures
        outs_suffix_size(ts, i) == outs_suffix_size(ts.drop_first(), i - 1),
    decreases ts.len() - i,
{
    if i < ts.len() {
        lemma_outs_suffix_shift(ts, i + 1);
        assert(ts.drop_first()[i - 1] == ts[i]);
    }
}

// ---------------------------------------------------------------------
// Rendering
// ---------------------------------------------------------------------
/// Whether a space separates two neighbouring output tokens.
pub open spec fn spec_space_between(a: OutModel, b: OutModel) -> bool {
    !((b is Pu && (b->Pu_0 == ","@ || b->Pu_0 == ";"@ || b->Pu_0 == "."@)) || (a is Pu && a->Pu_0
        == "."@) || (b is Paren && (a is Id || a is Lit)) || (b is Pu && b->Pu_0 == "!"@
        && a is Id))
}

/// The text of one output token.
pub open spec fn spec_render_tok(t: OutModel) -> Seq<char>
    decreases t,
{
    match t {
        OutModel::Id(s) => s,
        OutModel::Lit(s) => s,
        OutModel::Pu(s) => s,
        OutModel::Paren(items) => {
            proof {
                assert(decreases_to!(t => t->Paren_0));
            }
            "("@ + spec_render_stream(items) + ")"@
        },
        OutModel::Bracket(items) => {
            proof {
                assert(decreases_to!(t => t->Bracket_0));
            }
            "["@ + spec_render_stream(items) + "]"@
        },
        OutModel::Brace(items) => {
            proof {
                assert(decreases_to!(t => t->Brace_0));
            }
            if items.len() == 0 {
                "{}"@
            } else {
                "{ "@ + spec_render_stream(items) + " }"@
            }
        },
    }
}

/// The text of a stream of output tokens, with the spacing rule
/// applied between neighbours.
pub open spec fn spec_render_stream(items: Seq<OutModel>) -> Seq<char>
    decreases items,
{
    if items.len() == 0 {
        Seq::empty()
    } else {
        proof {
            assert(decreases_to!(items => items[0]));
            assert(decreases_to!(items => items.subrange(1, items.len() as int)));
            assert(items.drop_first() == items.subrange(1, items.len() as int));
        }
        if items.len() == 1 {
            spec_render_tok(items[0])
        } else {
            spec_render_tok(items[0]) + (if spec_space_between(items[0], items[1]) {
                " "@
            } else {
                Seq::<char>::empty()
            }) + spec_render_stream(items.drop_first())
        }
    }
}

/// Whether a space separates `a` from the following token `b`.
fn space_between(a: &OutTok, b: &OutTok) -> (r: bool)
    ensures
        r == spec_space_between(a@, b@),
{
    let before_tight = match b {
        OutTok::Pu(s) => string_is(s, ",") || string_is(s, ";") || string_is(s, "."),
        OutTok::Paren(_) => match a {
            OutTok::Id(_) => true,
            OutTok::Lit(_) => true,
            _ => false,
        },
        _ => false,
    };
    let after_tight = match a {
        OutTok::Pu(s) => string_is(s, "."),
        _ => false,
    };
    let bang_tight = match b {
        OutTok::Pu(s) => string_is(s, "!") && (match a {
            OutTok::Id(_) => true,
            _ => false,
        }),
        _ => false,
    };
    !(before_tight || after_tight || bang_tight)
}

/// Render the stream `items[i..]`.
fn render_stream_from(items: &Vec<OutTok>, i: usize) -> (r: String)
    requires
        i <= items.len(),
    ensures
        r@ == spec_render_stream(outs_model(items@).skip(i as int)),
    decreases outs_suffix_size(outs_model(items@), i as int), 1nat,
{
    let ghost m = outs_model(items@);
    proof {
        lemma_outs_model_len(items@);
    }
    if i == items.len() {
        proof {
            assert(m.skip(i as int).len() == 0);
        }
        String::new()
    } else {
        proof {
            lemma_outs_suffix_step(m, i as int);
            assert(m.skip(i as int)[0] == m[i as int]);
        }
        let mut s = render_tok(&items[i]);
        if i + 1 < items.len() {
            if space_between(&items[i], &items[i + 1]) {
                s.append(" ");
            }
            let rest = render_stream_from(items, i + 1);
            s.append(rest.as_str());
            proof {
                assert(m.skip(i as int).drop_first() =~= m.skip(i as int + 1));
                assert(m.skip(i as int)[1] == m[i as int + 1]);
                assert(m.skip(i as int).len() > 1);
            }
        } else {
            proof {
                assert(m.skip(i as int).len() == 1);
            }
        }
        s
    }
}

/// Render one output token.
fn render_tok(t: &OutTok) -> (r: String)
    ensures
        r@ == spec_render_tok(t@),
    decreases out_size(t@), 0nat,
{
    match t {
        OutTok::Id(s) => s.clone(),
        OutTok::Lit(s) => s.clone(),
        OutTok::Pu(s) => s.clone(),
        OutTok::Paren(items) => {
            proof {
                lemma_outs_suffix_zero(outs_model(items@));
            }
            let mut s = String::from_str("(");
            let inner = render_stream_from(items, 0);
            s.append(inner.as_str());
            s.append(")");
            proof {
                assert(outs_model(items@).skip(0) =~= outs_model(items@));
            }
            s
        },
        OutTok::Bracket(items) => {
            proof {
                lemma_outs_suffix_zero(outs_model(items@));
            }
            let mut s = String::from_str("[");
            let inner = render_stream_from(items, 0);
            s.append(inner.as_str());
            s.append("]");
            proof {
                assert(outs_model(items@).skip(0) =~= outs_model(items@));
            }
            s
        },
        OutTok::Brace(items) => {
            proof {
                lemma_outs_suffix_zero(outs_model(items@));
            }
            if items.len() == 0 {
                proof {
                    assert(outs_model(items@).len() == 0) by {
                        lemma_outs_model_len(items@);
                    }
                }
                String::from_str("{}")
            } else {
                let mut s = String::from_str("{ ");
                let inner = render_stream_from(items, 0);
                s.append(inner.as_str());
                s.append(" }");
                proof {
                    lemma_outs_model_len(items@);
                    assert(outs_model(items@).skip(0) =~= outs_model(items@));
                }
                s
            }
        },
    }
}

/// Render a whole stream of generated code to text.
pub fn render(items: &Vec<OutTok>) -> (r: String)
    ensures
        r@ == spec_render_stream(outs_model(items@)),
{
    proof {
        lemma_outs_suffix_zero(outs_model(items@));
        assert(outs_model(items@).skip(0) =~= outs_model(items@));
    }
    render_stream_from(items, 0)
}

// ---------------------------------------------------------------------
// Decimal rendering of numbers
// ---------------------------------------------------------------------
/// The decimal digit character of `n`, for `n < 10`.
pub open spec fn spec_digit(n: nat) -> &'static str {
    if n == 0 {
        "0"
    } else if n == 1 {
        "1"
    } else if n == 2 {
        "2"
    } else if n == 3 {
        "3"
    } else if n == 4 {
        "4"
    } else if n == 5 {
        "5"
    } else if n == 6 {
        "6"
    } else if n == 7 {
        "7"
    } else if n == 8 {
        "8"
    } else {
        "9"
    }
}

/// The decimal notation of `n`.
pub open spec fn spec_dec(n: nat) -> Seq<char>
    decreases n,
{
    if n < 10 {
        spec_digit(n)@
    } else {
        spec_dec(n / 10) + spec_digit(n % 10)@
    }
}

fn digit_str(n: usize) -> (r: &'static str)
    requires
        n < 10,
    ensures
        r@ == spec_digit(n as nat)@,
{
    if n == 0 {
        "0"
    } else if n == 1 {
        "1"
    } else if n == 2 {
        "2"
    } else if n == 3 {
        "3"
    } else if n == 4 {
        "4"
    } else if n == 5 {
        "5"
    } else if n == 6 {
        "6"
    } else if n == 7 {
        "7"
    } else if n == 8 {
        "8"
    } else {
        "9"
    }
}

/// Write `n` in decimal.
pub fn dec_string(n: usize) -> (r: String)
    ensures
        r@ == spec_dec(n as nat),
    decreases n,
{
    if n < 10 {
        String::from_str(digit_str(n))
    } else {
        let mut s = dec_string(n / 10);
        s.append(digit_str(n % 10));
        s
    }
}

} // verus!
