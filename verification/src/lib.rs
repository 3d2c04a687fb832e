//! A small compiler for an index-expression notation over
//! multi-dimensional arrays ("Ricci notation"), together with the
//! dimension, shape and tensor types that such computations are
//! written against.
//!
//! The compiler parses a token tree such as `i j $ a[i, j] + b[j]`,
//! checks that every array is subscripted consistently, and lowers it
//! to generated code: a header that binds one dimension per index and
//! checks that all its usage sites agree, followed by either an
//! array construction or a lazy nested iteration.

pub mod building;
pub mod code;
pub mod dimensions;
pub mod parsing;
pub mod sequentialization;
pub mod shapes;
pub mod tensors;
pub mod tokens;
pub mod types;

use vstd::prelude::*;

use crate::code::{OutModel, OutTok, outs_model, render, spec_render_stream};
use crate::parsing::{ParseOutcome, parse, spec_parse};
use crate::sequentialization::{sequentialize, spec_sequentialize};
use crate::tokens::{Token, TokenModel, tokens_model};
use crate::types::CompileError;

verus! {

/// A whitespace character that [`simplify`] trims away.
pub open spec fn spec_is_ws(c: char) -> bool {
    c == ' ' || c == '\t' || c == '\r'
}

pub open spec fn spec_trim_front(s: Seq<char>) -> Seq<char>
    decreases s.len(),
{
    if s.len() > 0 && spec_is_ws(s[0]) {
        spec_trim_front(s.drop_first())
    } else {
        s
    }
}

pub open spec fn spec_trim_back(s: Seq<char>) -> Seq<char>
    decreases s.len(),
{
    if s.len() > 0 && spec_is_ws(s.last()) {
        spec_trim_back(s.drop_last())
    } else {
        s
    }
}

pub open spec fn spec_trim(s: Seq<char>) -> Seq<char> {
    spec_trim_back(spec_trim_front(s))
}

/// First position of a line break at or after `i`, or `-1`.
pub open spec fn spec_first_nl(s: Seq<char>, i: int) -> int
    decreases s.len() - i,
{
    if i < 0 || i >= s.len() {
        -1
    } else if s[i] == '\n' {
        i
    } else {
        spec_first_nl(s, i + 1)
    }
}

pub proof fn lemma_first_nl_bounds(s: Seq<char>, i: int)
    requires
        0 <= i <= s.len(),
    ensures
        spec_first_nl(s, i) == -1 || (i <= spec_first_nl(s, i) < s.len() && s[spec_first_nl(s, i)]
            == '\n'),
        spec_first_nl(s, i) == -1 ==> forall|j: int| i <= j < s.len() ==> s[j] != '\n',
    decreases s.len() - i,
{
    if i < s.len() && s[i] != '\n' {
        lemma_first_nl_bounds(s, i + 1);
    }
}

/// The text flattened to one line: every source line trimmed and
/// followed by a single space.
pub open spec fn spec_simplify_from(s: Seq<char>, i: int) -> Seq<char>
    decreases s.len() - i,
{
    let k = spec_first_nl(s, i);
    if k < 0 || i < 0 || i > s.len() {
        spec_trim(s.skip(i)) + " "@
    } else {
        proof {
            lemma_first_nl_bounds(s, i);
        }
        spec_trim(s.subrange(i, k)) + " "@ + spec_simplify_from(s, k + 1)
    }
}

pub open spec fn spec_simplify(s: Seq<char>) -> Seq<char> {
    spec_simplify_from(s, 0)
}

fn is_ws(c: char) -> (r: bool)
    ensures
        r == spec_is_ws(c),
{
    c == ' ' || c == '\t' || c == '\r'
}

/// Flatten a text to one line: every source line is trimmed and
/// followed by a single space.
pub fn simplify(text: &str) -> (r: String)
    ensures
        r@ == spec_simplify(text@),
{
    let n = text.unicode_len();
    let mut result = String::new();
    let mut start: usize = 0;
    proof {
        assert(Seq::<char>::empty() + spec_simplify_from(text@, 0) =~= spec_simplify_from(
            text@,
            0,
        ));
    }
    loop
        invariant
            start <= n,
            n == text@.len(),
            spec_simplify(text@) == result@ + spec_simplify_from(text@, start as int),
        decreases n - start,
    {
        let mut k: usize = start;
        while k < n && text.get_char(k) != '\n'
            invariant
                start <= k <= n,
                n == text@.len(),
                spec_first_nl(text@, start as int) == spec_first_nl(text@, k as int),
            decreases n - k,
        {
            k = k + 1;
        }
        let line_end = k;
        proof {
            lemma_first_nl_bounds(text@, line_end as int);
        }
        let mut f: usize = start;
        while f < line_end && is_ws(text.get_char(f))
            invariant
                start <= f <= line_end <= n,
                n == text@.len(),
                spec_trim_front(text@.subrange(start as int, line_end as int)) == spec_trim_front(
                    text@.subrange(f as int, line_end as int),
                ),
            decreases line_end - f,
        {
            proof {
                assert(text@.subrange(f as int, line_end as int).drop_first() =~= text@.subrange(
                    f as int + 1,
                    line_end as int,
                ));
            }
            f = f + 1;
        }
        proof {
            assert(spec_trim_front(text@.subrange(f as int, line_end as int)) == text@.subrange(
                f as int,
                line_end as int,
            ));
        }
        let mut b: usize = line_end;
        while b > f && is_ws(text.get_char(b - 1))
            invariant
                f <= b <= line_end <= n,
                n == text@.len(),
                spec_trim_back(text@.subrange(f as int, line_end as int)) == spec_trim_back(
                    text@.subrange(f as int, b as int),
                ),
            decreases b - f,
        {
            proof {
                assert(text@.subrange(f as int, b as int).drop_last() =~= text@.subrange(
                    f as int,
                    b as int - 1,
                ));
            }
            b = b - 1;
        }
        proof {
            assert(spec_trim_back(text@.subrange(f as int, b as int)) == text@.subrange(
                f as int,
                b as int,
            ));
            assert(spec_trim(text@.subrange(start as int, line_end as int)) == text@.subrange(
                f as int,
                b as int,
            ));
        }
        let ghost pre_result = result@;
        let seg = text.substring_char(f, b);
        result.append(seg);
        result.append(" ");
        if line_end == n {
            proof {
                assert(spec_first_nl(text@, start as int) == -1);
                assert(text@.skip(start as int) =~= text@.subrange(start as int, line_end as int));
                assert(spec_simplify_from(text@, start as int) == spec_trim(
                    text@.subrange(start as int, line_end as int),
                ) + " "@);
                assert(pre_result + (text@.subrange(f as int, b as int) + " "@) =~= (pre_result
                    + text@.subrange(f as int, b as int)) + " "@);
            }
            return result;
        }
        proof {
            assert(spec_first_nl(text@, start as int) == line_end as int);
            assert(spec_simplify_from(text@, start as int) == spec_trim(
                text@.subrange(start as int, line_end as int),
            ) + " "@ + spec_simplify_from(text@, line_end as int + 1));
            assert(pre_result + (spec_trim(text@.subrange(start as int, line_end as int)) + " "@
                + spec_simplify_from(text@, line_end as int + 1)) =~= ((pre_result
                + text@.subrange(f as int, b as int)) + " "@) + spec_simplify_from(
                text@,
                line_end as int + 1,
            ));
        }
        start = line_end + 1;
    }
}

/// What compiling a token tree yields: the generated code, or the
/// first structural error.
pub open spec fn spec_ndarray_make(ts: Seq<TokenModel>) -> Result<Seq<OutModel>, CompileError> {
    match spec_parse(ts) {
        ParseOutcome::Failed { err } => Err(err),
        ParseOutcome::Parsed { scope, iu, tu } => Ok(spec_sequentialize(scope, iu, tu)),
    }
}

/// Compile a token tree: parse, analyze, and lower it to generated
/// code, or report the first structural error.
pub fn ndarray_make(input: Vec<Token>) -> (r: Result<Vec<OutTok>, CompileError>)
    ensures
        ({
            let out = spec_ndarray_make(tokens_model(input@));
            match r {
                Ok(code) => out == Ok::<_, CompileError>(outs_model(code@)),
                Err(e) => out == Err::<Seq<OutModel>, _>(e),
            }
        }),
{
    match parse(input) {
        Err(e) => Err(e),
        Ok((sequence, index_use, tensor_use)) => Ok(
            sequentialize(sequence, index_use, tensor_use),
        ),
    }
}

/// What rendering a compilation yields: the generated code as
/// flattened, whitespace-normalized text.
pub open spec fn spec_format_for_make(ts: Seq<TokenModel>) -> Result<Seq<char>, CompileError> {
    match spec_ndarray_make(ts) {
        Err(e) => Err(e),
        Ok(code) => Ok(spec_simplify(spec_render_stream(code))),
    }
}

/// Compile a token tree and render the generated code as a single
/// line of text, for tooling and snapshot tests.
pub fn ndarray_format_for_make(input: Vec<Token>) -> (r: Result<String, CompileError>)
    ensures
        ({
            let out = spec_format_for_make(tokens_model(input@));
            match r {
                Ok(text) => out == Ok::<_, CompileError>(text@),
                Err(e) => out == Err::<Seq<char>, _>(e),
            }
        }),
{
    match ndarray_make(input) {
        Err(e) => Err(e),
        Ok(code) => {
            let text = render(&code);
            Ok(simplify(text.as_str()))
        },
    }
}

/// Law: compilation is deterministic.  [`ndarray_make`] and
/// [`ndarray_format_for_make`] each pin their result to a
/// specification function of the input token tree alone, so compiling
/// the same token tree twice yields byte-identical generated code,
/// including the order of the header's dimension bindings.
pub proof fn lemma_compile_deterministic(a: Seq<TokenModel>, b: Seq<TokenModel>)
    requires
        a == b,
    ensures
        spec_ndarray_make(a) == spec_ndarray_make(b),
        spec_format_for_make(a) == spec_format_for_make(b),
{
}

} // verus!
