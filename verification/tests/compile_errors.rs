use tensorism::ndarray_format_for_make;
use tensorism::ndarray_make;
use tensorism::simplify;
use tensorism::tokens::{Delim, Token};
use tensorism::types::CompileErrorKind;

fn ident(name: &str) -> Token {
    Token::Ident { name: name.to_string(), pos: 0 }
}

fn ident_at(name: &str, pos: usize) -> Token {
    Token::Ident { name: name.to_string(), pos }
}

fn punct(ch: &str) -> Token {
    Token::Punct { ch: ch.to_string(), pos: 0 }
}

fn punct_at(ch: &str, pos: usize) -> Token {
    Token::Punct { ch: ch.to_string(), pos }
}

fn literal(text: &str) -> Token {
    Token::Literal { text: text.to_string(), pos: 0 }
}

fn group(delim: Delim, tokens: Vec<Token>) -> Token {
    Token::Group { delim, tokens, pos: 0 }
}

#[test]
fn reused_index_name_is_rejected() {
    // i i $ a[i]
    let input = vec![
        ident("i"),
        ident_at("i", 2),
        punct("$"),
        ident("a"),
        group(Delim::Bracket, vec![ident("i")]),
    ];
    let err = ndarray_make(input).unwrap_err();
    assert_eq!(CompileErrorKind::ReusedIndexName, err.kind);
    assert_eq!("Illegal reused index name", err.message());
}

#[test]
fn inconsistent_index_count_is_rejected() {
    // i j $ a[i] + a[i, j]
    let input = vec![
        ident("i"),
        ident("j"),
        punct("$"),
        ident("a"),
        group(Delim::Bracket, vec![ident("i")]),
        punct("+"),
        ident("a"),
        group(Delim::Bracket, vec![ident("i"), punct(","), ident("j")]),
    ];
    let err = ndarray_make(input).unwrap_err();
    assert_eq!(CompileErrorKind::InconsistentIndexCount, err.kind);
    assert_eq!("Inconsistent number of indexes.", err.message());
}

#[test]
fn semicolon_is_forbidden() {
    let input = vec![ident("a"), punct_at(";", 7), ident("b")];
    let err = ndarray_make(input).unwrap_err();
    assert_eq!(CompileErrorKind::ForbiddenSemicolon, err.kind);
    assert_eq!(7, err.pos);
    assert_eq!("Character ';' is forbidden", err.message());
}

#[test]
fn braces_are_forbidden_at_any_depth() {
    // i $ (a + { b })
    let input = vec![
        ident("i"),
        punct("$"),
        group(
            Delim::Paren,
            vec![ident("a"), punct("+"), group(Delim::Brace, vec![ident("b")])],
        ),
    ];
    let err = ndarray_make(input).unwrap_err();
    assert_eq!(CompileErrorKind::ForbiddenBrace, err.kind);
    assert_eq!("Characters '{' and '}' are forbidden", err.message());
}

#[test]
fn undeclared_index_is_rejected() {
    // i $ a[j]
    let input = vec![
        ident("i"),
        punct("$"),
        ident("a"),
        group(Delim::Bracket, vec![ident_at("j", 5)]),
    ];
    let err = ndarray_make(input).unwrap_err();
    assert_eq!(CompileErrorKind::UndeclaredIndex, err.kind);
    assert_eq!(5, err.pos);
    assert_eq!("Undeclared index", err.message());
}

#[test]
fn subscript_without_a_name_is_rejected() {
    let input = vec![punct("+"), group(Delim::Bracket, vec![ident("i")])];
    let err = ndarray_make(input).unwrap_err();
    assert_eq!(CompileErrorKind::TensorNameExpected, err.kind);
    assert_eq!("Invalid tensor name: an identifier was expected", err.message());
}

#[test]
fn subscripts_hold_identifiers_only() {
    // i $ a[1]
    let input = vec![
        ident("i"),
        punct("$"),
        ident("a"),
        group(Delim::Bracket, vec![literal("1")]),
    ];
    let err = ndarray_make(input).unwrap_err();
    assert_eq!(CompileErrorKind::InvalidIndexContent, err.kind);
    assert_eq!("Invalid content in indexes", err.message());
}

#[test]
fn whole_unit_binder_compiles_to_array_construction() {
    // i j $ a[i, j] + b[j]: the header binds i from a's first axis and
    // j from a's second, checks a's second axis against b's only axis,
    // and the body builds a new array over (i_dimension, j_dimension).
    let input = vec![
        ident("i"),
        ident("j"),
        punct("$"),
        ident("a"),
        group(Delim::Bracket, vec![ident("i"), punct(","), ident("j")]),
        punct("+"),
        ident("b"),
        group(Delim::Bracket, vec![ident("j")]),
    ];
    let string = ndarray_format_for_make(input).unwrap();
    assert_eq!(
        "{ \
            let i_dimension : usize = :: ndarray :: ArrayBase :: < _, _ > :: dim(& a).0; \
            let j_dimension : usize = :: ndarray :: ArrayBase :: < _, _ > :: dim(& a).1; \
            { \
                let first : usize = :: ndarray :: ArrayBase :: < _, _ > :: dim(& a).1; \
                let second : usize = :: ndarray :: ArrayBase :: < _, _ > :: dim(& b); \
                if first != second { panic! (\"Non matching dimensions\") } \
            } \
            :: ndarray :: Array :: < _, :: ndarray :: Dim < [:: ndarray :: Ix; 2usize] >> :: from_shape_fn((i_dimension, j_dimension,), \
            | (i, j,) | { (* unsafe { a.uget((i, j,)) }) + (* unsafe { b.uget(j) }) }) \
        } ",
        string
    );
}

#[test]
fn nested_binders_compile_to_lazy_sequences() {
    // sum(i $ min(j $ a[i, j])): both binders sit inside calls, so the
    // unit stays in expression mode and no new array is constructed.
    let input = vec![
        ident("sum"),
        group(
            Delim::Paren,
            vec![
                ident("i"),
                punct("$"),
                ident("min"),
                group(
                    Delim::Paren,
                    vec![
                        ident("j"),
                        punct("$"),
                        ident("a"),
                        group(Delim::Bracket, vec![ident("i"), punct(","), ident("j")]),
                    ],
                ),
            ],
        ),
    ];
    let string = ndarray_format_for_make(input).unwrap();
    assert!(!string.contains("from_shape_fn"));
    assert!(string.contains("flat_map") || string.contains(".map("));
    assert!(string.contains("(* unsafe { a.uget((i, j,)) })"));
}

#[test]
fn compiling_needs_no_shapes() {
    // the same expression compiles whatever sizes the arrays will have
    // at run time: the generated header checks them then.
    let input = vec![
        ident("i"),
        ident("j"),
        punct("$"),
        ident("a"),
        group(Delim::Bracket, vec![ident("i"), punct(","), ident("j")]),
        punct("+"),
        ident("b"),
        group(Delim::Bracket, vec![ident("j")]),
    ];
    let result = ndarray_make(input);
    assert!(result.is_ok());
    let code = result.unwrap();
    assert_eq!(1, code.len());
}

#[test]
fn simplify_flattens_lines() {
    assert_eq!("a b ", simplify("  a\n b "));
    assert_eq!(" ", simplify(""));
    assert_eq!("x ", simplify("x"));
}

#[test]
fn empty_input_compiles_to_an_empty_unit() {
    assert_eq!("{} ", ndarray_format_for_make(vec![]).unwrap());
}

#[test]
fn compiling_twice_yields_identical_text() {
    let build = || {
        vec![
            ident("i"),
            punct("$"),
            ident("a"),
            group(Delim::Bracket, vec![ident("i")]),
        ]
    };
    let first = ndarray_format_for_make(build()).unwrap();
    let second = ndarray_format_for_make(build()).unwrap();
    assert_eq!(first, second);
}
