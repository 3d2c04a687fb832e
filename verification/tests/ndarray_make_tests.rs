use tensorism::ndarray_format_for_make;
use tensorism::tokens::{Delim, Token};

fn ident(name: &str) -> Token {
    Token::Ident { name: name.to_string(), pos: 0 }
}

fn punct(ch: &str) -> Token {
    Token::Punct { ch: ch.to_string(), pos: 0 }
}

fn group(delim: Delim, tokens: Vec<Token>) -> Token {
    Token::Group { delim, tokens, pos: 0 }
}

#[test]
fn format_make_macro_with_single_tensor() {
    // (i j $ a[i, j] + i as f64).sum()
    let input = vec![
        group(
            Delim::Paren,
            vec![
                ident("i"),
                ident("j"),
                punct("$"),
                ident("a"),
                group(Delim::Bracket, vec![ident("i"), punct(","), ident("j")]),
                punct("+"),
                ident("i"),
                ident("as"),
                ident("f64"),
            ],
        ),
        punct("."),
        ident("sum"),
        group(Delim::Paren, vec![]),
    ];
    let string = ndarray_format_for_make(input).unwrap();
    assert_eq!(
        "{ \
            let i_dimension : usize = :: ndarray :: ArrayBase :: < _, _ > :: dim(& a).0; \
            let j_dimension : usize = :: ndarray :: ArrayBase :: < _, _ > :: dim(& a).1; \
            ((0usize .. i_dimension).flat_map(move | i | (0usize .. j_dimension).map(move | j | (i, j,)))\
            .map(| (i, j,) | { (* unsafe { a.uget((i, j,)) }) + i as f64 })).sum() \
        } ",
        string
    );
}

#[test]
fn format_make_macro_with_dimensions_consistency() {
    // i $ (j $ a[i, j] + b[j])
    let input = vec![
        ident("i"),
        punct("$"),
        group(
            Delim::Paren,
            vec![
                ident("j"),
                punct("$"),
                ident("a"),
                group(Delim::Bracket, vec![ident("i"), punct(","), ident("j")]),
                punct("+"),
                ident("b"),
                group(Delim::Bracket, vec![ident("j")]),
            ],
        ),
    ];
    let string = ndarray_format_for_make(input).unwrap();
    assert_eq!(
        "{ \
            let i_dimension : usize = :: ndarray :: ArrayBase :: < _, _ > :: dim(& a).0; \
            let j_dimension : usize = :: ndarray :: ArrayBase :: < _, _ > :: dim(& a).1; \
            { \
                let first : usize = :: ndarray :: ArrayBase :: < _, _ > :: dim(& a).1; \
                let second : usize = :: ndarray :: ArrayBase :: < _, _ > :: dim(& b); \
                if first != second { panic! (\"Non matching dimensions\") } \
            } \
            :: ndarray :: Array :: < _, :: ndarray :: Dim < [:: ndarray :: Ix; 1usize] >> :: from_shape_fn((i_dimension,), | (i,) | { \
                ((0usize .. j_dimension).map(move | j | (j,))\
                .map(| (j,) | { (* unsafe { a.uget((i, j,)) }) + (* unsafe { b.uget(j) }) })) \
            }) \
        } ",
        string);
}
