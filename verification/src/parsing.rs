//! The scope parser: one left-to-right pass over the token tree,
//! recursive on nested groups, that builds the scope tree and fills
//! the two registries, failing fast on the first structural error.
//!
//! Every executable function here is proved to return exactly what the
//! specification-level parser [`spec_parse`] describes, so parsing is
//! a mathematical function of the input tokens.

use vstd::prelude::*;

use crate::tokens::{
    Delim, Token, TokenModel, lemma_size_of_token_pos, lemma_tokens_model_len, size_of_token,
    size_of_tokens, string_is, token_model, tokens_model,
};
use crate::types::{
    CompileError, CompileErrorKind, ElemModel, EntryModel, FuncModel, IdentModel, IdentTok,
    IndexUse,
    IndexUseModel, RicciAlternative, RicciFunction, RicciSequence, ScopeModel, TensorUse,
    TensorUseModel, elem_model, ident_names, ids_view, lemma_elems_model_drop_last,
    lemma_elems_model_len, lemma_find_entry_props, lemma_find_order_props, names_view,
    spec_declare, spec_extract_identifiers, spec_find_entry, spec_find_order, spec_get_order,
    spec_push_site, spec_update_order,
};

verus! {

/// What a parse returns: the finished scope tree and registries, or
/// the first structural error.
pub enum ParseOutcome {
    Parsed { scope: ScopeModel, iu: IndexUseModel, tu: TensorUseModel },
    Failed { err: CompileError },
}

// ---------------------------------------------------------------------
// Specification-level parser
// ---------------------------------------------------------------------
/// Read a subscript list: identifiers separated by commas, nothing
/// else.  Any other content is reported at the group's position.
pub open spec fn spec_collect_indexes(ts: Seq<TokenModel>, group_pos: usize) -> Result<
    Seq<IdentModel>,
    CompileError,
>
    decreases ts.len(),
{
    if ts.len() == 0 {
        Ok(Seq::empty())
    } else {
        match ts[0] {
            TokenModel::Ident { name, pos } => match spec_collect_indexes(
                ts.drop_first(),
                group_pos,
            ) {
                Ok(rest) => Ok(seq![IdentModel { name, pos }] + rest),
                Err(e) => Err(e),
            },
            TokenModel::Punct { ch, pos } => if ch == ","@ {
                spec_collect_indexes(ts.drop_first(), group_pos)
            } else {
                Err(CompileError { kind: CompileErrorKind::InvalidIndexContent, pos: group_pos })
            },
            _ => Err(CompileError { kind: CompileErrorKind::InvalidIndexContent, pos: group_pos }),
        }
    }
}

/// Declare the binder's indexes one after the other, failing on the
/// first name already declared.
pub open spec fn spec_declare_all(m: IndexUseModel, ids: Seq<IdentModel>, i: int) -> Result<
    IndexUseModel,
    CompileError,
>
    decreases ids.len() - i,
{
    if i < 0 || i >= ids.len() {
        Ok(m)
    } else {
        let (ok, m2) = spec_declare(m, ids[i].name);
        if !ok {
            Err(CompileError { kind: CompileErrorKind::ReusedIndexName, pos: ids[i].pos })
        } else {
            spec_declare_all(m2, ids, i + 1)
        }
    }
}

/// Record each subscript as a usage site of its index, failing on the
/// first index that no enclosing binder declared.
pub open spec fn spec_push_all(
    m: IndexUseModel,
    ids: Seq<IdentModel>,
    tensor: Seq<char>,
    i: int,
) -> Result<IndexUseModel, CompileError>
    decreases ids.len() - i,
{
    if i < 0 || i >= ids.len() {
        Ok(m)
    } else {
        let (ok, m2) = spec_push_site(m, ids[i].name, tensor, i as usize);
        if !ok {
            Err(CompileError { kind: CompileErrorKind::UndeclaredIndex, pos: ids[i].pos })
        } else {
            spec_push_all(m2, ids, tensor, i + 1)
        }
    }
}

/// The parser itself, consuming `ts` into `scope`.
pub open spec fn spec_parse_seq(
    ts: Seq<TokenModel>,
    scope: ScopeModel,
    iu: IndexUseModel,
    tu: TensorUseModel,
) -> ParseOutcome
    decreases size_of_tokens(ts),
{
    if ts.len() == 0 {
        ParseOutcome::Parsed { scope, iu, tu }
    } else {
        proof {
            lemma_size_of_first(ts);
        }
        let rest = ts.drop_first();
        match ts[0] {
            TokenModel::Ident { .. } => spec_parse_seq(
                rest,
                ScopeModel { content: scope.content.push(ElemModel::Tree(ts[0])), ..scope },
                iu,
                tu,
            ),
            TokenModel::Literal { .. } => spec_parse_seq(
                rest,
                ScopeModel { content: scope.content.push(ElemModel::Tree(ts[0])), ..scope },
                iu,
                tu,
            ),
            TokenModel::Punct { ch, pos } => if ch == ";"@ {
                ParseOutcome::Failed {
                    err: CompileError { kind: CompileErrorKind::ForbiddenSemicolon, pos },
                }
            } else if ch == "$"@ {
                let (inverted, kept) = spec_extract_identifiers(scope.content);
                match spec_declare_all(iu, inverted.reverse(), 0) {
                    Err(e) => ParseOutcome::Failed { err: e },
                    Ok(iu2) => {
                        let body0 = ScopeModel { pos, parens: false, content: Seq::empty() };
                        match spec_parse_seq(rest, body0, iu2, tu) {
                            ParseOutcome::Failed { err } => ParseOutcome::Failed { err },
                            ParseOutcome::Parsed { scope: body, iu: iu3, tu: tu3 } => {
                                ParseOutcome::Parsed {
                                    scope: ScopeModel {
                                        content: kept.push(
                                            ElemModel::Func(FuncModel { inverted, body }),
                                        ),
                                        ..scope
                                    },
                                    iu: iu3,
                                    tu: tu3,
                                }
                            },
                        }
                    },
                }
            } else {
                spec_parse_seq(
                    rest,
                    ScopeModel { content: scope.content.push(ElemModel::Tree(ts[0])), ..scope },
                    iu,
                    tu,
                )
            },
            TokenModel::Group { delim, tokens: inner, pos } => match delim {
                Delim::Brace => ParseOutcome::Failed {
                    err: CompileError { kind: CompileErrorKind::ForbiddenBrace, pos },
                },
                Delim::Bracket => {
                    if scope.content.len() > 0 && scope.content.last() is Tree
                        && scope.content.last()->Tree_0 is Ident {
                        let name_tok = scope.content.last()->Tree_0;
                        let tensor = name_tok->Ident_name;
                        let name_pos = name_tok->Ident_pos;
                        match spec_collect_indexes(inner, pos) {
                            Err(e) => ParseOutcome::Failed { err: e },
                            Ok(ids) => match spec_push_all(iu, ids, tensor, 0) {
                                Err(e) => ParseOutcome::Failed { err: e },
                                Ok(iu2) => {
                                    let (consistent, tu2) = spec_update_order(
                                        tu,
                                        tensor,
                                        ids.len() as usize,
                                    );
                                    if !consistent {
                                        ParseOutcome::Failed {
                                            err: CompileError {
                                                kind: CompileErrorKind::InconsistentIndexCount,
                                                pos: name_pos,
                                            },
                                        }
                                    } else {
                                        let access = ElemModel::Access {
                                            tensor,
                                            pos,
                                            indexes: ident_names(ids),
                                        };
                                        spec_parse_seq(
                                            rest,
                                            ScopeModel {
                                                content: scope.content.drop_last().push(access),
                                                ..scope
                                            },
                                            iu2,
                                            tu2,
                                        )
                                    }
                                },
                            },
                        }
                    } else {
                        ParseOutcome::Failed {
                            err: CompileError { kind: CompileErrorKind::TensorNameExpected, pos },
                        }
                    }
                },
                _ => {
                    let sub0 = ScopeModel { pos, parens: delim is Paren, content: Seq::empty() };
                    match spec_parse_seq(inner, sub0, iu, tu) {
                        ParseOutcome::Failed { err } => ParseOutcome::Failed { err },
                        ParseOutcome::Parsed { scope: sub, iu: iu2, tu: tu2 } => spec_parse_seq(
                            rest,
                            ScopeModel {
                                content: scope.content.push(ElemModel::Nested(sub)),
                                ..scope
                            },
                            iu2,
                            tu2,
                        ),
                    }
                },
            },
        }
    }
}

/// Size facts used for the parser's termination.
pub proof fn lemma_size_of_first(ts: Seq<TokenModel>)
    requires
        ts.len() > 0,
    ensures
        size_of_tokens(ts) == size_of_token(ts[0]) + size_of_tokens(ts.drop_first()),
        size_of_token(ts[0]) >= 1,
        ts[0] is Group ==> size_of_token(ts[0]) == 1 + size_of_tokens(ts[0]->tokens),
{
    lemma_size_of_token_pos(ts[0]);
}

/// Parse a whole compilation unit.
pub open spec fn spec_parse(ts: Seq<TokenModel>) -> ParseOutcome {
    spec_parse_seq(
        ts,
        ScopeModel { pos: 0, parens: false, content: Seq::empty() },
        IndexUseModel { entries: Seq::empty() },
        TensorUseModel { orders: Seq::empty() },
    )
}

// ---------------------------------------------------------------------
// Executable parser
// ---------------------------------------------------------------------
/// Read the contents of a `[ ... ]` subscript group.
fn parse_tensor_indexing(tokens: &Vec<Token>, group_pos: usize) -> (r: Result<
    Vec<IdentTok>,
    CompileError,
>)
    ensures
        ({
            let out = spec_collect_indexes(tokens_model(tokens@), group_pos);
            match r {
                Ok(ids) => out == Ok::<_, CompileError>(ids_view(ids@)),
                Err(e) => out == Err::<Seq<IdentModel>, _>(e),
            }
        }),
{
    let ghost ts = tokens_model(tokens@);
    proof {
        lemma_tokens_model_len(tokens@);
    }
    let mut ids: Vec<IdentTok> = Vec::new();
    let mut i: usize = 0;
    proof {
        assert(ids_view(ids@) =~= Seq::<IdentModel>::empty());
        assert(ts.skip(0) =~= ts);
    }
    while i < tokens.len()
        invariant
            i <= tokens.len(),
            ts == tokens_model(tokens@),
            ts.len() == tokens@.len(),
            forall|j: int| 0 <= j < tokens@.len() ==> ts[j] == token_model(tokens@[j]),
            spec_collect_indexes(ts, group_pos) == (match spec_collect_indexes(
                ts.skip(i as int),
                group_pos,
            ) {
                Ok(rest) => Ok::<_, CompileError>(ids_view(ids@) + rest),
                Err(e) => Err::<Seq<IdentModel>, _>(e),
            }),
        decreases tokens.len() - i,
    {
        let ghost suffix = ts.skip(i as int);
        proof {
            assert(suffix[0] == ts[i as int]);
            assert(suffix.drop_first() =~= ts.skip(i as int + 1));
        }
        match &tokens[i] {
            Token::Ident { name, pos } => {
                let ghost pre = ids@;
                ids.push(IdentTok { name: name.clone(), pos: *pos });
                proof {
                    assert(ids_view(ids@) =~= ids_view(pre).push(
                        IdentModel { name: name@, pos: *pos },
                    ));
                    if spec_collect_indexes(suffix.drop_first(), group_pos) is Ok {
                        let rest = spec_collect_indexes(suffix.drop_first(), group_pos)->Ok_0;
                        assert(ids_view(pre) + (seq![
                            IdentModel { name: name@, pos: *pos },
                        ] + rest) =~= ids_view(ids@) + rest);
                    }
                }
            },
            Token::Punct { ch, pos } => {
                if !string_is(ch, ",") {
                    return Err(
                        CompileError { kind: CompileErrorKind::InvalidIndexContent, pos: group_pos },
                    );
                }
            },
            _ => {
                return Err(
                    CompileError { kind: CompileErrorKind::InvalidIndexContent, pos: group_pos },
                );
            },
        }
        i = i + 1;
    }
    proof {
        assert(ts.skip(i as int).len() == 0);
        assert(ids_view(ids@) + Seq::<IdentModel>::empty() =~= ids@.map_values(
            |t: IdentTok| t@,
        ));
    }
    Ok(ids)
}

/// Declare a binder's extracted indexes, in declaration order (the
/// extracted list arrives reversed).
fn declare_all(iu: &mut IndexUse, inverted: &Vec<IdentTok>) -> (r: Option<CompileError>)
    ensures
        ({
            let out = spec_declare_all(old(iu)@, ids_view(inverted@).reverse(), 0);
            match r {
                None => out == Ok::<_, CompileError>(final(iu)@),
                Some(e) => out == Err::<IndexUseModel, _>(e),
            }
        }),
{
    let ghost m0 = iu@;
    let ghost ids = ids_view(inverted@).reverse();
    let n: usize = inverted.len();
    let mut k: usize = 0;
    proof {
        assert(m0 == old(iu)@);
        assert(ids.len() == n);
    }
    while k < n
        invariant
            k <= n,
            n == inverted.len(),
            ids == ids_view(inverted@).reverse(),
            ids.len() == n,
            spec_declare_all(m0, ids, 0) == spec_declare_all(iu@, ids, k as int),
            m0 == old(iu)@,
        decreases n - k,
    {
        let idx = n - 1 - k;
        proof {
            assert(ids_view(inverted@)[idx as int] == inverted@[idx as int]@);
            assert(ids[k as int] == inverted@[idx as int]@);
        }
        let ghost pre_m = iu@;
        let added = iu.declare_new(inverted[idx].name.clone());
        proof {
            assert(spec_declare(pre_m, ids[k as int].name) == (added, iu@));
            if !added {
                assert(spec_declare_all(pre_m, ids, k as int) == Err::<IndexUseModel, _>(
                    CompileError {
                        kind: CompileErrorKind::ReusedIndexName,
                        pos: ids[k as int].pos,
                    },
                ));
            } else {
                assert(spec_declare_all(pre_m, ids, k as int) == spec_declare_all(
                    iu@,
                    ids,
                    k as int + 1,
                ));
            }
        }
        if !added {
            return Some(
                CompileError { kind: CompileErrorKind::ReusedIndexName, pos: inverted[idx].pos },
            );
        }
        k = k + 1;
    }
    None
}

/// Record every subscript of one tensor access in the index registry.
fn push_all(iu: &mut IndexUse, ids: &Vec<IdentTok>, tensor: &String) -> (r: Option<CompileError>)
    ensures
        ({
            let out = spec_push_all(old(iu)@, ids_view(ids@), tensor@, 0);
            match r {
                None => out == Ok::<_, CompileError>(final(iu)@),
                Some(e) => out == Err::<IndexUseModel, _>(e),
            }
        }),
{
    let ghost m0 = iu@;
    let ghost gids = ids_view(ids@);
    let mut k: usize = 0;
    proof {
        assert(m0 == old(iu)@);
    }
    while k < ids.len()
        invariant
            k <= ids.len(),
            gids == ids_view(ids@),
            gids.len() == ids@.len(),
            spec_push_all(m0, gids, tensor@, 0) == spec_push_all(iu@, gids, tensor@, k as int),
            m0 == old(iu)@,
        decreases ids.len() - k,
    {
        proof {
            assert(gids[k as int] == ids@[k as int]@);
        }
        let ghost pre_m = iu@;
        let added = iu.push(ids[k].name.clone(), tensor.clone(), k);
        proof {
            assert(spec_push_site(pre_m, gids[k as int].name, tensor@, k) == (added, iu@));
            if !added {
                assert(spec_push_all(pre_m, gids, tensor@, k as int) == Err::<IndexUseModel, _>(
                    CompileError {
                        kind: CompileErrorKind::UndeclaredIndex,
                        pos: gids[k as int].pos,
                    },
                ));
            } else {
                assert(spec_push_all(pre_m, gids, tensor@, k as int) == spec_push_all(
                    iu@,
                    gids,
                    tensor@,
                    k as int + 1,
                ));
            }
        }
        if !added {
            return Some(
                CompileError { kind: CompileErrorKind::UndeclaredIndex, pos: ids[k].pos },
            );
        }
        k = k + 1;
    }
    None
}

/// Consume `tokens` into `scope`, filling the registries.
fn parse_sequence(
    tokens: Vec<Token>,
    scope: RicciSequence,
    iu: IndexUse,
    tu: TensorUse,
) -> (r: Result<(RicciSequence, IndexUse, TensorUse), CompileError>)
    ensures
        ({
            let out = spec_parse_seq(tokens_model(tokens@), scope@, iu@, tu@);
            match r {
                Ok(t) => out == (ParseOutcome::Parsed { scope: t.0@, iu: t.1@, tu: t.2@ }),
                Err(e) => out == (ParseOutcome::Failed { err: e }),
            }
        }),
    decreases size_of_tokens(tokens_model(tokens@)),
{
    let ghost ts = tokens_model(tokens@);
    let ghost gscope = scope@;
    let ghost giu = iu@;
    let ghost gtu = tu@;
    proof {
        lemma_tokens_model_len(tokens@);
    }
    let mut tokens = tokens;
    let mut scope = scope;
    if tokens.len() == 0 {
        return Ok((scope, iu, tu));
    }
    proof {
        lemma_size_of_first(ts);
    }
    let ghost toks0 = tokens@;
    let t = tokens.remove(0);
    let ghost t0 = ts[0];
    proof {
        assert(token_model(t) == t0);
        assert(toks0.remove(0) =~= toks0.drop_first());
        lemma_tokens_model_len(tokens@);
        assert(tokens_model(tokens@) =~= ts.drop_first());
    }
    match t {
        Token::Ident { name, pos } => {
            scope.push_token(Token::Ident { name, pos });
            parse_sequence(tokens, scope, iu, tu)
        },
        Token::Literal { text, pos } => {
            scope.push_token(Token::Literal { text, pos });
            parse_sequence(tokens, scope, iu, tu)
        },
        Token::Punct { ch, pos } => {
            if string_is(&ch, ";") {
                Err(CompileError { kind: CompileErrorKind::ForbiddenSemicolon, pos })
            } else if string_is(&ch, "$") {
                let inverted = scope.extract_previous_identifiers();
                let ghost ids = ids_view(inverted@);
                proof {
                    assert(spec_extract_identifiers(gscope.content).0 == ids);
                    assert(spec_extract_identifiers(gscope.content).1 == scope@.content);
                }
                let mut iu = iu;
                match declare_all(&mut iu, &inverted) {
                    Some(e) => Err(e),
                    None => {
                        let body0 = RicciSequence::naked(pos);
                        match parse_sequence(tokens, body0, iu, tu) {
                            Err(e) => Err(e),
                            Ok((body, iu3, tu3)) => {
                                let func = RicciFunction::new(inverted, body);
                                scope.push_element(RicciAlternative::Func(func));
                                Ok((scope, iu3, tu3))
                            },
                        }
                    },
                }
            } else {
                scope.push_token(Token::Punct { ch, pos });
                parse_sequence(tokens, scope, iu, tu)
            }
        },
        Token::Group { delim, tokens: inner, pos } => {
            match delim {
                Delim::Brace => Err(
                    CompileError { kind: CompileErrorKind::ForbiddenBrace, pos },
                ),
                Delim::Bracket => {
                    let ghost content0 = scope.content@;
                    proof {
                        lemma_elems_model_len(content0);
                    }
                    let popped = scope.content.pop();
                    match popped {
                        Some(RicciAlternative::Tree(Token::Ident { name, pos: name_pos })) => {
                            proof {
                                lemma_elems_model_drop_last(content0);
                                assert(gscope.content.last() == elem_model(
                                    RicciAlternative::Tree(
                                        Token::Ident { name: name, pos: name_pos },
                                    ),
                                ));
                                assert(scope@.content == gscope.content.drop_last());
                            }
                            match parse_tensor_indexing(&inner, pos) {
                                Err(e) => Err(e),
                                Ok(ids) => {
                                    let ghost gids = ids_view(ids@);
                                    let mut iu = iu;
                                    match push_all(&mut iu, &ids, &name) {
                                        Some(e) => Err(e),
                                        None => {
                                            let mut tu = tu;
                                            let consistent = tu.update_order(&name, ids.len());
                                            if !consistent {
                                                Err(
                                                    CompileError {
                                                        kind:
                                                            CompileErrorKind::InconsistentIndexCount,
                                                        pos: name_pos,
                                                    },
                                                )
                                            } else {
                                                let mut names: Vec<String> = Vec::new();
                                                let mut k: usize = 0;
                                                while k < ids.len()
                                                    invariant
                                                        k <= ids.len(),
                                                        names@.len() == k,
                                                        forall|j: int|
                                                            0 <= j < k ==> names@[j]@ == ids@[j]@.name,
                                                    decreases ids.len() - k,
                                                {
                                                    names.push(ids[k].name.clone());
                                                    k = k + 1;
                                                }
                                                proof {
                                                    assert(names_view(names@)
                                                        =~= ident_names(gids));
                                                }
                                                scope.push_element(
                                                    RicciAlternative::TensorAccess {
                                                        tensor_name: name,
                                                        pos,
                                                        indexes: names,
                                                    },
                                                );
                                                parse_sequence(tokens, scope, iu, tu)
                                            }
                                        },
                                    }
                                },
                            }
                        },
                        Some(other) => {
                            proof {
                                assert(gscope.content.last() == elem_model(other));
                                assert(!(gscope.content.last() is Tree && gscope.content.last()
                                    ->Tree_0 is Ident));
                            }
                            Err(CompileError { kind: CompileErrorKind::TensorNameExpected, pos })
                        },
                        None => Err(
                            CompileError { kind: CompileErrorKind::TensorNameExpected, pos },
                        ),
                    }
                },
                _ => {
                    let is_paren = match delim {
                        Delim::Paren => true,
                        _ => false,
                    };
                    let sub0 = if is_paren {
                        RicciSequence::with_parens(pos)
                    } else {
                        RicciSequence::naked(pos)
                    };
                    proof {
                        assert(t0->tokens == tokens_model(inner@));
                    }
                    match parse_sequence(inner, sub0, iu, tu) {
                        Err(e) => Err(e),
                        Ok((sub, iu2, tu2)) => {
                            scope.push_element(RicciAlternative::Nested(sub));
                            parse_sequence(tokens, scope, iu2, tu2)
                        },
                    }
                },
            }
        },
    }
}

/// Parse a whole compilation unit: scope tree plus both registries, or
/// the first structural error.
pub fn parse(input: Vec<Token>) -> (r: Result<(RicciSequence, IndexUse, TensorUse), CompileError>)
    ensures
        ({
            let out = spec_parse(tokens_model(input@));
            match r {
                Ok(t) => out == (ParseOutcome::Parsed { scope: t.0@, iu: t.1@, tu: t.2@ }),
                Err(e) => out == (ParseOutcome::Failed { err: e }),
            }
        }),
{
    let scope = RicciSequence::initial();
    let iu = IndexUse::new();
    let tu = TensorUse::new();
    parse_sequence(input, scope, iu, tu)
}


// ---------------------------------------------------------------------
// Laws
// ---------------------------------------------------------------------
/// A token that may never occur in the input: a semicolon, a brace
/// group, or any group holding one somewhere inside.
pub open spec fn spec_token_forbidden(t: TokenModel) -> bool
    decreases t,
{
    match t {
        TokenModel::Punct { ch, .. } => ch == ";"@,
        TokenModel::Group { delim, tokens, .. } => {
            proof {
                assert(decreases_to!(t => t->tokens));
            }
            delim is Brace || spec_tokens_forbidden(tokens)
        },
        _ => false,
    }
}

pub open spec fn spec_tokens_forbidden(ts: Seq<TokenModel>) -> bool
    decreases ts,
{
    if ts.len() == 0 {
        false
    } else {
        proof {
            assert(decreases_to!(ts => ts[0]));
            assert(decreases_to!(ts => ts.subrange(1, ts.len() as int)));
            assert(ts.drop_first() == ts.subrange(1, ts.len() as int));
        }
        spec_token_forbidden(ts[0]) || spec_tokens_forbidden(ts.drop_first())
    }
}

/// A subscript list holding a forbidden token is always rejected.
proof fn lemma_forbidden_subscripts_fail(ts: Seq<TokenModel>, group_pos: usize)
    requires
        spec_tokens_forbidden(ts),
    ensures
        spec_collect_indexes(ts, group_pos) is Err,
    decreases ts.len(),
{
    let rest = ts.drop_first();
    match ts[0] {
        TokenModel::Ident { .. } => {
            assert(!spec_token_forbidden(ts[0]));
            assert(spec_tokens_forbidden(rest));
            lemma_forbidden_subscripts_fail(rest, group_pos);
        },
        TokenModel::Punct { ch, pos } => {
            if ch == ","@ {
                reveal_strlit(",");
                reveal_strlit(";");
                assert(","@[0] == ',' && ";"@[0] == ';');
                assert(","@ != ";"@);
                assert(!spec_token_forbidden(ts[0]));
                assert(spec_tokens_forbidden(rest));
                lemma_forbidden_subscripts_fail(rest, group_pos);
            }
        },
        _ => {},
    }
}

/// Law: an input holding a `;` or a brace group anywhere, at any
/// nesting depth, never parses; the parser reports a structural
/// error, whatever else the input holds.
pub proof fn lemma_forbidden_tokens_fail(
    ts: Seq<TokenModel>,
    scope: ScopeModel,
    iu: IndexUseModel,
    tu: TensorUseModel,
)
    requires
        spec_tokens_forbidden(ts),
    ensures
        spec_parse_seq(ts, scope, iu, tu) is Failed,
    decreases size_of_tokens(ts),
{
    lemma_size_of_first(ts);
    let rest = ts.drop_first();
    match ts[0] {
        TokenModel::Ident { .. } => {
            assert(!spec_token_forbidden(ts[0]));
            assert(spec_tokens_forbidden(rest));
            lemma_forbidden_tokens_fail(
                rest,
                ScopeModel { content: scope.content.push(ElemModel::Tree(ts[0])), ..scope },
                iu,
                tu,
            );
        },
        TokenModel::Literal { .. } => {
            assert(!spec_token_forbidden(ts[0]));
            assert(spec_tokens_forbidden(rest));
            lemma_forbidden_tokens_fail(
                rest,
                ScopeModel { content: scope.content.push(ElemModel::Tree(ts[0])), ..scope },
                iu,
                tu,
            );
        },
        TokenModel::Punct { ch, pos } => {
            if ch == ";"@ {
            } else if ch == "$"@ {
                assert(!spec_token_forbidden(ts[0]));
                assert(spec_tokens_forbidden(rest));
                let (inverted, kept) = spec_extract_identifiers(scope.content);
                match spec_declare_all(iu, inverted.reverse(), 0) {
                    Err(e) => {},
                    Ok(iu2) => {
                        let body0 = ScopeModel { pos, parens: false, content: Seq::empty() };
                        lemma_forbidden_tokens_fail(rest, body0, iu2, tu);
                    },
                }
            } else {
                assert(!spec_token_forbidden(ts[0]));
                assert(spec_tokens_forbidden(rest));
                lemma_forbidden_tokens_fail(
                    rest,
                    ScopeModel { content: scope.content.push(ElemModel::Tree(ts[0])), ..scope },
                    iu,
                    tu,
                );
            }
        },
        TokenModel::Group { delim, tokens: inner, pos } => {
            match delim {
                Delim::Brace => {},
                Delim::Bracket => {
                    if scope.content.len() > 0 && scope.content.last() is Tree
                        && scope.content.last()->Tree_0 is Ident {
                        let name_tok = scope.content.last()->Tree_0;
                        let tensor = name_tok->Ident_name;
                        if spec_tokens_forbidden(inner) {
                            lemma_forbidden_subscripts_fail(inner, pos);
                        } else {
                            assert(!spec_token_forbidden(ts[0]));
                            assert(spec_tokens_forbidden(rest));
                            match spec_collect_indexes(inner, pos) {
                                Err(e) => {},
                                Ok(ids) => match spec_push_all(iu, ids, tensor, 0) {
                                    Err(e) => {},
                                    Ok(iu2) => {
                                        let (consistent, tu2) = spec_update_order(
                                            tu,
                                            tensor,
                                            ids.len() as usize,
                                        );
                                        if consistent {
                                            let access = ElemModel::Access {
                                                tensor,
                                                pos,
                                                indexes: ident_names(ids),
                                            };
                                            lemma_forbidden_tokens_fail(
                                                rest,
                                                ScopeModel {
                                                    content: scope.content.drop_last().push(access),
                                                    ..scope
                                                },
                                                iu2,
                                                tu2,
                                            );
                                        }
                                    },
                                },
                            }
                        }
                    }
                },
                _ => {
                    let sub0 = ScopeModel { pos, parens: delim is Paren, content: Seq::empty() };
                    if spec_tokens_forbidden(inner) {
                        lemma_forbidden_tokens_fail(inner, sub0, iu, tu);
                    } else {
                        assert(!spec_token_forbidden(ts[0]));
                        assert(spec_tokens_forbidden(rest));
                        match spec_parse_seq(inner, sub0, iu, tu) {
                            ParseOutcome::Failed { err } => {},
                            ParseOutcome::Parsed { scope: sub, iu: iu2, tu: tu2 } => {
                                lemma_forbidden_tokens_fail(
                                    rest,
                                    ScopeModel {
                                        content: scope.content.push(ElemModel::Nested(sub)),
                                        ..scope
                                    },
                                    iu2,
                                    tu2,
                                );
                            },
                        }
                    }
                },
            }
        },
    }
}

/// Law: an input holding a forbidden token never compiles; the whole
/// parse returns a structural error in its place.
pub proof fn lemma_forbidden_tokens_never_parse(ts: Seq<TokenModel>)
    requires
        spec_tokens_forbidden(ts),
    ensures
        spec_parse(ts) is Failed,
{
    lemma_forbidden_tokens_fail(
        ts,
        ScopeModel { pos: 0, parens: false, content: Seq::empty() },
        IndexUseModel { entries: Seq::empty() },
        TensorUseModel { orders: Seq::empty() },
    );
}


// ---------------------------------------------------------------------
// Registry consistency of parsed trees
// ---------------------------------------------------------------------
/// One registry extends another: entries only get appended, and the
/// names already present keep their places.
pub open spec fn iu_extends(a: IndexUseModel, b: IndexUseModel) -> bool {
    a.entries.len() >= b.entries.len() && forall|i: int|
        0 <= i < b.entries.len() ==> a.entries[i].name == #[trigger] b.entries[i].name
}

/// One arity registry extends another: recorded arities are never
/// changed, only new names appended.
pub open spec fn tu_extends(a: TensorUseModel, b: TensorUseModel) -> bool {
    a.orders.len() >= b.orders.len() && forall|i: int|
        0 <= i < b.orders.len() ==> a.orders[i] == #[trigger] b.orders[i]
}

proof fn lemma_find_entry_mono(a: IndexUseModel, b: IndexUseModel, name: Seq<char>, i: int)
    requires
        iu_extends(a, b),
        0 <= i <= b.entries.len(),
        spec_find_entry(b.entries, name, i) >= 0,
    ensures
        spec_find_entry(a.entries, name, i) == spec_find_entry(b.entries, name, i),
    decreases b.entries.len() - i,
{
    if i < b.entries.len() && b.entries[i].name != name {
        lemma_find_entry_mono(a, b, name, i + 1);
    }
}

proof fn lemma_find_order_mono(a: TensorUseModel, b: TensorUseModel, name: Seq<char>, i: int)
    requires
        tu_extends(a, b),
        0 <= i <= b.orders.len(),
        spec_find_order(b.orders, name, i) >= 0,
    ensures
        spec_find_order(a.orders, name, i) == spec_find_order(b.orders, name, i),
        spec_get_order(a, name) == a.orders[spec_find_order(a.orders, name, i)].1 || i > 0,
    decreases b.orders.len() - i,
{
    if i < b.orders.len() && b.orders[i].0 != name {
        lemma_find_order_mono(a, b, name, i + 1);
        if i == 0 {
        }
    }
}

/// Looking an arity up again in an extended registry gives the same
/// answer.
proof fn lemma_order_lookup_mono(a: TensorUseModel, b: TensorUseModel, name: Seq<char>)
    requires
        tu_extends(a, b),
        spec_find_order(b.orders, name, 0) >= 0,
    ensures
        spec_find_order(a.orders, name, 0) >= 0,
        spec_get_order(a, name) == spec_get_order(b, name),
{
    lemma_find_order_mono(a, b, name, 0);
    let k = spec_find_order(b.orders, name, 0);
    lemma_find_order_props(b.orders, name, 0);
    assert(a.orders[k] == b.orders[k]);
}

proof fn lemma_find_entry_appended(entries: Seq<EntryModel>, entry: EntryModel, i: int)
    requires
        0 <= i <= entries.len(),
        spec_find_entry(entries, entry.name, i) < 0,
    ensures
        spec_find_entry(entries.push(entry), entry.name, i) == entries.len(),
    decreases entries.len() - i,
{
    if i < entries.len() {
        assert(entries.push(entry)[i] == entries[i]);
        lemma_find_entry_appended(entries, entry, i + 1);
    } else {
        assert(entries.push(entry)[i] == entry);
    }
}

proof fn lemma_find_order_appended(orders: Seq<(Seq<char>, usize)>, pair: (Seq<char>, usize), i: int)
    requires
        0 <= i <= orders.len(),
        spec_find_order(orders, pair.0, i) < 0,
    ensures
        spec_find_order(orders.push(pair), pair.0, i) == orders.len(),
    decreases orders.len() - i,
{
    if i < orders.len() {
        assert(orders.push(pair)[i] == orders[i]);
        lemma_find_order_appended(orders, pair, i + 1);
    } else {
        assert(orders.push(pair)[i] == pair);
    }
}

/// Declaring a run of indexes only appends entries, and afterwards
/// every one of them is present.
proof fn lemma_declare_all_extends(m: IndexUseModel, ids: Seq<IdentModel>, i: int)
    requires
        0 <= i <= ids.len(),
    ensures
        spec_declare_all(m, ids, i) matches Ok(m2) ==> iu_extends(m2, m) && forall|j: int|
            i <= j < ids.len() ==> spec_find_entry(m2.entries, #[trigger] ids[j].name, 0) >= 0,
    decreases ids.len() - i,
{
    if i < ids.len() {
        let (ok, m2) = spec_declare(m, ids[i].name);
        if ok {
            lemma_declare_all_extends(m2, ids, i + 1);
            match spec_declare_all(m2, ids, i + 1) {
                Ok(m3) => {
                    assert(iu_extends(m2, m));
                    assert(iu_extends(m3, m));
                    lemma_find_entry_appended(
                        m.entries,
                        EntryModel { name: ids[i].name, sites: Seq::empty() },
                        0,
                    );
                    lemma_find_entry_mono(m3, m2, ids[i].name, 0);
                },
                Err(_) => {},
            }
        }
    }
}

/// Recording usage sites never renames or removes an entry, and every
/// recorded index was declared.
proof fn lemma_push_all_extends(
    m: IndexUseModel,
    ids: Seq<IdentModel>,
    tensor: Seq<char>,
    i: int,
)
    requires
        0 <= i <= ids.len(),
    ensures
        spec_push_all(m, ids, tensor, i) matches Ok(m2) ==> iu_extends(m2, m) && forall|j: int|
            i <= j < ids.len() ==> spec_find_entry(m2.entries, #[trigger] ids[j].name, 0) >= 0,
    decreases ids.len() - i,
{
    if i < ids.len() {
        let (ok, m2) = spec_push_site(m, ids[i].name, tensor, i as usize);
        if ok {
            let k = spec_find_entry(m.entries, ids[i].name, 0);
            lemma_find_entry_props(m.entries, ids[i].name, 0);
            assert(iu_extends(m2, m));
            lemma_push_all_extends(m2, ids, tensor, i + 1);
            match spec_push_all(m2, ids, tensor, i + 1) {
                Ok(m3) => {
                    assert(iu_extends(m3, m));
                    assert(spec_find_entry(m2.entries, ids[i].name, 0) >= 0) by {
                        lemma_find_entry_mono(m2, m, ids[i].name, 0);
                    }
                    lemma_find_entry_mono(m3, m2, ids[i].name, 0);
                },
                Err(_) => {},
            }
        }
    }
}

/// Checking or recording an arity keeps every recorded arity, and on
/// success the name is recorded with exactly that arity.
proof fn lemma_update_order_extends(m: TensorUseModel, name: Seq<char>, order: usize)
    ensures
        ({
            let (consistent, m2) = spec_update_order(m, name, order);
            consistent ==> tu_extends(m2, m) && spec_find_order(m2.orders, name, 0) >= 0
                && spec_get_order(m2, name) == order
        }),
{
    let k = spec_find_order(m.orders, name, 0);
    lemma_find_order_props(m.orders, name, 0);
    if k >= 0 {
    } else {
        lemma_find_order_appended(m.orders, (name, order), 0);
    }
}


/// Every tensor access in an element is consistent with the
/// registries: its array's recorded arity equals its subscript count,
/// and every subscript index is declared.
pub open spec fn elem_ok(e: ElemModel, iu: IndexUseModel, tu: TensorUseModel) -> bool
    decreases e,
{
    match e {
        ElemModel::Access { tensor, pos, indexes } => {
            &&& spec_find_order(tu.orders, tensor, 0) >= 0
            &&& spec_get_order(tu, tensor) == indexes.len() as usize
            &&& forall|j: int|
                0 <= j < indexes.len() ==> spec_find_entry(iu.entries, #[trigger] indexes[j], 0)
                    >= 0
        },
        ElemModel::Nested(sub) => scope_ok(sub, iu, tu),
        ElemModel::Func(f) => {
            &&& forall|j: int|
                0 <= j < f.inverted.len() ==> spec_find_entry(
                    iu.entries,
                    #[trigger] f.inverted[j].name,
                    0,
                ) >= 0
            &&& scope_ok(f.body, iu, tu)
        },
        ElemModel::Tree(t) => true,
    }
}

pub open spec fn elems_ok(es: Seq<ElemModel>, iu: IndexUseModel, tu: TensorUseModel) -> bool
    decreases es,
{
    if es.len() == 0 {
        true
    } else {
        proof {
            assert(decreases_to!(es => es[0]));
            assert(decreases_to!(es => es.subrange(1, es.len() as int)));
            assert(es.drop_first() == es.subrange(1, es.len() as int));
        }
        elem_ok(es[0], iu, tu) && elems_ok(es.drop_first(), iu, tu)
    }
}

/// Every tensor access anywhere in a scope is consistent with the
/// registries.
pub open spec fn scope_ok(s: ScopeModel, iu: IndexUseModel, tu: TensorUseModel) -> bool
    decreases s,
{
    proof {
        assert(decreases_to!(s => s.content));
    }
    elems_ok(s.content, iu, tu)
}

proof fn lemma_iu_extends_trans(a: IndexUseModel, b: IndexUseModel, c: IndexUseModel)
    requires
        iu_extends(a, b),
        iu_extends(b, c),
    ensures
        iu_extends(a, c),
{
}

proof fn lemma_tu_extends_trans(a: TensorUseModel, b: TensorUseModel, c: TensorUseModel)
    requires
        tu_extends(a, b),
        tu_extends(b, c),
    ensures
        tu_extends(a, c),
{
}

/// Consistency survives extending the registries.
proof fn lemma_elem_ok_mono(
    e: ElemModel,
    iu_a: IndexUseModel,
    iu_b: IndexUseModel,
    tu_a: TensorUseModel,
    tu_b: TensorUseModel,
)
    requires
        elem_ok(e, iu_b, tu_b),
        iu_extends(iu_a, iu_b),
        tu_extends(tu_a, tu_b),
    ensures
        elem_ok(e, iu_a, tu_a),
    decreases e,
{
    match e {
        ElemModel::Access { tensor, pos, indexes } => {
            lemma_order_lookup_mono(tu_a, tu_b, tensor);
            assert forall|j: int| 0 <= j < indexes.len() implies spec_find_entry(
                iu_a.entries,
                #[trigger] indexes[j],
                0,
            ) >= 0 by {
                lemma_find_entry_mono(iu_a, iu_b, indexes[j], 0);
            }
        },
        ElemModel::Nested(sub) => {
            lemma_scope_ok_mono(sub, iu_a, iu_b, tu_a, tu_b);
        },
        ElemModel::Func(f) => {
            assert forall|j: int| 0 <= j < f.inverted.len() implies spec_find_entry(
                iu_a.entries,
                #[trigger] f.inverted[j].name,
                0,
            ) >= 0 by {
                lemma_find_entry_mono(iu_a, iu_b, f.inverted[j].name, 0);
            }
            lemma_scope_ok_mono(f.body, iu_a, iu_b, tu_a, tu_b);
        },
        ElemModel::Tree(t) => {},
    }
}

proof fn lemma_elems_ok_mono(
    es: Seq<ElemModel>,
    iu_a: IndexUseModel,
    iu_b: IndexUseModel,
    tu_a: TensorUseModel,
    tu_b: TensorUseModel,
)
    requires
        elems_ok(es, iu_b, tu_b),
        iu_extends(iu_a, iu_b),
        tu_extends(tu_a, tu_b),
    ensures
        elems_ok(es, iu_a, tu_a),
    decreases es,
{
    if es.len() > 0 {
        lemma_elem_ok_mono(es[0], iu_a, iu_b, tu_a, tu_b);
        lemma_elems_ok_mono(es.drop_first(), iu_a, iu_b, tu_a, tu_b);
    }
}

proof fn lemma_scope_ok_mono(
    s: ScopeModel,
    iu_a: IndexUseModel,
    iu_b: IndexUseModel,
    tu_a: TensorUseModel,
    tu_b: TensorUseModel,
)
    requires
        scope_ok(s, iu_b, tu_b),
        iu_extends(iu_a, iu_b),
        tu_extends(tu_a, tu_b),
    ensures
        scope_ok(s, iu_a, tu_a),
    decreases s,
{
    lemma_elems_ok_mono(s.content, iu_a, iu_b, tu_a, tu_b);
}

proof fn lemma_elems_ok_push(
    es: Seq<ElemModel>,
    e: ElemModel,
    iu: IndexUseModel,
    tu: TensorUseModel,
)
    requires
        elems_ok(es, iu, tu),
        elem_ok(e, iu, tu),
    ensures
        elems_ok(es.push(e), iu, tu),
    decreases es.len(),
{
    if es.len() == 0 {
        assert(es.push(e)[0] == e);
        assert(es.push(e).drop_first() =~= Seq::<ElemModel>::empty());
        assert(elems_ok(Seq::<ElemModel>::empty(), iu, tu));
    } else {
        assert(es.push(e)[0] == es[0]);
        lemma_elems_ok_push(es.drop_first(), e, iu, tu);
        assert(es.push(e).drop_first() =~= es.drop_first().push(e));
    }
}

proof fn lemma_elems_ok_drop_last(es: Seq<ElemModel>, iu: IndexUseModel, tu: TensorUseModel)
    requires
        elems_ok(es, iu, tu),
        es.len() > 0,
    ensures
        elems_ok(es.drop_last(), iu, tu),
    decreases es.len(),
{
    if es.len() > 1 {
        lemma_elems_ok_drop_last(es.drop_first(), iu, tu);
        assert(es.drop_last()[0] == es[0]);
        assert(es.drop_last().drop_first() =~= es.drop_first().drop_last());
    } else {
        assert(es.drop_last() =~= Seq::<ElemModel>::empty());
        assert(elems_ok(Seq::<ElemModel>::empty(), iu, tu));
    }
}

/// Popping a binder's trailing identifiers keeps the remaining scope
/// consistent.
proof fn lemma_extract_keeps_ok(es: Seq<ElemModel>, iu: IndexUseModel, tu: TensorUseModel)
    requires
        elems_ok(es, iu, tu),
    ensures
        elems_ok(spec_extract_identifiers(es).1, iu, tu),
    decreases es.len(),
{
    if es.len() > 0 && es.last() is Tree && es.last()->Tree_0 is Ident {
        lemma_elems_ok_drop_last(es, iu, tu);
        lemma_extract_keeps_ok(es.drop_last(), iu, tu);
    }
}



/// Every usage site in the index registry names an array whose arity
/// the tensor registry records.
pub open spec fn iu_ok(iu: IndexUseModel, tu: TensorUseModel) -> bool {
    forall|i: int, j: int|
        0 <= i < iu.entries.len() && 0 <= j < iu.entries[i].sites.len() ==> spec_find_order(
            tu.orders,
            (#[trigger] iu.entries[i].sites[j]).tensor,
            0,
        ) >= 0
}

proof fn lemma_iu_ok_mono(iu: IndexUseModel, tu_a: TensorUseModel, tu_b: TensorUseModel)
    requires
        iu_ok(iu, tu_b),
        tu_extends(tu_a, tu_b),
    ensures
        iu_ok(iu, tu_a),
{
    assert forall|i: int, j: int|
        0 <= i < iu.entries.len() && 0 <= j < iu.entries[i].sites.len() implies spec_find_order(
        tu_a.orders,
        (#[trigger] iu.entries[i].sites[j]).tensor,
        0,
    ) >= 0 by {
        lemma_order_lookup_mono(tu_a, tu_b, iu.entries[i].sites[j].tensor);
    }
}

/// Declaring indexes adds no usage sites.
proof fn lemma_declare_all_keeps_iu_ok(
    m: IndexUseModel,
    ids: Seq<IdentModel>,
    i: int,
    tu: TensorUseModel,
)
    requires
        0 <= i <= ids.len(),
        iu_ok(m, tu),
    ensures
        spec_declare_all(m, ids, i) matches Ok(m2) ==> iu_ok(m2, tu),
    decreases ids.len() - i,
{
    if i < ids.len() {
        let (ok, m2) = spec_declare(m, ids[i].name);
        if ok {
            assert(iu_ok(m2, tu)) by {
                assert forall|a: int, b: int|
                    0 <= a < m2.entries.len() && 0 <= b < m2.entries[a].sites.len() implies
                    spec_find_order(tu.orders, (#[trigger] m2.entries[a].sites[b]).tensor, 0)
                    >= 0 by {
                    if a < m.entries.len() {
                        assert(m2.entries[a] == m.entries[a]);
                    } else {
                        assert(m2.entries[a].sites.len() == 0);
                    }
                }
            }
            lemma_declare_all_keeps_iu_ok(m2, ids, i + 1, tu);
        }
    }
}

/// Recording usage sites keeps the registry consistent, as long as
/// the array they name has a recorded arity.
proof fn lemma_push_all_keeps_iu_ok(
    m: IndexUseModel,
    ids: Seq<IdentModel>,
    tensor: Seq<char>,
    i: int,
    tu: TensorUseModel,
)
    requires
        0 <= i <= ids.len(),
        iu_ok(m, tu),
        spec_find_order(tu.orders, tensor, 0) >= 0,
    ensures
        spec_push_all(m, ids, tensor, i) matches Ok(m2) ==> iu_ok(m2, tu),
    decreases ids.len() - i,
{
    if i < ids.len() {
        let (ok, m2) = spec_push_site(m, ids[i].name, tensor, i as usize);
        if ok {
            let k = spec_find_entry(m.entries, ids[i].name, 0);
            lemma_find_entry_props(m.entries, ids[i].name, 0);
            assert(iu_ok(m2, tu)) by {
                assert forall|a: int, b: int|
                    0 <= a < m2.entries.len() && 0 <= b < m2.entries[a].sites.len() implies
                    spec_find_order(tu.orders, (#[trigger] m2.entries[a].sites[b]).tensor, 0)
                    >= 0 by {
                    if a == k && b == m.entries[a].sites.len() {
                        assert(m2.entries[a].sites[b].tensor == tensor);
                    } else {
                        assert(m2.entries[a].sites[b] == m.entries[a].sites[b]);
                    }
                }
            }
            lemma_push_all_keeps_iu_ok(m2, ids, tensor, i + 1, tu);
        }
    }
}

/// Parsing preserves registry consistency: whatever the parser adds
/// to a consistent scope is consistent with the registries it hands
/// back, and the registries only ever grow.
proof fn lemma_parse_preserves_ok(
    ts: Seq<TokenModel>,
    scope: ScopeModel,
    iu: IndexUseModel,
    tu: TensorUseModel,
)
    requires
        scope_ok(scope, iu, tu),
        iu_ok(iu, tu),
    ensures
        ({
            match spec_parse_seq(ts, scope, iu, tu) {
                ParseOutcome::Parsed { scope: s2, iu: iu2, tu: tu2 } => scope_ok(s2, iu2, tu2)
                    && iu_ok(iu2, tu2) && iu_extends(iu2, iu) && tu_extends(tu2, tu),
                ParseOutcome::Failed { err } => true,
            }
        }),
    decreases size_of_tokens(ts),
{
    if ts.len() == 0 {
        return ;
    }
    lemma_size_of_first(ts);
    let rest = ts.drop_first();
    match ts[0] {
        TokenModel::Ident { .. } => {
            lemma_elems_ok_push(scope.content, ElemModel::Tree(ts[0]), iu, tu);
            lemma_parse_preserves_ok(
                rest,
                ScopeModel { content: scope.content.push(ElemModel::Tree(ts[0])), ..scope },
                iu,
                tu,
            );
        },
        TokenModel::Literal { .. } => {
            lemma_elems_ok_push(scope.content, ElemModel::Tree(ts[0]), iu, tu);
            lemma_parse_preserves_ok(
                rest,
                ScopeModel { content: scope.content.push(ElemModel::Tree(ts[0])), ..scope },
                iu,
                tu,
            );
        },
        TokenModel::Punct { ch, pos } => {
            if ch == ";"@ {
            } else if ch == "$"@ {
                let (inverted, kept) = spec_extract_identifiers(scope.content);
                lemma_extract_keeps_ok(scope.content, iu, tu);
                match spec_declare_all(iu, inverted.reverse(), 0) {
                    Err(e) => {},
                    Ok(iu2) => {
                        lemma_declare_all_extends(iu, inverted.reverse(), 0);
                        lemma_declare_all_keeps_iu_ok(iu, inverted.reverse(), 0, tu);
                        let body0 = ScopeModel { pos, parens: false, content: Seq::empty() };
                        assert(scope_ok(body0, iu2, tu));
                        lemma_parse_preserves_ok(rest, body0, iu2, tu);
                        match spec_parse_seq(rest, body0, iu2, tu) {
                            ParseOutcome::Failed { err } => {},
                            ParseOutcome::Parsed { scope: body, iu: iu3, tu: tu3 } => {
                                lemma_iu_extends_trans(iu3, iu2, iu);
                                let func = ElemModel::Func(FuncModel { inverted, body });
                                assert forall|j: int| 0 <= j < inverted.len() implies
                                    spec_find_entry(
                                    iu3.entries,
                                    #[trigger] inverted[j].name,
                                    0,
                                ) >= 0 by {
                                    let k = inverted.len() - 1 - j;
                                    assert(inverted.reverse()[k] == inverted[j]);
                                    assert(spec_find_entry(
                                        iu2.entries,
                                        inverted.reverse()[k].name,
                                        0,
                                    ) >= 0);
                                    lemma_find_entry_mono(iu3, iu2, inverted[j].name, 0);
                                }
                                assert(elem_ok(func, iu3, tu3));
                                lemma_elems_ok_mono(kept, iu3, iu, tu3, tu);
                                lemma_elems_ok_push(kept, func, iu3, tu3);
                            },
                        }
                    },
                }
            } else {
                lemma_elems_ok_push(scope.content, ElemModel::Tree(ts[0]), iu, tu);
                lemma_parse_preserves_ok(
                    rest,
                    ScopeModel { content: scope.content.push(ElemModel::Tree(ts[0])), ..scope },
                    iu,
                    tu,
                );
            }
        },
        TokenModel::Group { delim, tokens: inner, pos } => {
            match delim {
                Delim::Brace => {},
                Delim::Bracket => {
                    if scope.content.len() > 0 && scope.content.last() is Tree
                        && scope.content.last()->Tree_0 is Ident {
                        let name_tok = scope.content.last()->Tree_0;
                        let tensor = name_tok->Ident_name;
                        match spec_collect_indexes(inner, pos) {
                            Err(e) => {},
                            Ok(ids) => match spec_push_all(iu, ids, tensor, 0) {
                                Err(e) => {},
                                Ok(iu2) => {
                                    lemma_push_all_extends(iu, ids, tensor, 0);
                                    let (consistent, tu2) = spec_update_order(
                                        tu,
                                        tensor,
                                        ids.len() as usize,
                                    );
                                    if consistent {
                                        lemma_update_order_extends(tu, tensor, ids.len() as usize);
                                        lemma_iu_ok_mono(iu, tu2, tu);
                                        lemma_push_all_keeps_iu_ok(iu, ids, tensor, 0, tu2);
                                        let access = ElemModel::Access {
                                            tensor,
                                            pos,
                                            indexes: ident_names(ids),
                                        };
                                        assert forall|j: int| 0 <= j < ident_names(ids).len()
                                            implies spec_find_entry(
                                            iu2.entries,
                                            #[trigger] ident_names(ids)[j],
                                            0,
                                        ) >= 0 by {
                                            assert(ident_names(ids)[j] == ids[j].name);
                                        }
                                        assert(ident_names(ids).len() == ids.len());
                                        assert(elem_ok(access, iu2, tu2));
                                        lemma_elems_ok_drop_last(scope.content, iu, tu);
                                        lemma_elems_ok_mono(
                                            scope.content.drop_last(),
                                            iu2,
                                            iu,
                                            tu2,
                                            tu,
                                        );
                                        lemma_elems_ok_push(
                                            scope.content.drop_last(),
                                            access,
                                            iu2,
                                            tu2,
                                        );
                                        let scope2 = ScopeModel {
                                            content: scope.content.drop_last().push(access),
                                            ..scope
                                        };
                                        lemma_parse_preserves_ok(rest, scope2, iu2, tu2);
                                        match spec_parse_seq(rest, scope2, iu2, tu2) {
                                            ParseOutcome::Failed { err } => {},
                                            ParseOutcome::Parsed {
                                                scope: s3,
                                                iu: iu3,
                                                tu: tu3,
                                            } => {
                                                lemma_iu_extends_trans(iu3, iu2, iu);
                                                lemma_tu_extends_trans(tu3, tu2, tu);
                                            },
                                        }
                                    }
                                },
                            },
                        }
                    }
                },
                _ => {
                    let sub0 = ScopeModel { pos, parens: delim is Paren, content: Seq::empty() };
                    assert(scope_ok(sub0, iu, tu));
                    lemma_parse_preserves_ok(inner, sub0, iu, tu);
                    match spec_parse_seq(inner, sub0, iu, tu) {
                        ParseOutcome::Failed { err } => {},
                        ParseOutcome::Parsed { scope: sub, iu: iu2, tu: tu2 } => {
                            lemma_elems_ok_mono(scope.content, iu2, iu, tu2, tu);
                            lemma_elems_ok_push(scope.content, ElemModel::Nested(sub), iu2, tu2);
                            let scope2 = ScopeModel {
                                content: scope.content.push(ElemModel::Nested(sub)),
                                ..scope
                            };
                            lemma_parse_preserves_ok(rest, scope2, iu2, tu2);
                            match spec_parse_seq(rest, scope2, iu2, tu2) {
                                ParseOutcome::Failed { err } => {},
                                ParseOutcome::Parsed { scope: s3, iu: iu3, tu: tu3 } => {
                                    lemma_iu_extends_trans(iu3, iu2, iu);
                                    lemma_tu_extends_trans(tu3, tu2, tu);
                                },
                            }
                        },
                    }
                },
            }
        },
    }
}

/// Law: in a successfully parsed unit, every array is subscripted
/// with one arity everywhere — exactly the arity its registry entry
/// records — and every subscript index was declared by a binder.  An
/// inconsistent or undeclared use never reaches the code generator:
/// the parse fails instead.  Every usage site the index registry
/// records likewise names an array with a recorded arity, so the
/// header generator always finds the arity it looks up.
pub proof fn lemma_parse_consistent(ts: Seq<TokenModel>)
    ensures
        spec_parse(ts) matches ParseOutcome::Parsed { scope, iu, tu } ==> scope_ok(scope, iu, tu)
            && iu_ok(iu, tu),
{
    let scope0 = ScopeModel { pos: 0, parens: false, content: Seq::empty() };
    let iu0 = IndexUseModel { entries: Seq::empty() };
    let tu0 = TensorUseModel { orders: Seq::empty() };
    assert(scope_ok(scope0, iu0, tu0));
    assert(iu_ok(iu0, tu0));
    lemma_parse_preserves_ok(ts, scope0, iu0, tu0);
}

} // verus!
