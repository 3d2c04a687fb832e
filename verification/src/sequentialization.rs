//! The code generator: walks the finished scope tree and the two
//! registries and emits the header (dimension bindings and
//! consistency checks) followed by the lowered body, either as an
//! array construction or as lazy nested iterations.
//!
//! Every executable function is proved to emit exactly the token
//! stream that the specification-level generator describes, so code
//! generation is a mathematical function of the parse result.

use vstd::prelude::*;

use crate::code::{
    OutModel, OutTok, dec_string, lemma_outs_model_len, lemma_outs_model_push, outs_model,
    spec_dec,
};
use crate::tokens::{
    Delim, Token, TokenModel, lemma_size_of_group, lemma_size_of_skip, lemma_size_of_suffix_step,
    lemma_tokens_model_len, size_of_suffix, size_of_token, token_model, tokens_model,
};
use crate::types::{
    ElemModel, EntryModel, FuncModel, IdentModel, IdentTok, IndexEntry, IndexUse, IndexUseModel,
    RicciAlternative, RicciFunction, RicciPosition, RicciSequence, ScopeModel, SiteModel,
    TensorUse, TensorUseModel, elem_model, elems_model, elems_suffix_msize, ident_names, ids_view,
    lemma_elems_model_len, lemma_elems_suffix_step, lemma_elems_suffix_zero, names_view,
    scope_model, scope_msize, spec_order_of,
};

verus! {

// ---------------------------------------------------------------------
// Specification: header emission
// ---------------------------------------------------------------------
/// The name of the dimension variable bound for an index.
pub open spec fn spec_dim_name(name: Seq<char>) -> Seq<char> {
    name + "_dimension"@
}

/// The tokens that read one axis size of an array at run time.
pub open spec fn spec_dim_computation(tu: TensorUseModel, site: SiteModel) -> Seq<OutModel> {
    let base = seq![
        OutModel::Pu("::"@),
        OutModel::Id("ndarray"@),
        OutModel::Pu("::"@),
        OutModel::Id("ArrayBase"@),
        OutModel::Pu("::"@),
        OutModel::Pu("<"@),
        OutModel::Id("_"@),
        OutModel::Pu(","@),
        OutModel::Id("_"@),
        OutModel::Pu(">"@),
        OutModel::Pu("::"@),
        OutModel::Id("dim"@),
        OutModel::Paren(seq![OutModel::Pu("&"@), OutModel::Id(site.tensor)]),
    ];
    if spec_order_of(tu, site.tensor) == 1 {
        base
    } else {
        base + seq![OutModel::Pu("."@), OutModel::Lit(spec_dec(site.axis as nat))]
    }
}

/// One runtime equality check between the first usage site of an index
/// and a later one.
pub open spec fn spec_assertion(tu: TensorUseModel, first: SiteModel, site: SiteModel) -> OutModel {
    OutModel::Brace(
        seq![
            OutModel::Id("let"@),
            OutModel::Id("first"@),
            OutModel::Pu(":"@),
            OutModel::Id("usize"@),
            OutModel::Pu("="@),
        ] + spec_dim_computation(tu, first) + seq![
            OutModel::Pu(";"@),
            OutModel::Id("let"@),
            OutModel::Id("second"@),
            OutModel::Pu(":"@),
            OutModel::Id("usize"@),
            OutModel::Pu("="@),
        ] + spec_dim_computation(tu, site) + seq![
            OutModel::Pu(";"@),
            OutModel::Id("if"@),
            OutModel::Id("first"@),
            OutModel::Pu("!="@),
            OutModel::Id("second"@),
            OutModel::Brace(
                seq![
                    OutModel::Id("panic"@),
                    OutModel::Pu("!"@),
                    OutModel::Paren(seq![OutModel::Lit("\"Non matching dimensions\""@)]),
                ],
            ),
        ],
    )
}

/// The checks for the usage sites of one index after the first.
pub open spec fn spec_entry_assertions(tu: TensorUseModel, sites: Seq<SiteModel>, i: int) -> Seq<
    OutModel,
>
    decreases sites.len() - i,
{
    if i < 1 || i >= sites.len() {
        Seq::empty()
    } else {
        seq![spec_assertion(tu, sites[0], sites[i])] + spec_entry_assertions(tu, sites, i + 1)
    }
}

/// The header tokens for one index: its dimension binding followed by
/// one consistency check per further usage site.  An index that no
/// subscript ever used binds nothing.
pub open spec fn spec_entry_header(tu: TensorUseModel, entry: EntryModel) -> Seq<OutModel> {
    if entry.sites.len() == 0 {
        Seq::empty()
    } else {
        seq![
            OutModel::Id("let"@),
            OutModel::Id(spec_dim_name(entry.name)),
            OutModel::Pu(":"@),
            OutModel::Id("usize"@),
            OutModel::Pu("="@),
        ] + spec_dim_computation(tu, entry.sites[0]) + seq![OutModel::Pu(";"@)]
            + spec_entry_assertions(tu, entry.sites, 1)
    }
}

/// The whole header, one index after the other in declaration order.
pub open spec fn spec_header(iu: IndexUseModel, tu: TensorUseModel, i: int) -> Seq<OutModel>
    decreases iu.entries.len() - i,
{
    if i < 0 || i >= iu.entries.len() {
        Seq::empty()
    } else {
        spec_entry_header(tu, iu.entries[i]) + spec_header(iu, tu, i + 1)
    }
}

// ---------------------------------------------------------------------
// Executable: header emission
// ---------------------------------------------------------------------
fn pu(l: &str) -> (r: OutTok)
    ensures
        r@ == OutModel::Pu(l@),
{
    OutTok::Pu(String::from_str(l))
}

fn kw(l: &str) -> (r: OutTok)
    ensures
        r@ == OutModel::Id(l@),
{
    OutTok::Id(String::from_str(l))
}

fn lit(l: &str) -> (r: OutTok)
    ensures
        r@ == OutModel::Lit(l@),
{
    OutTok::Lit(String::from_str(l))
}


/// Append a rendered segment, tracking the model concatenation.
fn append_toks(dst: &mut Vec<OutTok>, src: Vec<OutTok>)
    ensures
        outs_model(final(dst)@) == outs_model(old(dst)@) + outs_model(src@),
{
    let ghost a = dst@;
    let ghost b = src@;
    let mut src = src;
    dst.append(&mut src);
    proof {
        assert(dst@ =~= a + b);
        lemma_outs_model_concat(a, b);
    }
}

fn dim_name(name: &String) -> (r: String)
    ensures
        r@ == spec_dim_name(name@),
{
    name.clone().concat("_dimension")
}

/// Emit the tokens that read one axis size of an array.
pub fn create_dimension_computation_token_stream(
    tensor_use: &TensorUse,
    ricci_position: &RicciPosition,
) -> (r: Vec<OutTok>)
    ensures
        outs_model(r@) == spec_dim_computation(tensor_use@, ricci_position@),
{
    let mut v: Vec<OutTok> = Vec::new();
    v.push(pu("::"));
    v.push(kw("ndarray"));
    v.push(pu("::"));
    v.push(kw("ArrayBase"));
    v.push(pu("::"));
    v.push(pu("<"));
    v.push(kw("_"));
    v.push(pu(","));
    v.push(kw("_"));
    v.push(pu(">"));
    v.push(pu("::"));
    v.push(kw("dim"));
    let mut arg: Vec<OutTok> = Vec::new();
    arg.push(pu("&"));
    arg.push(OutTok::Id(ricci_position.tensor_name.clone()));
    proof {
        lemma_outs_model_len(arg@);
        assert(outs_model(arg@) =~= seq![
            OutModel::Pu("&"@),
            OutModel::Id(ricci_position.tensor_name@),
        ]);
    }
    v.push(OutTok::Paren(arg));
    if tensor_use.order_of(&ricci_position.tensor_name) != 1 {
        v.push(pu("."));
        v.push(OutTok::Lit(dec_string(ricci_position.position)));
    }
    proof {
        lemma_outs_model_len(v@);
        assert(outs_model(v@) =~= spec_dim_computation(tensor_use@, ricci_position@));
    }
    v
}

/// Emit one dimension-consistency check.
fn assertion_block(
    tensor_use: &TensorUse,
    first: &RicciPosition,
    site: &RicciPosition,
) -> (r: OutTok)
    ensures
        r@ == spec_assertion(tensor_use@, first@, site@),
{
    let mut v: Vec<OutTok> = Vec::new();
    v.push(kw("let"));
    v.push(kw("first"));
    v.push(pu(":"));
    v.push(kw("usize"));
    v.push(pu("="));
    proof {
        lemma_outs_model_len(v@);
        assert(outs_model(v@) =~= seq![
            OutModel::Id("let"@),
            OutModel::Id("first"@),
            OutModel::Pu(":"@),
            OutModel::Id("usize"@),
            OutModel::Pu("="@),
        ]);
    }
    let comp1 = create_dimension_computation_token_stream(tensor_use, first);
    append_toks(&mut v, comp1);
    let mut seg2: Vec<OutTok> = Vec::new();
    seg2.push(pu(";"));
    seg2.push(kw("let"));
    seg2.push(kw("second"));
    seg2.push(pu(":"));
    seg2.push(kw("usize"));
    seg2.push(pu("="));
    proof {
        lemma_outs_model_len(seg2@);
        assert(outs_model(seg2@) =~= seq![
            OutModel::Pu(";"@),
            OutModel::Id("let"@),
            OutModel::Id("second"@),
            OutModel::Pu(":"@),
            OutModel::Id("usize"@),
            OutModel::Pu("="@),
        ]);
    }
    append_toks(&mut v, seg2);
    let comp2 = create_dimension_computation_token_stream(tensor_use, site);
    append_toks(&mut v, comp2);
    let mut msg: Vec<OutTok> = Vec::new();
    msg.push(lit("\"Non matching dimensions\""));
    proof {
        lemma_outs_model_len(msg@);
        assert(outs_model(msg@) =~= seq![OutModel::Lit("\"Non matching dimensions\""@)]);
    }
    let mut panic_body: Vec<OutTok> = Vec::new();
    panic_body.push(kw("panic"));
    panic_body.push(pu("!"));
    panic_body.push(OutTok::Paren(msg));
    proof {
        lemma_outs_model_len(panic_body@);
        assert(outs_model(panic_body@) =~= seq![
            OutModel::Id("panic"@),
            OutModel::Pu("!"@),
            OutModel::Paren(seq![OutModel::Lit("\"Non matching dimensions\""@)]),
        ]);
    }
    let mut seg3: Vec<OutTok> = Vec::new();
    seg3.push(pu(";"));
    seg3.push(kw("if"));
    seg3.push(kw("first"));
    seg3.push(pu("!="));
    seg3.push(kw("second"));
    seg3.push(OutTok::Brace(panic_body));
    proof {
        lemma_outs_model_len(seg3@);
    }
    append_toks(&mut v, seg3);
    proof {
        assert(outs_model(v@) =~= spec_assertion(tensor_use@, first@, site@)->Brace_0);
    }
    OutTok::Brace(v)
}

/// Emit the header tokens for one index.
fn entry_header(tensor_use: &TensorUse, entry: &IndexEntry) -> (r: Vec<OutTok>)
    ensures
        outs_model(r@) == spec_entry_header(tensor_use@, entry@),
{
    let mut v: Vec<OutTok> = Vec::new();
    if entry.sites.len() == 0 {
        proof {
            assert(entry@.sites.len() == 0);
            assert(outs_model(v@) =~= spec_entry_header(tensor_use@, entry@));
        }
        return v;
    }
    v.push(kw("let"));
    v.push(OutTok::Id(dim_name(&entry.name)));
    v.push(pu(":"));
    v.push(kw("usize"));
    v.push(pu("="));
    proof {
        lemma_outs_model_len(v@);
        assert(outs_model(v@) =~= seq![
            OutModel::Id("let"@),
            OutModel::Id(spec_dim_name(entry@.name)),
            OutModel::Pu(":"@),
            OutModel::Id("usize"@),
            OutModel::Pu("="@),
        ]);
    }
    let ghost gsites = entry@.sites;
    proof {
        assert(gsites[0] == entry.sites@[0]@);
        assert(gsites.len() == entry.sites@.len());
    }
    let comp = create_dimension_computation_token_stream(tensor_use, &entry.sites[0]);
    append_toks(&mut v, comp);
    let mut semi: Vec<OutTok> = Vec::new();
    semi.push(pu(";"));
    proof {
        lemma_outs_model_len(semi@);
        assert(outs_model(semi@) =~= seq![OutModel::Pu(";"@)]);
    }
    append_toks(&mut v, semi);
    let ghost binding = outs_model(v@);
    let mut k: usize = 1;
    while k < entry.sites.len()
        invariant
            1 <= k <= entry.sites.len(),
            gsites == entry@.sites,
            gsites.len() == entry.sites@.len(),
            outs_model(v@) == binding + spec_entry_assertions_prefix(tensor_use@, gsites, k as int),
        decreases entry.sites.len() - k,
    {
        let ghost pre = v@;
        proof {
            assert(gsites[k as int] == entry.sites@[k as int]@);
            assert(gsites[0] == entry.sites@[0]@);
        }
        let a = assertion_block(tensor_use, &entry.sites[0], &entry.sites[k]);
        v.push(a);
        proof {
            lemma_outs_model_push(pre, a);
            lemma_entry_assertions_prefix_snoc(tensor_use@, gsites, k as int);
        }
        k = k + 1;
    }
    proof {
        lemma_entry_assertions_prefix_full(tensor_use@, gsites);
        assert(outs_model(v@) =~= spec_entry_header(tensor_use@, entry@));
    }
    v
}

/// The checks for sites `1 .. i`, a prefix of the full check list.
pub open spec fn spec_entry_assertions_prefix(
    tu: TensorUseModel,
    sites: Seq<SiteModel>,
    i: int,
) -> Seq<OutModel>
    decreases i,
{
    if i <= 1 {
        Seq::empty()
    } else {
        spec_entry_assertions_prefix(tu, sites, i - 1) + seq![
            spec_assertion(tu, sites[0], sites[i - 1]),
        ]
    }
}

proof fn lemma_entry_assertions_prefix_snoc(tu: TensorUseModel, sites: Seq<SiteModel>, k: int)
    requires
        1 <= k < sites.len(),
    ensures
        spec_entry_assertions_prefix(tu, sites, k + 1) == spec_entry_assertions_prefix(
            tu,
            sites,
            k,
        ) + seq![spec_assertion(tu, sites[0], sites[k])],
{
}

proof fn lemma_entry_assertions_prefix_full(tu: TensorUseModel, sites: Seq<SiteModel>)
    requires
        sites.len() >= 1,
    ensures
        spec_entry_assertions_prefix(tu, sites, sites.len() as int) == spec_entry_assertions(
            tu,
            sites,
            1,
        ),
{
    lemma_entry_assertions_split(tu, sites, 1);
    assert(spec_entry_assertions_prefix(tu, sites, 1) =~= Seq::<OutModel>::empty());
    assert(Seq::<OutModel>::empty() + spec_entry_assertions(tu, sites, 1) =~= spec_entry_assertions(
        tu,
        sites,
        1,
    ));
}

proof fn lemma_entry_assertions_split(tu: TensorUseModel, sites: Seq<SiteModel>, i: int)
    requires
        1 <= i <= sites.len(),
    ensures
        spec_entry_assertions_prefix(tu, sites, sites.len() as int) == spec_entry_assertions_prefix(
            tu,
            sites,
            i,
        ) + spec_entry_assertions(tu, sites, i),
    decreases sites.len() - i,
{
    if i == sites.len() {
        assert(spec_entry_assertions(tu, sites, i) =~= Seq::<OutModel>::empty());
        assert(spec_entry_assertions_prefix(tu, sites, i) + Seq::<OutModel>::empty()
            =~= spec_entry_assertions_prefix(tu, sites, i));
    } else {
        lemma_entry_assertions_split(tu, sites, i + 1);
        lemma_entry_assertions_prefix_snoc(tu, sites, i);
        assert((spec_entry_assertions_prefix(tu, sites, i) + seq![
            spec_assertion(tu, sites[0], sites[i]),
        ]) + spec_entry_assertions(tu, sites, i + 1) =~= spec_entry_assertions_prefix(tu, sites, i)
            + (seq![spec_assertion(tu, sites[0], sites[i])] + spec_entry_assertions(
            tu,
            sites,
            i + 1,
        )));
    }
}

/// Emit the whole header: dimension bindings and consistency checks,
/// one index after the other in declaration order.
pub fn sequentialize_header(index_use: &IndexUse, tensor_use: &TensorUse) -> (r: Vec<OutTok>)
    ensures
        outs_model(r@) == spec_header(index_use@, tensor_use@, 0),
{
    let mut v: Vec<OutTok> = Vec::new();
    let mut i: usize = 0;
    proof {
        assert(outs_model(v@) =~= Seq::<OutModel>::empty());
        assert(Seq::<OutModel>::empty() + spec_header(index_use@, tensor_use@, 0) =~= spec_header(
            index_use@,
            tensor_use@,
            0,
        ));
    }
    while i < index_use.entries.len()
        invariant
            i <= index_use.entries.len(),
            index_use@.entries.len() == index_use.entries@.len(),
            spec_header(index_use@, tensor_use@, 0) == outs_model(v@) + spec_header(
                index_use@,
                tensor_use@,
                i as int,
            ),
        decreases index_use.entries.len() - i,
    {
        proof {
            assert(index_use@.entries[i as int] == index_use.entries@[i as int]@);
        }
        let mut eh = entry_header(tensor_use, &index_use.entries[i]);
        let ghost pre = v@;
        let ghost geh = eh@;
        v.append(&mut eh);
        proof {
            assert(v@ =~= pre + geh);
            lemma_outs_model_concat(pre, geh);
            assert((outs_model(pre) + outs_model(geh)) + spec_header(
                index_use@,
                tensor_use@,
                i as int + 1,
            ) =~= outs_model(pre) + (outs_model(geh) + spec_header(
                index_use@,
                tensor_use@,
                i as int + 1,
            )));
        }
        i = i + 1;
    }
    proof {
        assert(spec_header(index_use@, tensor_use@, i as int) =~= Seq::<OutModel>::empty());
        assert(outs_model(v@) + Seq::<OutModel>::empty() =~= outs_model(v@));
    }
    v
}

pub proof fn lemma_outs_model_concat(a: Seq<OutTok>, b: Seq<OutTok>)
    ensures
        outs_model(a + b) == outs_model(a) + outs_model(b),
{
    lemma_outs_model_len(a);
    lemma_outs_model_len(b);
    lemma_outs_model_len(a + b);
    assert(outs_model(a + b) =~= outs_model(a) + outs_model(b));
}


// ---------------------------------------------------------------------
// Specification: body lowering
// ---------------------------------------------------------------------
/// A raw token passed through to the output verbatim.
pub open spec fn spec_out_of_token(t: TokenModel) -> OutModel
    decreases t,
{
    match t {
        TokenModel::Ident { name, .. } => OutModel::Id(name),
        TokenModel::Punct { ch, .. } => OutModel::Pu(ch),
        TokenModel::Literal { text, .. } => OutModel::Lit(text),
        TokenModel::Group { delim, tokens, .. } => {
            proof {
                assert(decreases_to!(t => t->tokens));
            }
            match delim {
                Delim::Bracket => OutModel::Bracket(spec_outs_of_tokens(tokens)),
                Delim::Brace => OutModel::Brace(spec_outs_of_tokens(tokens)),
                _ => OutModel::Paren(spec_outs_of_tokens(tokens)),
            }
        },
    }
}

pub open spec fn spec_outs_of_tokens(ts: Seq<TokenModel>) -> Seq<OutModel>
    decreases ts,
{
    if ts.len() == 0 {
        Seq::empty()
    } else {
        proof {
            assert(decreases_to!(ts => ts[0]));
            assert(decreases_to!(ts => ts.subrange(1, ts.len() as int)));
            assert(ts.drop_first() == ts.subrange(1, ts.len() as int));
        }
        seq![spec_out_of_token(ts[0])] + spec_outs_of_tokens(ts.drop_first())
    }
}

/// The items of an index tuple such as `(i, j,)`: each name followed
/// by a comma.
pub open spec fn spec_tuple_items(names: Seq<Seq<char>>, i: int) -> Seq<OutModel>
    decreases names.len() - i,
{
    if i < 0 || i >= names.len() {
        Seq::empty()
    } else {
        seq![OutModel::Id(names[i]), OutModel::Pu(","@)] + spec_tuple_items(names, i + 1)
    }
}

pub open spec fn spec_tuple_of(names: Seq<Seq<char>>) -> OutModel {
    OutModel::Paren(spec_tuple_items(names, 0))
}

/// An unchecked element read of one array at a multi-index.
pub open spec fn spec_access(tensor: Seq<char>, indexes: Seq<Seq<char>>) -> OutModel {
    let arg = if indexes.len() == 1 {
        seq![OutModel::Id(indexes[0])]
    } else {
        seq![spec_tuple_of(indexes)]
    };
    OutModel::Paren(
        seq![
            OutModel::Pu("*"@),
            OutModel::Id("unsafe"@),
            OutModel::Brace(
                seq![
                    OutModel::Id(tensor),
                    OutModel::Pu("."@),
                    OutModel::Id("uget"@),
                    OutModel::Paren(arg),
                ],
            ),
        ],
    )
}

/// The nested iteration chain of a binder, after its first `k`
/// indexes (in reversed declaration order) have been wrapped.
pub open spec fn spec_mappings(inv: Seq<IdentModel>, k: int) -> Seq<OutModel>
    decreases k,
{
    if k <= 0 {
        seq![spec_tuple_of(ident_names(inv).reverse())]
    } else {
        seq![
            OutModel::Paren(
                seq![
                    OutModel::Lit("0usize"@),
                    OutModel::Pu(".."@),
                    OutModel::Id(spec_dim_name(inv[k - 1].name)),
                ],
            ),
            OutModel::Pu("."@),
            OutModel::Id(if k == 1 {
                "map"@
            } else {
                "flat_map"@
            }),
            OutModel::Paren(
                seq![
                    OutModel::Id("move"@),
                    OutModel::Pu("|"@),
                    OutModel::Id(inv[k - 1].name),
                    OutModel::Pu("|"@),
                ] + spec_mappings(inv, k - 1),
            ),
        ]
    }
}

/// The lazy nested sequence that a binder lowers to in expression
/// mode.
pub open spec fn spec_func_stream(f: FuncModel) -> Seq<OutModel>
    decreases f,
{
    proof {
        assert(decreases_to!(f => f.body));
    }
    spec_mappings(f.inverted, f.inverted.len() as int) + seq![
        OutModel::Pu("."@),
        OutModel::Id("map"@),
        OutModel::Paren(
            seq![
                OutModel::Pu("|"@),
                spec_tuple_of(ident_names(f.inverted).reverse()),
                OutModel::Pu("|"@),
                OutModel::Brace(spec_scope_stream(f.body)),
            ],
        ),
    ]
}

/// One scope lowered to output tokens, with its parentheses kept when
/// the source had them.
pub open spec fn spec_scope_stream(s: ScopeModel) -> Seq<OutModel>
    decreases s,
{
    proof {
        assert(decreases_to!(s => s.content));
    }
    if s.parens {
        seq![OutModel::Paren(spec_elems_stream(s.content))]
    } else {
        spec_elems_stream(s.content)
    }
}

pub open spec fn spec_elems_stream(es: Seq<ElemModel>) -> Seq<OutModel>
    decreases es,
{
    if es.len() == 0 {
        Seq::empty()
    } else {
        proof {
            assert(decreases_to!(es => es[0]));
            assert(decreases_to!(es => es.subrange(1, es.len() as int)));
            assert(es.drop_first() == es.subrange(1, es.len() as int));
        }
        spec_elem_stream(es[0]) + spec_elems_stream(es.drop_first())
    }
}

pub open spec fn spec_elem_stream(e: ElemModel) -> Seq<OutModel>
    decreases e,
{
    match e {
        ElemModel::Func(f) => spec_func_stream(f),
        ElemModel::Tree(t) => seq![spec_out_of_token(t)],
        ElemModel::Nested(s) => spec_scope_stream(s),
        ElemModel::Access { tensor, pos, indexes } => seq![spec_access(tensor, indexes)],
    }
}

/// The dimension-variable names of a list of index names.
pub open spec fn spec_dim_names(names: Seq<Seq<char>>) -> Seq<Seq<char>> {
    names.map_values(|n: Seq<char>| spec_dim_name(n))
}

/// The array construction that a whole-unit binder lowers to.
pub open spec fn spec_shape_creation(f: FuncModel) -> Seq<OutModel> {
    let direct = ident_names(f.inverted).reverse();
    let order = f.inverted.len();
    seq![
        OutModel::Pu("::"@),
        OutModel::Id("ndarray"@),
        OutModel::Pu("::"@),
        OutModel::Id("Array"@),
        OutModel::Pu("::"@),
        OutModel::Pu("<"@),
        OutModel::Id("_"@),
        OutModel::Pu(","@),
        OutModel::Pu("::"@),
        OutModel::Id("ndarray"@),
        OutModel::Pu("::"@),
        OutModel::Id("Dim"@),
        OutModel::Pu("<"@),
        OutModel::Bracket(
            seq![
                OutModel::Pu("::"@),
                OutModel::Id("ndarray"@),
                OutModel::Pu("::"@),
                OutModel::Id("Ix"@),
                OutModel::Pu(";"@),
                OutModel::Lit(spec_dec(order as nat) + "usize"@),
            ],
        ),
        OutModel::Pu(">>"@),
        OutModel::Pu("::"@),
        OutModel::Id("from_shape_fn"@),
        OutModel::Paren(
            seq![
                spec_tuple_of(spec_dim_names(direct)),
                OutModel::Pu(","@),
                OutModel::Pu("|"@),
                spec_tuple_of(direct),
                OutModel::Pu("|"@),
                OutModel::Brace(spec_scope_stream(f.body)),
            ],
        ),
    ]
}

/// The lowered body of a compilation unit: an array construction when
/// the whole unit is one binder with indexes, otherwise the lowered
/// expression.
pub open spec fn spec_body(s: ScopeModel) -> Seq<OutModel> {
    if s.content.len() == 1 && s.content[0] is Func {
        let f = s.content[0]->Func_0;
        if f.inverted.len() > 0 {
            spec_shape_creation(f)
        } else {
            spec_scope_stream(f.body)
        }
    } else {
        spec_scope_stream(s)
    }
}

/// The whole generated unit: a brace group holding the header then
/// the body.
pub open spec fn spec_sequentialize(s: ScopeModel, iu: IndexUseModel, tu: TensorUseModel) -> Seq<
    OutModel,
> {
    seq![OutModel::Brace(spec_header(iu, tu, 0) + spec_body(s))]
}

// ---------------------------------------------------------------------
// Executable: body lowering
// ---------------------------------------------------------------------
/// Pass one raw token through to the output.
fn out_of_token(t: &Token) -> (r: OutTok)
    ensures
        r@ == spec_out_of_token(t@),
    decreases size_of_token(t@), 0nat,
{
    match t {
        Token::Ident { name, .. } => OutTok::Id(name.clone()),
        Token::Punct { ch, .. } => OutTok::Pu(ch.clone()),
        Token::Literal { text, .. } => OutTok::Lit(text.clone()),
        Token::Group { delim, tokens, pos } => {
            proof {
                lemma_size_of_group(t@);
                lemma_size_of_skip(tokens_model(tokens@), 0);
                assert(tokens_model(tokens@).skip(0) =~= tokens_model(tokens@));
            }
            let inner = outs_of_tokens(tokens, 0);
            match delim {
                Delim::Bracket => OutTok::Bracket(inner),
                Delim::Brace => OutTok::Brace(inner),
                _ => OutTok::Paren(inner),
            }
        },
    }
}

fn outs_of_tokens(ts: &Vec<Token>, i: usize) -> (r: Vec<OutTok>)
    requires
        i <= ts.len(),
    ensures
        outs_model(r@) == spec_outs_of_tokens(tokens_model(ts@).skip(i as int)),
    decreases size_of_suffix(tokens_model(ts@), i as int), 1nat,
{
    let ghost m = tokens_model(ts@);
    proof {
        lemma_tokens_model_len(ts@);
    }
    let mut v: Vec<OutTok> = Vec::new();
    if i == ts.len() {
        proof {
            assert(m.skip(i as int).len() == 0);
            assert(outs_model(v@) =~= Seq::<OutModel>::empty());
        }
        return v;
    }
    proof {
        lemma_size_of_suffix_step(m, i as int);
        assert(m.skip(i as int)[0] == m[i as int]);
        assert(m.skip(i as int).drop_first() =~= m.skip(i as int + 1));
    }
    let t0 = out_of_token(&ts[i]);
    v.push(t0);
    proof {
        lemma_outs_model_len(v@);
        assert(outs_model(v@) =~= seq![spec_out_of_token(m[i as int])]);
    }
    let rest = outs_of_tokens(ts, i + 1);
    append_toks(&mut v, rest);
    v
}

/// Emit the index tuple `(i, j,)` of a list of names.
fn tuple_of(names: &Vec<String>) -> (r: OutTok)
    ensures
        r@ == spec_tuple_of(names_view(names@)),
{
    let ghost nv = names_view(names@);
    let mut v: Vec<OutTok> = Vec::new();
    let mut k: usize = 0;
    proof {
        assert(outs_model(v@) =~= Seq::<OutModel>::empty());
        assert(Seq::<OutModel>::empty() + spec_tuple_items(nv, 0) =~= spec_tuple_items(nv, 0));
    }
    while k < names.len()
        invariant
            k <= names.len(),
            nv == names_view(names@),
            nv.len() == names@.len(),
            spec_tuple_items(nv, 0) == outs_model(v@) + spec_tuple_items(nv, k as int),
        decreases names.len() - k,
    {
        let ghost pre = v@;
        proof {
            assert(nv[k as int] == names@[k as int]@);
        }
        let idt = OutTok::Id(names[k].clone());
        v.push(idt);
        let c = pu(",");
        v.push(c);
        proof {
            lemma_outs_model_push(pre, idt);
            lemma_outs_model_push(pre.push(idt), c);
            assert(outs_model(v@) =~= outs_model(pre) + seq![
                OutModel::Id(nv[k as int]),
                OutModel::Pu(","@),
            ]);
            assert((outs_model(pre) + seq![OutModel::Id(nv[k as int]), OutModel::Pu(","@)])
                + spec_tuple_items(nv, k as int + 1) =~= outs_model(pre) + (seq![
                OutModel::Id(nv[k as int]),
                OutModel::Pu(","@),
            ] + spec_tuple_items(nv, k as int + 1)));
        }
        k = k + 1;
    }
    proof {
        assert(spec_tuple_items(nv, k as int) =~= Seq::<OutModel>::empty());
        assert(outs_model(v@) + Seq::<OutModel>::empty() =~= outs_model(v@));
    }
    OutTok::Paren(v)
}

/// The bound names in declaration order (the stored list is reversed).
fn direct_names(inverted: &Vec<IdentTok>) -> (r: Vec<String>)
    ensures
        names_view(r@) == ident_names(ids_view(inverted@)).reverse(),
{
    let n: usize = inverted.len();
    let mut v: Vec<String> = Vec::new();
    let mut k: usize = 0;
    while k < n
        invariant
            k <= n,
            n == inverted.len(),
            v@.len() == k,
            forall|j: int| 0 <= j < k ==> v@[j]@ == inverted@[n - 1 - j]@.name,
        decreases n - k,
    {
        v.push(inverted[n - 1 - k].name.clone());
        k = k + 1;
    }
    proof {
        let target = ident_names(ids_view(inverted@)).reverse();
        assert(target.len() == n);
        assert forall|j: int| 0 <= j < n implies names_view(v@)[j] == target[j] by {
            assert(target[j] == ident_names(ids_view(inverted@))[n - 1 - j]);
            assert(ident_names(ids_view(inverted@))[n - 1 - j] == ids_view(inverted@)[n - 1
                - j].name);
            assert(ids_view(inverted@)[n - 1 - j] == inverted@[n - 1 - j]@);
            assert(names_view(v@)[j] == v@[j]@);
        }
        assert(names_view(v@) =~= target);
    }
    v
}

/// The dimension-variable names of a list of names.
fn dim_names_of(names: &Vec<String>) -> (r: Vec<String>)
    ensures
        names_view(r@) == spec_dim_names(names_view(names@)),
{
    let mut v: Vec<String> = Vec::new();
    let mut k: usize = 0;
    while k < names.len()
        invariant
            k <= names.len(),
            v@.len() == k,
            forall|j: int| 0 <= j < k ==> v@[j]@ == spec_dim_name(names@[j]@),
        decreases names.len() - k,
    {
        v.push(dim_name(&names[k]));
        k = k + 1;
    }
    proof {
        let target = spec_dim_names(names_view(names@));
        assert(target.len() == names@.len());
        assert forall|j: int| 0 <= j < names@.len() implies names_view(v@)[j] == target[j] by {
            assert(target[j] == spec_dim_name(names_view(names@)[j]));
            assert(names_view(names@)[j] == names@[j]@);
            assert(names_view(v@)[j] == v@[j]@);
        }
        assert(names_view(v@) =~= target);
    }
    v
}

/// Build the nested `map`/`flat_map` chain of a binder.
fn build_mappings(inverted: &Vec<IdentTok>) -> (r: Vec<OutTok>)
    ensures
        outs_model(r@) == spec_mappings(ids_view(inverted@), inverted@.len() as int),
{
    let ghost inv = ids_view(inverted@);
    let dn = direct_names(inverted);
    let mut cur: Vec<OutTok> = Vec::new();
    let tup = tuple_of(&dn);
    cur.push(tup);
    proof {
        lemma_outs_model_len(cur@);
        assert(outs_model(cur@) =~= seq![spec_tuple_of(ident_names(inv).reverse())]);
    }
    let mut k: usize = 0;
    while k < inverted.len()
        invariant
            k <= inverted.len(),
            inv == ids_view(inverted@),
            inv.len() == inverted@.len(),
            outs_model(cur@) == spec_mappings(inv, k as int),
        decreases inverted.len() - k,
    {
        proof {
            assert(inv[k as int] == inverted@[k as int]@);
        }
        let mut range: Vec<OutTok> = Vec::new();
        range.push(lit("0usize"));
        range.push(pu(".."));
        range.push(OutTok::Id(dim_name(&inverted[k].name)));
        proof {
            lemma_outs_model_len(range@);
            assert(outs_model(range@) =~= seq![
                OutModel::Lit("0usize"@),
                OutModel::Pu(".."@),
                OutModel::Id(spec_dim_name(inv[k as int].name)),
            ]);
        }
        let mut closure: Vec<OutTok> = Vec::new();
        closure.push(kw("move"));
        closure.push(pu("|"));
        closure.push(OutTok::Id(inverted[k].name.clone()));
        closure.push(pu("|"));
        proof {
            lemma_outs_model_len(closure@);
            assert(outs_model(closure@) =~= seq![
                OutModel::Id("move"@),
                OutModel::Pu("|"@),
                OutModel::Id(inv[k as int].name),
                OutModel::Pu("|"@),
            ]);
        }
        append_toks(&mut closure, cur);
        let mut nv: Vec<OutTok> = Vec::new();
        nv.push(OutTok::Paren(range));
        nv.push(pu("."));
        if k == 0 {
            nv.push(kw("map"));
        } else {
            nv.push(kw("flat_map"));
        }
        nv.push(OutTok::Paren(closure));
        proof {
            lemma_outs_model_len(nv@);
            assert(outs_model(nv@) =~= spec_mappings(inv, k as int + 1));
        }
        cur = nv;
        k = k + 1;
    }
    cur
}

/// Emit the unchecked element read of one tensor access.
fn access_tok(tensor_name: &String, indexes: &Vec<String>) -> (r: OutTok)
    ensures
        r@ == spec_access(tensor_name@, names_view(indexes@)),
{
    let mut arg_inner: Vec<OutTok> = Vec::new();
    if indexes.len() == 1 {
        arg_inner.push(OutTok::Id(indexes[0].clone()));
        proof {
            lemma_outs_model_len(arg_inner@);
            assert(names_view(indexes@)[0] == indexes@[0]@);
            assert(outs_model(arg_inner@) =~= seq![OutModel::Id(names_view(indexes@)[0])]);
        }
    } else {
        let tup = tuple_of(indexes);
        arg_inner.push(tup);
        proof {
            lemma_outs_model_len(arg_inner@);
            assert(outs_model(arg_inner@) =~= seq![spec_tuple_of(names_view(indexes@))]);
        }
    }
    let ghost garg = outs_model(arg_inner@);
    let mut uget_body: Vec<OutTok> = Vec::new();
    uget_body.push(OutTok::Id(tensor_name.clone()));
    uget_body.push(pu("."));
    uget_body.push(kw("uget"));
    uget_body.push(OutTok::Paren(arg_inner));
    proof {
        lemma_outs_model_len(uget_body@);
        assert(outs_model(uget_body@) =~= seq![
            OutModel::Id(tensor_name@),
            OutModel::Pu("."@),
            OutModel::Id("uget"@),
            OutModel::Paren(garg),
        ]);
    }
    let mut outer: Vec<OutTok> = Vec::new();
    outer.push(pu("*"));
    outer.push(kw("unsafe"));
    outer.push(OutTok::Brace(uget_body));
    proof {
        lemma_outs_model_len(outer@);
        assert(outs_model(outer@) =~= spec_access(tensor_name@, names_view(indexes@))->Paren_0);
    }
    OutTok::Paren(outer)
}

/// Lower one binder to its lazy nested sequence and append it.
pub fn sequentialize_tensor_func(func: &RicciFunction, stream: &mut Vec<OutTok>)
    ensures
        outs_model(final(stream)@) == outs_model(old(stream)@) + spec_func_stream(func@),
    decreases scope_msize(scope_model(func.sequence)), 2nat,
{
    let ghost gf = func@;
    let mappings = build_mappings(&func.inverted_indexes);
    let dn = direct_names(&func.inverted_indexes);
    let mut content: Vec<OutTok> = Vec::new();
    proof {
        assert(outs_model(content@) =~= Seq::<OutModel>::empty());
    }
    sequentialize_sequence(&func.sequence, &mut content);
    proof {
        assert(outs_model(content@) =~= spec_scope_stream(gf.body));
    }
    let mut closure: Vec<OutTok> = Vec::new();
    closure.push(pu("|"));
    let tup = tuple_of(&dn);
    closure.push(tup);
    closure.push(pu("|"));
    closure.push(OutTok::Brace(content));
    proof {
        lemma_outs_model_len(closure@);
        assert(outs_model(closure@) =~= seq![
            OutModel::Pu("|"@),
            spec_tuple_of(ident_names(gf.inverted).reverse()),
            OutModel::Pu("|"@),
            OutModel::Brace(spec_scope_stream(gf.body)),
        ]);
    }
    let mut tail: Vec<OutTok> = Vec::new();
    tail.push(pu("."));
    tail.push(kw("map"));
    tail.push(OutTok::Paren(closure));
    proof {
        lemma_outs_model_len(tail@);
    }
    append_toks(stream, mappings);
    append_toks(stream, tail);
    proof {
        assert(outs_model(stream@) =~= outs_model(old(stream)@) + spec_func_stream(gf));
    }
}

/// Lower one scope and append it, keeping its parentheses when the
/// source had them.
pub fn sequentialize_sequence(sequence: &RicciSequence, stream: &mut Vec<OutTok>)
    ensures
        outs_model(final(stream)@) == outs_model(old(stream)@) + spec_scope_stream(sequence@),
    decreases scope_msize(scope_model(*sequence)), 1nat,
{
    proof {
        lemma_elems_suffix_zero(scope_model(*sequence).content);
    }
    if sequence.use_parens {
        let mut inner: Vec<OutTok> = Vec::new();
        proof {
            assert(outs_model(inner@) =~= Seq::<OutModel>::empty());
        }
        sequentialize_elements(&sequence.content, 0, &mut inner);
        proof {
            assert(elems_model(sequence.content@).skip(0) =~= scope_model(*sequence).content);
        }
        let ghost pre = stream@;
        let g = OutTok::Paren(inner);
        stream.push(g);
        proof {
            lemma_outs_model_push(pre, g);
            assert(outs_model(stream@) =~= outs_model(pre) + spec_scope_stream(sequence@));
        }
    } else {
        sequentialize_elements(&sequence.content, 0, stream);
        proof {
            assert(elems_model(sequence.content@).skip(0) =~= scope_model(*sequence).content);
        }
    }
}

/// Lower the elements `content[i..]` of one scope and append them.
fn sequentialize_elements(content: &Vec<RicciAlternative>, i: usize, stream: &mut Vec<OutTok>)
    requires
        i <= content.len(),
    ensures
        outs_model(final(stream)@) == outs_model(old(stream)@) + spec_elems_stream(
            elems_model(content@).skip(i as int),
        ),
    decreases elems_suffix_msize(elems_model(content@), i as int), 0nat,
{
    let ghost m = elems_model(content@);
    proof {
        lemma_elems_model_len(content@);
    }
    if i == content.len() {
        proof {
            assert(m.skip(i as int).len() == 0);
            assert(outs_model(stream@) + Seq::<OutModel>::empty() =~= outs_model(stream@));
        }
        return ;
    }
    proof {
        lemma_elems_suffix_step(m, i as int);
        assert(m.skip(i as int)[0] == m[i as int]);
        assert(m.skip(i as int).drop_first() =~= m.skip(i as int + 1));
    }
    let ghost pre = stream@;
    match &content[i] {
        RicciAlternative::Func(f) => {
            proof {
                lemma_elems_suffix_zero(scope_model(f.sequence).content);
            }
            sequentialize_tensor_func(f, stream);
        },
        RicciAlternative::Tree(t) => {
            let o = out_of_token(t);
            stream.push(o);
            proof {
                lemma_outs_model_push(pre, o);
                assert(outs_model(stream@) =~= outs_model(pre) + seq![
                    spec_out_of_token(token_model(*t)),
                ]);
            }
        },
        RicciAlternative::Nested(s) => {
            proof {
                lemma_elems_suffix_zero(scope_model(*s).content);
            }
            sequentialize_sequence(s, stream);
        },
        RicciAlternative::TensorAccess { tensor_name, pos, indexes } => {
            let a = access_tok(tensor_name, indexes);
            stream.push(a);
            proof {
                lemma_outs_model_push(pre, a);
                assert(outs_model(stream@) =~= outs_model(pre) + seq![
                    spec_access(tensor_name@, names_view(indexes@)),
                ]);
            }
        },
    }
    let ghost mid = stream@;
    proof {
        assert(outs_model(mid) == outs_model(pre) + spec_elem_stream(m[i as int]));
    }
    sequentialize_elements(content, i + 1, stream);
    proof {
        assert((outs_model(pre) + spec_elem_stream(m[i as int])) + spec_elems_stream(
            m.skip(i as int + 1),
        ) =~= outs_model(pre) + (spec_elem_stream(m[i as int]) + spec_elems_stream(
            m.skip(i as int + 1),
        )));
    }
}

/// Take the whole-unit binder out of a scope, when the scope is
/// exactly one binder; a binder without indexes yields its body.
pub fn try_extract_func(sequence: RicciSequence) -> (r: Result<RicciFunction, RicciSequence>)
    ensures
        ({
            let s = sequence@;
            if s.content.len() == 1 && s.content[0] is Func {
                if s.content[0]->Func_0.inverted.len() > 0 {
                    r is Ok && r->Ok_0@ == s.content[0]->Func_0
                } else {
                    r is Err && r->Err_0@ == s.content[0]->Func_0.body
                }
            } else {
                r is Err && r->Err_0@ == s
            }
        }),
{
    let ghost s0 = sequence@;
    proof {
        lemma_elems_model_len(sequence.content@);
    }
    if sequence.content.len() != 1 {
        return Err(sequence);
    }
    let is_func = match &sequence.content[0] {
        RicciAlternative::Func(_) => true,
        _ => false,
    };
    if !is_func {
        proof {
            assert(s0.content[0] == elem_model(sequence.content@[0]));
        }
        return Err(sequence);
    }
    let mut sequence = sequence;
    let ghost pre = sequence.content@;
    let popped = sequence.content.pop();
    proof {
        assert(popped == Some(pre[0]));
        assert(s0.content[0] == elem_model(pre[0]));
    }
    match popped {
        Some(RicciAlternative::Func(func)) => {
            proof {
                assert(s0.content[0]->Func_0 == func@);
            }
            if func.inverted_indexes.len() > 0 {
                proof {
                    assert(func@.inverted.len() == func.inverted_indexes@.len());
                }
                Ok(func)
            } else {
                proof {
                    assert(func@.inverted.len() == func.inverted_indexes@.len());
                }
                Err(func.sequence)
            }
        },
        _ => {
            proof {
                assert(false);
            }
            Err(sequence)
        },
    }
}

/// Emit the array construction of a whole-unit binder.
pub fn sequentialize_shape_creation(func: RicciFunction) -> (r: Vec<OutTok>)
    ensures
        outs_model(r@) == spec_shape_creation(func@),
{
    let ghost gf = func@;
    let dn = direct_names(&func.inverted_indexes);
    let dims = dim_names_of(&dn);
    proof {
        assert(gf.inverted == ids_view(func.inverted_indexes@));
        assert(names_view(dn@) == ident_names(gf.inverted).reverse());
        assert(names_view(dims@) == spec_dim_names(ident_names(gf.inverted).reverse()));
    }
    let order = func.inverted_indexes.len();
    let mut content: Vec<OutTok> = Vec::new();
    proof {
        assert(outs_model(content@) =~= Seq::<OutModel>::empty());
        lemma_elems_suffix_zero(scope_model(func.sequence).content);
    }
    sequentialize_sequence(&func.sequence, &mut content);
    proof {
        assert(outs_model(content@) =~= spec_scope_stream(gf.body));
    }
    let mut ix: Vec<OutTok> = Vec::new();
    ix.push(pu("::"));
    ix.push(kw("ndarray"));
    ix.push(pu("::"));
    ix.push(kw("Ix"));
    ix.push(pu(";"));
    let mut order_lit = dec_string(order);
    order_lit.append("usize");
    ix.push(OutTok::Lit(order_lit));
    proof {
        lemma_outs_model_len(ix@);
        assert(outs_model(ix@) =~= spec_shape_creation(gf)[13]->Bracket_0);
    }
    let ghost gcontent = outs_model(content@);
    let mut args: Vec<OutTok> = Vec::new();
    let dims_tup = tuple_of(&dims);
    args.push(dims_tup);
    args.push(pu(","));
    args.push(pu("|"));
    let direct_tup = tuple_of(&dn);
    args.push(direct_tup);
    args.push(pu("|"));
    args.push(OutTok::Brace(content));
    proof {
        lemma_outs_model_len(args@);
        assert(args@[0]@ == spec_tuple_of(spec_dim_names(ident_names(gf.inverted).reverse())));
        assert(args@[3]@ == spec_tuple_of(ident_names(gf.inverted).reverse()));
        assert(args@[5]@ == OutModel::Brace(spec_scope_stream(gf.body)));
        assert(outs_model(args@) =~= spec_shape_creation(gf)[17]->Paren_0);
    }
    let mut v: Vec<OutTok> = Vec::new();
    v.push(pu("::"));
    v.push(kw("ndarray"));
    v.push(pu("::"));
    v.push(kw("Array"));
    v.push(pu("::"));
    v.push(pu("<"));
    v.push(kw("_"));
    v.push(pu(","));
    v.push(pu("::"));
    v.push(kw("ndarray"));
    v.push(pu("::"));
    v.push(kw("Dim"));
    v.push(pu("<"));
    v.push(OutTok::Bracket(ix));
    v.push(pu(">>"));
    v.push(pu("::"));
    v.push(kw("from_shape_fn"));
    v.push(OutTok::Paren(args));
    proof {
        lemma_outs_model_len(v@);
        assert(v@[13]@ == spec_shape_creation(gf)[13]);
        assert(v@[17]@ == spec_shape_creation(gf)[17]);
        assert(outs_model(v@) =~= spec_shape_creation(gf));
    }
    v
}

/// Lower the body of a compilation unit and append it.
pub fn sequentialize_body(sequence: RicciSequence, stream: &mut Vec<OutTok>)
    ensures
        outs_model(final(stream)@) == outs_model(old(stream)@) + spec_body(sequence@),
{
    let ghost gs = sequence@;
    match try_extract_func(sequence) {
        Ok(func) => {
            let sc = sequentialize_shape_creation(func);
            append_toks(stream, sc);
        },
        Err(rest) => {
            sequentialize_sequence(&rest, stream);
        },
    }
}

/// Lower a parsed compilation unit: the header, then the body, inside
/// one brace group.
pub fn sequentialize(
    sequence: RicciSequence,
    index_use: IndexUse,
    tensor_use: TensorUse,
) -> (r: Vec<OutTok>)
    ensures
        outs_model(r@) == spec_sequentialize(sequence@, index_use@, tensor_use@),
{
    let ghost gs = sequence@;
    let ghost giu = index_use@;
    let ghost gtu = tensor_use@;
    let mut inner = sequentialize_header(&index_use, &tensor_use);
    sequentialize_body(sequence, &mut inner);
    let mut out: Vec<OutTok> = Vec::new();
    out.push(OutTok::Brace(inner));
    proof {
        lemma_outs_model_len(out@);
        assert(outs_model(out@) =~= spec_sequentialize(gs, giu, gtu));
    }
    out
}


} // verus!
