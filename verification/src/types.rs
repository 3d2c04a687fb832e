//! Data types shared by the parser and the code generator: compile
//! errors, the scope tree built by the parser, and the two side tables
//! (index usage and tensor arity) filled in while parsing.

use vstd::prelude::*;

use crate::tokens::{Token, TokenModel, token_model};

verus! {

// ---------------------------------------------------------------------
// Compile errors
// ---------------------------------------------------------------------
/// The structural errors the parser can report.  Each one is raised at
/// most once per compilation: the first error wins.
#[derive(Clone, Copy, PartialEq, Eq, Structural, Debug)]
pub enum CompileErrorKind {
    /// A `;` occurred somewhere in the input.
    ForbiddenSemicolon,
    /// A `{ ... }` group occurred somewhere in the input.
    ForbiddenBrace,
    /// The same index name was declared twice by one binder.
    ReusedIndexName,
    /// A subscript used an index that no enclosing binder declared.
    UndeclaredIndex,
    /// An array was subscripted with a different number of indexes
    /// than at its first use.
    InconsistentIndexCount,
    /// A subscript list held something besides identifiers and commas.
    InvalidIndexContent,
    /// A `[ ... ]` group was not preceded by a bare identifier.
    TensorNameExpected,
}

/// A structural error: its kind and the position of the offending token.
#[derive(Clone, Copy, PartialEq, Eq, Structural, Debug)]
pub struct CompileError {
    pub kind: CompileErrorKind,
    pub pos: usize,
}

pub open spec fn spec_error_message(kind: CompileErrorKind) -> Seq<char> {
    match kind {
        CompileErrorKind::ForbiddenSemicolon => "Character ';' is forbidden"@,
        CompileErrorKind::ForbiddenBrace => "Characters '{' and '}' are forbidden"@,
        CompileErrorKind::ReusedIndexName => "Illegal reused index name"@,
        CompileErrorKind::UndeclaredIndex => "Undeclared index"@,
        CompileErrorKind::InconsistentIndexCount => "Inconsistent number of indexes."@,
        CompileErrorKind::InvalidIndexContent => "Invalid content in indexes"@,
        CompileErrorKind::TensorNameExpected => (
        "Invalid tensor name: an identifier was expected"@),
    }
}

impl CompileError {
    /// The fixed diagnostic text of this error.
    pub fn message(&self) -> (r: &'static str)
        ensures
            r@ == spec_error_message(self.kind),
    {
        match self.kind {
            CompileErrorKind::ForbiddenSemicolon => "Character ';' is forbidden",
            CompileErrorKind::ForbiddenBrace => "Characters '{' and '}' are forbidden",
            CompileErrorKind::ReusedIndexName => "Illegal reused index name",
            CompileErrorKind::UndeclaredIndex => "Undeclared index",
            CompileErrorKind::InconsistentIndexCount => "Inconsistent number of indexes.",
            CompileErrorKind::InvalidIndexContent => "Invalid content in indexes",
            CompileErrorKind::TensorNameExpected => "Invalid tensor name: an identifier was expected",
        }
    }
}

// ---------------------------------------------------------------------
// Identifiers with their positions
// ---------------------------------------------------------------------
/// An identifier together with the position of the token it came from.
pub struct IdentTok {
    pub name: String,
    pub pos: usize,
}

pub struct IdentModel {
    pub name: Seq<char>,
    pub pos: usize,
}

impl View for IdentTok {
    type V = IdentModel;

    open spec fn view(&self) -> IdentModel {
        IdentModel { name: self.name@, pos: self.pos }
    }
}

/// The model of a list of positioned identifiers.
pub open spec fn ids_view(v: Seq<IdentTok>) -> Seq<IdentModel> {
    v.map_values(|t: IdentTok| t@)
}

/// The model of a list of names.
pub open spec fn names_view(v: Seq<String>) -> Seq<Seq<char>> {
    v.map_values(|s: String| s@)
}

/// The names of a list of positioned identifiers.
pub open spec fn ident_names(v: Seq<IdentModel>) -> Seq<Seq<char>> {
    v.map_values(|t: IdentModel| t.name)
}

// ---------------------------------------------------------------------
// The scope tree
// ---------------------------------------------------------------------
/// One usage site of an index: which array it subscripted, at which
/// axis position, and under which index name.
pub struct RicciPosition {
    pub tensor_name: String,
    pub position: usize,
    pub index_name: String,
}

pub struct SiteModel {
    pub tensor: Seq<char>,
    pub axis: usize,
    pub index: Seq<char>,
}

impl View for RicciPosition {
    type V = SiteModel;

    open spec fn view(&self) -> SiteModel {
        SiteModel { tensor: self.tensor_name@, axis: self.position, index: self.index_name@ }
    }
}

/// An index binder: the bound names in reverse declaration order, and
/// the scope they range over.
pub struct RicciFunction {
    pub inverted_indexes: Vec<IdentTok>,
    pub sequence: RicciSequence,
}

/// One element of a scope.
pub enum RicciAlternative {
    Func(RicciFunction),
    Tree(Token),
    Nested(RicciSequence),
    TensorAccess { tensor_name: String, pos: usize, indexes: Vec<String> },
}

/// An ordered scope of elements, with the position it started at and
/// whether the output must keep explicit parentheses around it.
pub struct RicciSequence {
    pub pos: usize,
    pub use_parens: bool,
    pub content: Vec<RicciAlternative>,
}

pub struct FuncModel {
    pub inverted: Seq<IdentModel>,
    pub body: ScopeModel,
}

pub enum ElemModel {
    Func(FuncModel),
    Tree(TokenModel),
    Nested(ScopeModel),
    Access { tensor: Seq<char>, pos: usize, indexes: Seq<Seq<char>> },
}

pub struct ScopeModel {
    pub pos: usize,
    pub parens: bool,
    pub content: Seq<ElemModel>,
}

pub open spec fn elem_model(e: RicciAlternative) -> ElemModel
    decreases e,
{
    match e {
        RicciAlternative::Func(f) => ElemModel::Func(func_model(f)),
        RicciAlternative::Tree(t) => ElemModel::Tree(token_model(t)),
        RicciAlternative::Nested(s) => ElemModel::Nested(scope_model(s)),
        RicciAlternative::TensorAccess { tensor_name, pos, indexes } => ElemModel::Access {
            tensor: tensor_name@,
            pos,
            indexes: names_view(indexes@),
        },
    }
}

pub open spec fn func_model(f: RicciFunction) -> FuncModel
    decreases f,
{
    FuncModel {
        inverted: ids_view(f.inverted_indexes@),
        body: scope_model(f.sequence),
    }
}

pub open spec fn scope_model(s: RicciSequence) -> ScopeModel
    decreases s,
{
    proof {
        assert(decreases_to!(s => s.content));
        assert(decreases_to!(s.content => s.content@));
    }
    ScopeModel { pos: s.pos, parens: s.use_parens, content: elems_model(s.content@) }
}

pub open spec fn elems_model(es: Seq<RicciAlternative>) -> Seq<ElemModel>
    decreases es,
{
    if es.len() == 0 {
        Seq::empty()
    } else {
        proof {
            assert(decreases_to!(es => es[0]));
            assert(decreases_to!(es => es.subrange(1, es.len() as int)));
            assert(es.drop_first() == es.subrange(1, es.len() as int));
        }
        seq![elem_model(es[0])] + elems_model(es.drop_first())
    }
}

pub proof fn lemma_elems_model_len(es: Seq<RicciAlternative>)
    ensures
        elems_model(es).len() == es.len(),
        forall|i: int| 0 <= i < es.len() ==> elems_model(es)[i] == elem_model(es[i]),
    decreases es.len(),
{
    if es.len() > 0 {
        lemma_elems_model_len(es.drop_first());
        assert forall|i: int| 0 <= i < es.len() implies elems_model(es)[i] == elem_model(
            es[i],
        ) by {
            if i > 0 {
                assert(elems_model(es)[i] == elems_model(es.drop_first())[i - 1]);
                assert(es.drop_first()[i - 1] == es[i]);
            }
        }
    }
}

pub proof fn lemma_elems_model_push(es: Seq<RicciAlternative>, e: RicciAlternative)
    ensures
        elems_model(es.push(e)) == elems_model(es).push(elem_model(e)),
{
    lemma_elems_model_len(es);
    lemma_elems_model_len(es.push(e));
    assert(elems_model(es.push(e)) =~= elems_model(es).push(elem_model(e)));
}

pub proof fn lemma_elems_model_drop_last(es: Seq<RicciAlternative>)
    requires
        es.len() > 0,
    ensures
        elems_model(es.drop_last()) == elems_model(es).drop_last(),
{
    lemma_elems_model_len(es);
    lemma_elems_model_len(es.drop_last());
    assert(elems_model(es.drop_last()) =~= elems_model(es).drop_last());
}

impl View for RicciSequence {
    type V = ScopeModel;

    open spec fn view(&self) -> ScopeModel {
        scope_model(*self)
    }
}

impl View for RicciFunction {
    type V = FuncModel;

    open spec fn view(&self) -> FuncModel {
        func_model(*self)
    }
}

impl View for RicciAlternative {
    type V = ElemModel;

    open spec fn view(&self) -> ElemModel {
        elem_model(*self)
    }
}

impl RicciFunction {
    /// Pair a binder's reversed index list with its body scope.
    pub fn new(inverted_indexes: Vec<IdentTok>, sequence: RicciSequence) -> (r: Self)
        ensures
            r@ == (FuncModel {
                inverted: ids_view(inverted_indexes@),
                body: sequence@,
            }),
    {
        RicciFunction { sequence, inverted_indexes }
    }
}

impl RicciSequence {
    /// The root scope of a compilation unit.
    pub fn initial() -> (r: Self)
        ensures
            r@ == (ScopeModel { pos: 0, parens: false, content: Seq::empty() }),
    {
        let r = Self { pos: 0, use_parens: false, content: Vec::new() };
        proof {
            assert(elems_model(r.content@) =~= Seq::<ElemModel>::empty());
        }
        r
    }

    /// A scope whose output keeps explicit parentheses.
    pub fn with_parens(pos: usize) -> (r: Self)
        ensures
            r@ == (ScopeModel { pos, parens: true, content: Seq::empty() }),
    {
        let r = Self { pos, use_parens: true, content: Vec::new() };
        proof {
            assert(elems_model(r.content@) =~= Seq::<ElemModel>::empty());
        }
        r
    }

    /// A scope spliced into its surroundings without grouping.
    pub fn naked(pos: usize) -> (r: Self)
        ensures
            r@ == (ScopeModel { pos, parens: false, content: Seq::empty() }),
    {
        let r = Self { pos, use_parens: false, content: Vec::new() };
        proof {
            assert(elems_model(r.content@) =~= Seq::<ElemModel>::empty());
        }
        r
    }

    /// Append a raw token to this scope.
    pub fn push_token(&mut self, token: Token)
        ensures
            final(self)@ == (ScopeModel {
                content: old(self)@.content.push(ElemModel::Tree(token@)),
                ..old(self)@
            }),
    {
        let ghost pre = self.content@;
        self.content.push(RicciAlternative::Tree(token));
        proof {
            lemma_elems_model_push(pre, RicciAlternative::Tree(token));
        }
    }

    /// Append any element to this scope.
    pub fn push_element(&mut self, element: RicciAlternative)
        ensures
            final(self)@ == (ScopeModel {
                content: old(self)@.content.push(element@),
                ..old(self)@
            }),
    {
        let ghost pre = self.content@;
        self.content.push(element);
        proof {
            lemma_elems_model_push(pre, element);
        }
    }

    /// Pop the maximal run of trailing bare identifiers off this scope,
    /// in last-pushed-first order, to become a binder's index list.
    pub fn extract_previous_identifiers(&mut self) -> (r: Vec<IdentTok>)
        ensures
            ({
                let (ids, rest) = spec_extract_identifiers(old(self)@.content);
                ids_view(r@) == ids && final(self)@ == (ScopeModel {
                    content: rest,
                    ..old(self)@
                })
            }),
    {
        let ghost orig = self@;
        let mut inverted: Vec<IdentTok> = Vec::new();
        proof {
            assert(ids_view(inverted@) =~= Seq::<IdentModel>::empty());
            assert(ids_view(inverted@) + spec_extract_identifiers(
                self@.content,
            ).0 =~= spec_extract_identifiers(orig.content).0);
        }
        loop
            invariant
                spec_extract_identifiers(orig.content) == (
                    (
                        ids_view(inverted@) + spec_extract_identifiers(
                            self@.content,
                        ).0,
                        spec_extract_identifiers(self@.content).1,
                    )
                ),
                self.pos == orig.pos,
                self.use_parens == orig.parens,
                orig == old(self)@,
            decreases self.content.len(),
        {
            let n: usize = self.content.len();
            proof {
                lemma_elems_model_len(self.content@);
            }
            if n == 0 {
                proof {
                    let (ids, rest) = spec_extract_identifiers(self@.content);
                    assert(ids =~= Seq::<IdentModel>::empty());
                    assert(ids_view(inverted@) + ids =~= ids_view(inverted@));
                }
                return inverted;
            }
            let is_ident = match &self.content[n - 1] {
                RicciAlternative::Tree(Token::Ident { .. }) => true,
                _ => false,
            };
            if !is_ident {
                proof {
                    let (ids, rest) = spec_extract_identifiers(self@.content);
                    assert(ids =~= Seq::<IdentModel>::empty());
                    assert(ids_view(inverted@) + ids =~= ids_view(inverted@));
                }
                return inverted;
            }
            let ghost pre = self.content@;
            let last = self.content.pop().unwrap();
            match last {
                RicciAlternative::Tree(Token::Ident { name, pos }) => {
                    let ghost pre_inv = inverted@;
                    inverted.push(IdentTok { name, pos });
                    proof {
                        lemma_elems_model_len(pre);
                        lemma_elems_model_drop_last(pre);
                        assert(pre.drop_last() =~= self.content@);
                        let m = elems_model(pre);
                        assert(m.last() == elem_model(pre.last()));
                        let (ids, rest) = spec_extract_identifiers(elems_model(self.content@));
                        assert(ids_view(inverted@) =~= ids_view(pre_inv).push(
                            IdentModel { name: name@, pos },
                        ));
                        assert(ids_view(pre_inv).push(IdentModel { name: name@, pos }) + ids
                            =~= ids_view(pre_inv) + (seq![IdentModel { name: name@, pos }] + ids));
                    }
                },
                _ => {
                    proof {
                        assert(false);
                    }
                },
            }
        }
    }
}

/// Split a scope's content into the trailing run of bare identifiers
/// (in last-first order) and the remaining prefix.
pub open spec fn spec_extract_identifiers(content: Seq<ElemModel>) -> (Seq<IdentModel>, Seq<
    ElemModel,
>)
    decreases content.len(),
{
    if content.len() > 0 && content.last() is Tree && content.last()->Tree_0 is Ident {
        let t = content.last()->Tree_0;
        let (ids, rest) = spec_extract_identifiers(content.drop_last());
        (seq![IdentModel { name: t->Ident_name, pos: t->Ident_pos }] + ids, rest)
    } else {
        (Seq::empty(), content)
    }
}


// ---------------------------------------------------------------------
// Sizes of the scope tree, used as termination measures
// ---------------------------------------------------------------------
pub open spec fn scope_msize(s: ScopeModel) -> nat
    decreases s,
{
    proof {
        assert(decreases_to!(s => s.content));
    }
    1 + elems_msize(s.content)
}

pub open spec fn elem_msize(e: ElemModel) -> nat
    decreases e,
{
    match e {
        ElemModel::Func(f) => 1 + scope_msize(f.body),
        ElemModel::Nested(s) => 1 + scope_msize(s),
        _ => 1,
    }
}

pub open spec fn elems_msize(es: Seq<ElemModel>) -> nat
    decreases es,
{
    if es.len() == 0 {
        0
    } else {
        proof {
            assert(decreases_to!(es => es[0]));
            assert(decreases_to!(es => es.subrange(1, es.len() as int)));
            assert(es.drop_first() == es.subrange(1, es.len() as int));
        }
        elem_msize(es[0]) + elems_msize(es.drop_first())
    }
}

/// Size of the suffix of `es` that starts at `i`.
pub open spec fn elems_suffix_msize(es: Seq<ElemModel>, i: int) -> nat
    decreases es.len() - i,
{
    if i < 0 || i >= es.len() {
        0
    } else {
        elem_msize(es[i]) + elems_suffix_msize(es, i + 1)
    }
}

pub proof fn lemma_elem_msize_pos(e: ElemModel)
    ensures
        elem_msize(e) >= 1,
{
}

pub proof fn lemma_elems_suffix_step(es: Seq<ElemModel>, i: int)
    requires
        0 <= i < es.len(),
    ensures
        elems_suffix_msize(es, i) == elem_msize(es[i]) + elems_suffix_msize(es, i + 1),
        elem_msize(es[i]) >= 1,
{
    lemma_elem_msize_pos(es[i]);
}

pub proof fn lemma_elems_suffix_zero(es: Seq<ElemModel>)
    ensures
        elems_suffix_msize(es, 0) == elems_msize(es),
    decreases es.len(),
{
    if es.len() > 0 {
        lemma_elems_suffix_zero(es.drop_first());
        lemma_elems_suffix_shift(es, 1);
    }
}

pub proof fn lemma_elems_suffix_shift(es: Seq<ElemModel>, i: int)
    requires
        0 < i <= es.len(),
        es.len() > 0,
    ensures
        elems_suffix_msize(es, i) == elems_suffix_msize(es.drop_first(), i - 1),
    decreases es.len() - i,
{
    if i < es.len() {
        lemma_elems_suffix_shift(es, i + 1);
        assert(es.drop_first()[i - 1] == es[i]);
    }
}

// ---------------------------------------------------------------------
// Index registry
// ---------------------------------------------------------------------
/// Everything recorded about one declared index: its name and every
/// usage site, in first-seen order.
pub struct IndexEntry {
    pub name: String,
    pub sites: Vec<RicciPosition>,
}

pub struct EntryModel {
    pub name: Seq<char>,
    pub sites: Seq<SiteModel>,
}

impl View for IndexEntry {
    type V = EntryModel;

    open spec fn view(&self) -> EntryModel {
        EntryModel { name: self.name@, sites: self.sites@.map_values(|s: RicciPosition| s@) }
    }
}

/// The index registry: one entry per declared index name, in first
/// declaration order.
pub struct IndexUse {
    pub entries: Vec<IndexEntry>,
}

pub struct IndexUseModel {
    pub entries: Seq<EntryModel>,
}

impl View for IndexUse {
    type V = IndexUseModel;

    open spec fn view(&self) -> IndexUseModel {
        IndexUseModel { entries: self.entries@.map_values(|e: IndexEntry| e@) }
    }
}

/// First position of `name` among `entries`, or `-1`.
pub open spec fn spec_find_entry(entries: Seq<EntryModel>, name: Seq<char>, i: int) -> int
    decreases entries.len() - i,
{
    if i < 0 || i >= entries.len() {
        -1
    } else if entries[i].name == name {
        i
    } else {
        spec_find_entry(entries, name, i + 1)
    }
}

pub proof fn lemma_find_entry_props(entries: Seq<EntryModel>, name: Seq<char>, i: int)
    requires
        0 <= i <= entries.len(),
    ensures
        ({
            let k = spec_find_entry(entries, name, i);
            (k == -1 <==> forall|j: int| i <= j < entries.len() ==> entries[j].name != name) && (k
                != -1 ==> i <= k < entries.len() && entries[k].name == name && forall|j: int|
                i <= j < k ==> entries[j].name != name)
        }),
    decreases entries.len() - i,
{
    if i < entries.len() && entries[i].name != name {
        lemma_find_entry_props(entries, name, i + 1);
    }
}

/// Declare a new index name: refused when it is already declared.
pub open spec fn spec_declare(m: IndexUseModel, name: Seq<char>) -> (bool, IndexUseModel) {
    if spec_find_entry(m.entries, name, 0) >= 0 {
        (false, m)
    } else {
        (true, IndexUseModel { entries: m.entries.push(EntryModel { name, sites: Seq::empty() }) })
    }
}

/// Record one usage site of `index`: refused when `index` was never
/// declared.
pub open spec fn spec_push_site(m: IndexUseModel, index: Seq<char>, tensor: Seq<char>, axis: usize) -> (
    bool,
    IndexUseModel,
) {
    let k = spec_find_entry(m.entries, index, 0);
    if k < 0 {
        (false, m)
    } else {
        let entry = m.entries[k];
        let entry2 = EntryModel {
            name: entry.name,
            sites: entry.sites.push(SiteModel { tensor, axis, index }),
        };
        (true, IndexUseModel { entries: m.entries.update(k, entry2) })
    }
}

impl IndexUse {
    /// An empty registry.
    pub fn new() -> (r: Self)
        ensures
            r@ == (IndexUseModel { entries: Seq::empty() }),
    {
        let r = IndexUse { entries: Vec::new() };
        proof {
            assert(r@.entries =~= Seq::<EntryModel>::empty());
        }
        r
    }

    fn find(&self, name: &String) -> (r: Option<usize>)
        ensures
            ({
                let k = spec_find_entry(self@.entries, name@, 0);
                (k < 0 ==> r is None) && (k >= 0 ==> r == Some(k as usize) && k
                    < self.entries@.len())
            }),
    {
        let mut i: usize = 0;
        while i < self.entries.len()
            invariant
                i <= self.entries.len(),
                spec_find_entry(self@.entries, name@, 0) == spec_find_entry(
                    self@.entries,
                    name@,
                    i as int,
                ),
            decreases self.entries.len() - i,
        {
            if self.entries[i].name == *name {
                return Some(i);
            }
            i = i + 1;
        }
        None
    }

    /// Declare an index name; `false` means it was already declared.
    pub fn declare_new(&mut self, index_name: String) -> (added: bool)
        ensures
            spec_declare(old(self)@, index_name@) == (added, final(self)@),
    {
        match self.find(&index_name) {
            Some(_) => false,
            None => {
                let ghost pre = self.entries@;
                self.entries.push(IndexEntry { name: index_name, sites: Vec::new() });
                proof {
                    let f = |e: IndexEntry| e@;
                    assert(self.entries@.map_values(f) =~= pre.map_values(f).push(
                        self.entries@.last()@,
                    ));
                    assert(self.entries@.last()@.sites =~= Seq::<SiteModel>::empty());
                }
                true
            },
        }
    }

    /// Hand out the entries, one per declared index, in declaration
    /// order, each with its usage sites in first-seen order.
    pub fn into_iter(self) -> (r: Vec<IndexEntry>)
        ensures
            r == self.entries,
    {
        self.entries
    }

    /// Record a usage site; `false` means the index was never declared.
    pub fn push(&mut self, index_name: String, tensor_name: String, position: usize) -> (added:
        bool)
        ensures
            spec_push_site(old(self)@, index_name@, tensor_name@, position) == (
                added,
                final(self)@,
            ),
    {
        match self.find(&index_name) {
            None => false,
            Some(k) => {
                let ghost pre = self.entries@;
                proof {
                    assert(self.entries.len() == self.entries@.len());
                }
                let mut entry = self.entries.remove(k);
                let ghost epre = entry@;
                let site = RicciPosition { tensor_name, position, index_name };
                let ghost gsite = site@;
                entry.sites.push(site);
                proof {
                    assert(entry@.sites =~= epre.sites.push(gsite));
                }
                let ghost emid = entry@;
                let ghost entry_snap = entry;
                self.entries.insert(k, entry);
                proof {
                    assert(self.entries@ =~= pre.update(k as int, entry_snap));
                    assert(emid == (EntryModel {
                        name: old(self)@.entries[k as int].name,
                        sites: old(self)@.entries[k as int].sites.push(gsite),
                    }));
                    assert(self@.entries =~= old(self)@.entries.update(k as int, emid));
                    let out = spec_push_site(old(self)@, index_name@, tensor_name@, position);
                    assert(out.0 == true);
                    assert(out.1.entries == old(self)@.entries.update(k as int, emid));
                    assert(self@.entries == out.1.entries);
                    assert(self@ == out.1);
                }
                true
            },
        }
    }
}

// ---------------------------------------------------------------------
// Tensor registry
// ---------------------------------------------------------------------
/// The arity first observed for one array name.
pub struct TensorOrder {
    pub name: String,
    pub order: usize,
}

impl View for TensorOrder {
    type V = (Seq<char>, usize);

    open spec fn view(&self) -> (Seq<char>, usize) {
        (self.name@, self.order)
    }
}

/// The tensor registry: array name to its declared arity.
pub struct TensorUse {
    pub orders: Vec<TensorOrder>,
}

pub struct TensorUseModel {
    pub orders: Seq<(Seq<char>, usize)>,
}

impl View for TensorUse {
    type V = TensorUseModel;

    open spec fn view(&self) -> TensorUseModel {
        TensorUseModel { orders: self.orders@.map_values(|t: TensorOrder| t@) }
    }
}

pub open spec fn spec_find_order(orders: Seq<(Seq<char>, usize)>, name: Seq<char>, i: int) -> int
    decreases orders.len() - i,
{
    if i < 0 || i >= orders.len() {
        -1
    } else if orders[i].0 == name {
        i
    } else {
        spec_find_order(orders, name, i + 1)
    }
}

pub proof fn lemma_find_order_props(orders: Seq<(Seq<char>, usize)>, name: Seq<char>, i: int)
    requires
        0 <= i <= orders.len(),
    ensures
        ({
            let k = spec_find_order(orders, name, i);
            (k == -1 <==> forall|j: int| i <= j < orders.len() ==> orders[j].0 != name) && (k != -1
                ==> i <= k < orders.len() && orders[k].0 == name && forall|j: int|
                i <= j < k ==> orders[j].0 != name)
        }),
    decreases orders.len() - i,
{
    if i < orders.len() && orders[i].0 != name {
        lemma_find_order_props(orders, name, i + 1);
    }
}

/// Record or check the arity of an array: `false` means the arity
/// differs from the one first recorded.
pub open spec fn spec_update_order(m: TensorUseModel, name: Seq<char>, order: usize) -> (
    bool,
    TensorUseModel,
) {
    let k = spec_find_order(m.orders, name, 0);
    if k >= 0 {
        (m.orders[k].1 == order, m)
    } else {
        (true, TensorUseModel { orders: m.orders.push((name, order)) })
    }
}

/// The arity recorded for `name`, which must be present.
pub open spec fn spec_get_order(m: TensorUseModel, name: Seq<char>) -> usize {
    m.orders[spec_find_order(m.orders, name, 0)].1
}


/// The arity to assume for `name` in generated dimension lookups: the
/// recorded one, or one where nothing was recorded.
pub open spec fn spec_order_of(m: TensorUseModel, name: Seq<char>) -> usize {
    if spec_find_order(m.orders, name, 0) >= 0 {
        spec_get_order(m, name)
    } else {
        1
    }
}

impl TensorUse {
    /// An empty registry.
    pub fn new() -> (r: Self)
        ensures
            r@ == (TensorUseModel { orders: Seq::empty() }),
    {
        let r = TensorUse { orders: Vec::new() };
        proof {
            assert(r@.orders =~= Seq::<(Seq<char>, usize)>::empty());
        }
        r
    }

    fn find(&self, name: &String) -> (r: Option<usize>)
        ensures
            ({
                let k = spec_find_order(self@.orders, name@, 0);
                (k < 0 ==> r is None) && (k >= 0 ==> r == Some(k as usize) && k
                    < self.orders@.len())
            }),
    {
        let mut i: usize = 0;
        while i < self.orders.len()
            invariant
                i <= self.orders.len(),
                spec_find_order(self@.orders, name@, 0) == spec_find_order(
                    self@.orders,
                    name@,
                    i as int,
                ),
            decreases self.orders.len() - i,
        {
            if self.orders[i].name == *name {
                return Some(i);
            }
            i = i + 1;
        }
        None
    }

    /// Record the arity of `tensor_name` at its first use, or check it
    /// against the recorded one; `false` on a mismatch.
    pub fn update_order(&mut self, tensor_name: &String, order: usize) -> (consistent: bool)
        ensures
            spec_update_order(old(self)@, tensor_name@, order) == (consistent, final(self)@),
    {
        match self.find(tensor_name) {
            Some(k) => {
                proof {
                    assert(self.orders@.len() == self.orders.len());
                    assert(self@.orders[k as int] == self.orders@[k as int]@);
                }
                self.orders[k].order == order
            },
            None => {
                let ghost pre = self.orders@;
                self.orders.push(TensorOrder { name: tensor_name.clone(), order });
                proof {
                    assert(self@.orders =~= old(self)@.orders.push((tensor_name@, order)));
                }
                true
            },
        }
    }

    /// The arity recorded for `tensor_name`, which must have been seen.
    pub fn get_order(&self, tensor_name: &String) -> (order: usize)
        requires
            spec_find_order(self@.orders, tensor_name@, 0) >= 0,
        ensures
            order == spec_get_order(self@, tensor_name@),
    {
        let r = self.find(tensor_name);
        proof {
            let kk = spec_find_order(self@.orders, tensor_name@, 0);
            assert(self.orders@.len() == self.orders.len());
            assert(kk >= 0);
            assert(r == Some(kk as usize));
        }
        let k = r.unwrap();
        proof {
            let m = self@;
            let kk = spec_find_order(m.orders, tensor_name@, 0);
            assert(kk == k as int);
            assert(m.orders[kk] == self.orders@[k as int]@);
            assert(spec_get_order(m, tensor_name@) == m.orders[kk].1);
        }
        self.orders[k].order
    }

    /// The arity recorded for `tensor_name`, or one when nothing was
    /// recorded.
    pub(crate) fn order_of(&self, tensor_name: &String) -> (order: usize)
        ensures
            order == spec_order_of(self@, tensor_name@),
    {
        match self.find(tensor_name) {
            Some(k) => {
                proof {
                    assert(self.orders@.len() == self.orders.len());
                    assert(self@.orders[k as int] == self.orders@[k as int]@);
                }
                self.orders[k].order
            },
            None => 1,
        }
    }
}

} // verus!
