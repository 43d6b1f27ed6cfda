use vstd::prelude::*;

use crate::ast::{TreeEntry, Expr, InlineExpr, Message, MsgPattern, PatternElement, ResourceTree, Variant};

verus! {

/// A single extraction record: a message identifier together with the
/// variable names its pattern references, deduplicated, in first-appearance
/// order.
pub struct ExtractionRecord {
    pub name: String,
    pub variables: Vec<String>,
}

/// The mathematical model of one extraction record: a message name together
/// with its variable names in first-appearance order.
pub struct RecordModel {
    pub name: Seq<char>,
    pub vars: Seq<Seq<char>>,
}

/// Appends `name` to `acc` unless it is already present: deduplication that
/// keeps first-appearance order.
pub open spec fn push_unique(acc: Seq<Seq<char>>, name: Seq<char>) -> Seq<Seq<char>> {
    if acc.contains(name) {
        acc
    } else {
        acc.push(name)
    }
}

/// Variable names contributed by one inline expression: a variable reference
/// contributes its name, every other inline form contributes nothing.
pub open spec fn collect_inline(acc: Seq<Seq<char>>, e: InlineExpr) -> Seq<Seq<char>> {
    match e {
        InlineExpr::VarRef(name) => push_unique(acc, name@),
        InlineExpr::Other => acc,
    }
}

/// Variable names collected from one placeable expression, appended to `acc`
/// in first-appearance order. A select expression contributes its selector's
/// variable (if any) first, then the variables of every variant value,
/// default and non-default alike.
pub open spec fn collect_expr(acc: Seq<Seq<char>>, e: Expr) -> Seq<Seq<char>>
    decreases e, 0int,
{
    match e {
        Expr::Inline(inline) => collect_inline(acc, inline),
        Expr::Select { selector, variants } => collect_variants(
            collect_inline(acc, selector),
            variants,
            variants.len() as int,
        ),
    }
}

/// Variable names of the first `n` variants of a select expression, in order.
pub open spec fn collect_variants(acc: Seq<Seq<char>>, variants: Vec<Variant>, n: int) -> Seq<
    Seq<char>,
>
    decreases variants, n,
{
    if n <= 0 || n > variants.len() {
        acc
    } else {
        collect_pattern(collect_variants(acc, variants, n - 1), variants[n - 1].value)
    }
}

/// Variable names of a whole pattern, appended to `acc` in first-appearance
/// order.
pub open spec fn collect_pattern(acc: Seq<Seq<char>>, p: MsgPattern) -> Seq<Seq<char>>
    decreases p, 0int,
{
    collect_elements(acc, p.elements, p.elements.len() as int)
}

/// Variable names of the first `n` elements of a pattern, in order. Literal
/// text contributes nothing.
pub open spec fn collect_elements(acc: Seq<Seq<char>>, elements: Vec<PatternElement>, n: int) -> Seq<
    Seq<char>,
>
    decreases elements, n,
{
    if n <= 0 || n > elements.len() {
        acc
    } else {
        let rest = collect_elements(acc, elements, n - 1);
        match elements[n - 1] {
            PatternElement::TextLiteral(_) => rest,
            PatternElement::Placeable(e) => collect_expr(rest, e),
        }
    }
}

/// The variable names a message requires: those of its pattern, or none when
/// it has no pattern.
pub open spec fn message_vars(m: Message) -> Seq<Seq<char>> {
    match m.value {
        Some(p) => collect_pattern(Seq::empty(), p),
        None => Seq::empty(),
    }
}

/// The extraction record of one message.
pub open spec fn record_of(m: Message) -> RecordModel {
    RecordModel { name: m.id@, vars: message_vars(m) }
}

/// The records extracted from the first `n` entries of a resource body, in
/// declaration order; entries other than messages contribute nothing.
pub open spec fn extract_prefix(body: Seq<TreeEntry>, n: int) -> Seq<RecordModel>
    decreases n,
{
    if n <= 0 || n > body.len() {
        Seq::empty()
    } else {
        extract_prefix(body, n - 1) + match body[n - 1] {
            TreeEntry::Message(m) => seq![record_of(m)],
            TreeEntry::Other => Seq::empty(),
        }
    }
}

/// The full extraction of a resource: one record per message entry, in
/// declaration order.
pub open spec fn spec_extract(r: ResourceTree) -> Seq<RecordModel> {
    extract_prefix(r.body@, r.body@.len() as int)
}

/// The model of a list of collected variable names.
pub open spec fn vars_view(v: Vec<String>) -> Seq<Seq<char>> {
    Seq::new(v@.len(), |i: int| v@[i]@)
}

/// The model of a list of extraction records.
pub open spec fn records_view(v: Vec<ExtractionRecord>) -> Seq<RecordModel> {
    Seq::new(v@.len(), |i: int| v@[i]@)
}

impl View for ExtractionRecord {
    type V = RecordModel;

    open spec fn view(&self) -> RecordModel {
        RecordModel { name: self.name@, vars: vars_view(self.variables) }
    }
}

/// Appends `name` to the collected variables unless it is already present.
pub fn push_var(acc: &mut Vec<String>, name: &String)
    ensures
        vars_view(*final(acc)) == push_unique(vars_view(*old(acc)), name@),
{
    let n = acc.len();
    let mut i: usize = 0;
    while i < n
        invariant
            *acc == *old(acc),
            n == acc.len(),
            i <= n,
            forall|j: int| 0 <= j < i ==> acc@[j]@ != name@,
        decreases n - i,
    {
        if acc[i].eq(name) {
            proof {
                assert(vars_view(*acc)[i as int] == name@);
                assert(vars_view(*acc).contains(name@));
            }
            return ;
        }
        i += 1;
    }
    proof {
        assert forall|j: int| 0 <= j < vars_view(*acc).len() implies vars_view(*acc)[j]
            != name@ by {
            assert(acc@[j]@ != name@);
        }
        assert(!vars_view(*acc).contains(name@));
    }
    acc.push(name.clone());
    proof {
        assert(vars_view(*acc) =~= push_unique(vars_view(*old(acc)), name@));
    }
}

/// Collects the variable name of one inline expression, if it is a variable
/// reference.
pub fn collect_inline_vars(acc: &mut Vec<String>, e: &InlineExpr)
    ensures
        vars_view(*final(acc)) == collect_inline(vars_view(*old(acc)), *e),
{
    match e {
        InlineExpr::VarRef(name) => push_var(acc, name),
        InlineExpr::Other => {},
    }
}

/// Collects the variable names of one placeable expression, walking every
/// variant of a select expression.
pub fn collect_expr_vars(acc: &mut Vec<String>, e: &Expr)
    ensures
        vars_view(*final(acc)) == collect_expr(vars_view(*old(acc)), *e),
    decreases *e, 0int,
{
    match e {
        Expr::Inline(inline) => collect_inline_vars(acc, inline),
        Expr::Select { selector, variants } => {
            collect_inline_vars(acc, selector);
            let ghost base = vars_view(*acc);
            let n = variants.len();
            let mut i: usize = 0;
            while i < n
                invariant
                    *e == (Expr::Select { selector: *selector, variants: *variants }),
                    n == variants.len(),
                    i <= n,
                    vars_view(*acc) == collect_variants(base, *variants, i as int),
                decreases n - i,
            {
                proof {
                    assert(decreases_to!(*e => (*e)->Select_variants));
                    assert((*e)->Select_variants == *variants);
                    assert(decreases_to!(*variants => variants@[i as int]));
                    assert(decreases_to!(variants@[i as int] => variants@[i as int].value));
                }
                collect_pattern_vars(acc, &variants[i].value);
                i += 1;
            }
        },
    }
}

/// Collects the variable names of a whole pattern, in first-appearance
/// order.
pub fn collect_pattern_vars(acc: &mut Vec<String>, p: &MsgPattern)
    ensures
        vars_view(*final(acc)) == collect_pattern(vars_view(*old(acc)), *p),
    decreases *p, 0int,
{
    let ghost base = vars_view(*acc);
    let n = p.elements.len();
    let mut i: usize = 0;
    while i < n
        invariant
            n == p.elements.len(),
            i <= n,
            vars_view(*acc) == collect_elements(base, p.elements, i as int),
        decreases n - i,
    {
        match &p.elements[i] {
            PatternElement::TextLiteral(_) => {},
            PatternElement::Placeable(e) => collect_expr_vars(acc, e),
        }
        i += 1;
    }
}

/// Walks a parsed resource and produces one extraction record per message,
/// in declaration order: the message identifier together with every variable
/// name its pattern references, deduplicated, in first-appearance order.
pub fn extract(tree: &ResourceTree) -> (r: Vec<ExtractionRecord>)
    ensures
        records_view(r) == spec_extract(*tree),
{
    let mut result: Vec<ExtractionRecord> = Vec::new();
    let n = tree.body.len();
    let mut i: usize = 0;
    while i < n
        invariant
            n == tree.body@.len(),
            i <= n,
            records_view(result) == extract_prefix(tree.body@, i as int),
        decreases n - i,
    {
        match &tree.body[i] {
            TreeEntry::Message(m) => {
                let mut vars: Vec<String> = Vec::new();
                proof {
                    assert(vars_view(vars) =~= Seq::<Seq<char>>::empty());
                }
                match &m.value {
                    Some(p) => collect_pattern_vars(&mut vars, p),
                    None => {},
                }
                let rec = ExtractionRecord { name: m.id.clone(), variables: vars };
                proof {
                    assert(rec@ == record_of(*m));
                }
                result.push(rec);
                proof {
                    assert(records_view(result) =~= extract_prefix(tree.body@, i + 1));
                }
            },
            TreeEntry::Other => {
                proof {
                    assert(records_view(result) =~= extract_prefix(tree.body@, i + 1));
                }
            },
        }
        i += 1;
    }
    result
}

} // verus!
