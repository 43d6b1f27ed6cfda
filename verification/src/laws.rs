use vstd::prelude::*;

use crate::ast::{Expr, InlineExpr, Message, MsgPattern, PatternElement, ResourceTree, TreeEntry, Variant};
use crate::compose::{spec_compose, spec_locale_entry, spec_locale_table};
use crate::extract::{
    collect_elements, collect_expr, collect_inline, collect_pattern, collect_variants,
    extract_prefix, message_vars, push_unique, record_of, spec_extract,
};
use crate::render::{join_upto, join_with, spec_render};

verus! {

// ---------------------------------------------------------------------------
// Extraction of text-only resources
// ---------------------------------------------------------------------------
/// Holds when a pattern consists of literal text alone, with no placeables.
pub open spec fn text_only_pattern(p: MsgPattern) -> bool {
    forall|i: int| 0 <= i < p.elements@.len() ==> p.elements[i] is TextLiteral
}

/// Holds when a message has no placeables in its pattern, or no pattern.
pub open spec fn text_only_message(m: Message) -> bool {
    match m.value {
        Some(p) => text_only_pattern(p),
        None => true,
    }
}

proof fn lemma_collect_elements_text_only(
    acc: Seq<Seq<char>>,
    elements: Vec<PatternElement>,
    n: int,
)
    requires
        forall|i: int| 0 <= i < elements@.len() ==> elements[i] is TextLiteral,
    ensures
        collect_elements(acc, elements, n) == acc,
    decreases n,
{
    if n <= 0 || n > elements.len() {
    } else {
        lemma_collect_elements_text_only(acc, elements, n - 1);
    }
}

proof fn lemma_extract_prefix_text_only(body: Seq<TreeEntry>, n: int)
    requires
        0 <= n <= body.len(),
        forall|i: int| 0 <= i < body.len() ==> (#[trigger] body[i] matches TreeEntry::Message(m)
            && text_only_message(m)),
    ensures
        extract_prefix(body, n).len() == n,
        forall|k: int| 0 <= k < n ==> #[trigger] extract_prefix(body, n)[k].vars == Seq::<
            Seq<char>,
        >::empty(),
    decreases n,
{
    if n <= 0 {
    } else {
        lemma_extract_prefix_text_only(body, n - 1);
        let m = body[n - 1]->Message_0;
        match m.value {
            Some(p) => {
                lemma_collect_elements_text_only(
                    Seq::empty(),
                    p.elements,
                    p.elements@.len() as int,
                );
            },
            None => {},
        }
        assert(record_of(m).vars == Seq::<Seq<char>>::empty());
    }
}

/// For a resource whose entries are all messages with no placeables, the
/// extraction yields exactly one record per message, each with an empty
/// variable set.
pub proof fn lemma_extract_text_only(r: ResourceTree)
    requires
        forall|i: int| 0 <= i < r.body@.len() ==> (#[trigger] r.body@[i] matches TreeEntry::Message(m) && text_only_message(m)),
    ensures
        spec_extract(r).len() == r.body@.len(),
        forall|k: int| 0 <= k < spec_extract(r).len() ==> #[trigger] spec_extract(r)[k].vars
            == Seq::<Seq<char>>::empty(),
{
    lemma_extract_prefix_text_only(r.body@, r.body@.len() as int);
}

// ---------------------------------------------------------------------------
// Completeness of the collected variable set
// ---------------------------------------------------------------------------
/// The variable names an inline expression mentions.
pub open spec fn mentioned_inline(e: InlineExpr) -> Set<Seq<char>> {
    match e {
        InlineExpr::VarRef(name) => Set::empty().insert(name@),
        InlineExpr::Other => Set::empty(),
    }
}

/// The variable names mentioned anywhere in a placeable expression: the
/// selector's variable, if any, and those of every variant branch.
pub open spec fn mentioned_expr(e: Expr) -> Set<Seq<char>>
    decreases e, 0int,
{
    match e {
        Expr::Inline(inline) => mentioned_inline(inline),
        Expr::Select { selector, variants } => mentioned_inline(selector).union(
            mentioned_variants(variants, variants.len() as int),
        ),
    }
}

/// The variable names mentioned in the first `n` variants of a select
/// expression, default and non-default alike.
pub open spec fn mentioned_variants(variants: Vec<Variant>, n: int) -> Set<Seq<char>>
    decreases variants, n,
{
    if n <= 0 || n > variants.len() {
        Set::empty()
    } else {
        mentioned_variants(variants, n - 1).union(mentioned_pattern(variants[n - 1].value))
    }
}

/// The variable names mentioned anywhere in a pattern.
pub open spec fn mentioned_pattern(p: MsgPattern) -> Set<Seq<char>>
    decreases p, 0int,
{
    mentioned_elements(p.elements, p.elements@.len() as int)
}

/// The variable names mentioned in the first `n` elements of a pattern.
pub open spec fn mentioned_elements(elements: Vec<PatternElement>, n: int) -> Set<Seq<char>>
    decreases elements, n,
{
    if n <= 0 || n > elements.len() {
        Set::empty()
    } else {
        mentioned_elements(elements, n - 1).union(
            match elements[n - 1] {
                PatternElement::TextLiteral(_) => Set::empty(),
                PatternElement::Placeable(e) => mentioned_expr(e),
            },
        )
    }
}

/// The variable names mentioned anywhere in a message's pattern.
pub open spec fn mentioned_message(m: Message) -> Set<Seq<char>> {
    match m.value {
        Some(p) => mentioned_pattern(p),
        None => Set::empty(),
    }
}

proof fn lemma_push_unique_set(acc: Seq<Seq<char>>, name: Seq<char>)
    ensures
        push_unique(acc, name).to_set() == acc.to_set().insert(name),
        acc.no_duplicates() ==> push_unique(acc, name).no_duplicates(),
{
    if acc.contains(name) {
        assert(push_unique(acc, name).to_set() =~= acc.to_set().insert(name));
    } else {
        acc.lemma_push_to_set_commute(name);
        assert(push_unique(acc, name).to_set() =~= acc.to_set().insert(name));
        if acc.no_duplicates() {
            let pushed = acc.push(name);
            assert forall|i: int, j: int|
                0 <= i < pushed.len() && 0 <= j < pushed.len() && i != j implies pushed[i]
                != pushed[j] by {
                if i < acc.len() && j < acc.len() {
                } else if j == acc.len() {
                    assert(acc[i] != name);
                } else {
                    assert(acc[j] != name);
                }
            }
        }
    }
}

proof fn lemma_collect_inline_set(acc: Seq<Seq<char>>, e: InlineExpr)
    ensures
        collect_inline(acc, e).to_set() == acc.to_set().union(mentioned_inline(e)),
        acc.no_duplicates() ==> collect_inline(acc, e).no_duplicates(),
{
    match e {
        InlineExpr::VarRef(name) => {
            lemma_push_unique_set(acc, name@);
            assert(acc.to_set().insert(name@) =~= acc.to_set().union(mentioned_inline(e)));
        },
        InlineExpr::Other => {
            assert(acc.to_set() =~= acc.to_set().union(Set::empty()));
        },
    }
}

proof fn lemma_collect_expr_set(acc: Seq<Seq<char>>, e: Expr)
    ensures
        collect_expr(acc, e).to_set() == acc.to_set().union(mentioned_expr(e)),
        acc.no_duplicates() ==> collect_expr(acc, e).no_duplicates(),
    decreases e, 1int,
{
    match e {
        Expr::Inline(inline) => {
            lemma_collect_inline_set(acc, inline);
        },
        Expr::Select { selector, variants } => {
            lemma_collect_inline_set(acc, selector);
            let mid = collect_inline(acc, selector);
            lemma_collect_variants_set(mid, variants, variants.len() as int);
            assert(mid.to_set().union(mentioned_variants(variants, variants.len() as int))
                =~= acc.to_set().union(mentioned_expr(e)));
        },
    }
}

proof fn lemma_collect_variants_set(acc: Seq<Seq<char>>, variants: Vec<Variant>, n: int)
    ensures
        collect_variants(acc, variants, n).to_set() == acc.to_set().union(
            mentioned_variants(variants, n),
        ),
        acc.no_duplicates() ==> collect_variants(acc, variants, n).no_duplicates(),
    decreases variants, n,
{
    if n <= 0 || n > variants.len() {
        assert(acc.to_set() =~= acc.to_set().union(Set::empty()));
    } else {
        lemma_collect_variants_set(acc, variants, n - 1);
        let mid = collect_variants(acc, variants, n - 1);
        lemma_collect_pattern_set(mid, variants[n - 1].value);
        assert(mid.to_set().union(mentioned_pattern(variants[n - 1].value)) =~= acc.to_set().union(
            mentioned_variants(variants, n),
        ));
    }
}

proof fn lemma_collect_pattern_set(acc: Seq<Seq<char>>, p: MsgPattern)
    ensures
        collect_pattern(acc, p).to_set() == acc.to_set().union(mentioned_pattern(p)),
        acc.no_duplicates() ==> collect_pattern(acc, p).no_duplicates(),
    decreases p, 1int,
{
    lemma_collect_elements_set(acc, p.elements, p.elements@.len() as int);
}

proof fn lemma_collect_elements_set(acc: Seq<Seq<char>>, elements: Vec<PatternElement>, n: int)
    ensures
        collect_elements(acc, elements, n).to_set() == acc.to_set().union(
            mentioned_elements(elements, n),
        ),
        acc.no_duplicates() ==> collect_elements(acc, elements, n).no_duplicates(),
    decreases elements, n,
{
    if n <= 0 || n > elements.len() {
        assert(acc.to_set() =~= acc.to_set().union(Set::empty()));
    } else {
        lemma_collect_elements_set(acc, elements, n - 1);
        let mid = collect_elements(acc, elements, n - 1);
        match elements[n - 1] {
            PatternElement::TextLiteral(_) => {
                assert(mid.to_set() =~= acc.to_set().union(mentioned_elements(elements, n)));
            },
            PatternElement::Placeable(e) => {
                lemma_collect_expr_set(mid, e);
                assert(mid.to_set().union(mentioned_expr(e)) =~= acc.to_set().union(
                    mentioned_elements(elements, n),
                ));
            },
        }
    }
}

/// The variable set extracted for a message is exactly the set of variable
/// names mentioned by any reachable placeable — including those nested
/// inside every branch, default and non-default alike, of arbitrarily
/// nested select expressions — and it holds no duplicates.
pub proof fn lemma_message_vars_complete(m: Message)
    ensures
        message_vars(m).to_set() == mentioned_message(m),
        message_vars(m).no_duplicates(),
{
    match m.value {
        Some(p) => {
            lemma_collect_pattern_set(Seq::empty(), p);
            assert(Seq::<Seq<char>>::empty().to_set().union(mentioned_pattern(p))
                =~= mentioned_message(m));
        },
        None => {
            assert(message_vars(m).to_set() =~= Set::<Seq<char>>::empty());
        },
    }
}

// ---------------------------------------------------------------------------
// Determinism of extraction and rendering
// ---------------------------------------------------------------------------
/// Rendering the schema extracted from the same tree twice yields the same
/// schema text: extraction and rendering are functions of the tree alone,
/// with no unstable internal ordering.
pub proof fn lemma_render_extract_deterministic(t1: ResourceTree, t2: ResourceTree)
    requires
        t1 == t2,
    ensures
        spec_render(spec_extract(t1)) == spec_render(spec_extract(t2)),
{
}

// ---------------------------------------------------------------------------
// Composition totality
// ---------------------------------------------------------------------------
/// Holds when `sub` appears in `s` as a contiguous run of characters.
pub open spec fn contains_subrange(s: Seq<char>, sub: Seq<char>) -> bool {
    exists|k: int|
        0 <= k && k + sub.len() <= s.len() && #[trigger] s.subrange(k, k + sub.len() as int) == sub
}

proof fn lemma_subrange_in_concat_left(a: Seq<char>, b: Seq<char>, sub: Seq<char>)
    requires
        contains_subrange(a, sub),
    ensures
        contains_subrange(a + b, sub),
{
    let k = choose|k: int|
        0 <= k && k + sub.len() <= a.len() && #[trigger] a.subrange(k, k + sub.len() as int)
            == sub;
    assert((a + b).subrange(k, k + sub.len() as int) =~= a.subrange(k, k + sub.len() as int));
}

proof fn lemma_subrange_in_concat_right(a: Seq<char>, b: Seq<char>, sub: Seq<char>)
    requires
        contains_subrange(b, sub),
    ensures
        contains_subrange(a + b, sub),
{
    let k = choose|k: int|
        0 <= k && k + sub.len() <= b.len() && #[trigger] b.subrange(k, k + sub.len() as int)
            == sub;
    let j = a.len() + k;
    assert((a + b).subrange(j, j + sub.len() as int) =~= b.subrange(k, k + sub.len() as int));
}

proof fn lemma_contains_self(s: Seq<char>)
    ensures
        contains_subrange(s, s),
{
    let k: int = 0;
    assert(s.subrange(k, k + s.len() as int) =~= s);
}

proof fn lemma_join_contains_part(parts: Seq<Seq<char>>, sep: Seq<char>, n: int, i: int)
    requires
        0 <= i < n,
        n <= parts.len(),
    ensures
        contains_subrange(join_upto(parts, sep, n), parts[i]),
    decreases n,
{
    if n == 1 {
        lemma_contains_self(parts[0]);
    } else if i == n - 1 {
        lemma_contains_self(parts[i]);
        lemma_subrange_in_concat_right(join_upto(parts, sep, n - 1) + sep, parts[i], parts[i]);
    } else {
        lemma_join_contains_part(parts, sep, n - 1, i);
        lemma_subrange_in_concat_left(join_upto(parts, sep, n - 1), sep, parts[i]);
        lemma_subrange_in_concat_left(join_upto(parts, sep, n - 1) + sep, parts[n - 1], parts[i]);
    }
}

proof fn lemma_contains_trans(s: Seq<char>, mid: Seq<char>, sub: Seq<char>)
    requires
        contains_subrange(s, mid),
        contains_subrange(mid, sub),
    ensures
        contains_subrange(s, sub),
{
    let k = choose|k: int|
        0 <= k && k + mid.len() <= s.len() && #[trigger] s.subrange(k, k + mid.len() as int)
            == mid;
    let m = choose|m: int|
        0 <= m && m + sub.len() <= mid.len() && #[trigger] mid.subrange(m, m + sub.len() as int)
            == sub;
    let j = k + m;
    assert(s.subrange(j, j + sub.len() as int) =~= mid.subrange(m, m + sub.len() as int));
}

proof fn lemma_entry_contains_text(locale: Seq<char>, text: Seq<char>)
    ensures
        contains_subrange(spec_locale_entry(locale, text), text),
{
    let front = "'"@ + locale + "': `"@;
    let k = front.len() as int;
    assert(spec_locale_entry(locale, text).subrange(k, k + text.len() as int) =~= text);
}

/// Composition totality: the output document embeds one locale-table entry
/// per locale of the map — for every locale, the document contains its full
/// entry, the quoted locale id with its raw text preserved byte-for-byte.
pub proof fn lemma_compose_embeds_every_locale(
    schema: Seq<char>,
    pairs: Seq<(Seq<char>, Seq<char>)>,
    i: int,
)
    requires
        0 <= i < pairs.len(),
    ensures
        contains_subrange(
            spec_compose(schema, pairs),
            spec_locale_entry(pairs[i].0, pairs[i].1),
        ),
        contains_subrange(spec_compose(schema, pairs), pairs[i].1),
{
    let entries = pairs.map_values(|p: (Seq<char>, Seq<char>)| spec_locale_entry(p.0, p.1));
    let sep = ",\n  "@;
    let entry = spec_locale_entry(pairs[i].0, pairs[i].1);
    assert(entries[i] == entry);
    let joined = join_upto(entries, sep, entries.len() as int);
    lemma_join_contains_part(entries, sep, entries.len() as int, i);
    assert(join_with(entries, sep) == joined);
    let head = "export const langs = {\n  "@;
    let tail = "\n} as const"@;
    lemma_subrange_in_concat_right(head, joined, entry);
    lemma_subrange_in_concat_left(head + joined, tail, entry);
    assert(spec_locale_table(pairs) == head + joined + tail);
    let front = crate::compose::spec_preamble() + "\n\n"@ + schema + "\n\n"@;
    lemma_subrange_in_concat_right(front, spec_locale_table(pairs), entry);
    assert(spec_compose(schema, pairs) == front + spec_locale_table(pairs));
    lemma_entry_contains_text(pairs[i].0, pairs[i].1);
    lemma_contains_trans(spec_compose(schema, pairs), entry, pairs[i].1);
}

} // verus!
