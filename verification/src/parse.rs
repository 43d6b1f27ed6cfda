use vstd::prelude::*;

use crate::ast::{BranchKey, Expr, InlineExpr, Message, MsgPattern, PatternElement, ResourceTree, TreeEntry, Variant};
use crate::extract::{extract, spec_extract};
use crate::render::{render, spec_render};

verus! {

#[verifier::external_type_specification]
#[verifier::external_body]
#[verifier::reject_recursive_types(S)]
pub struct ExFluentEntry<S>(fluent_syntax::ast::Entry<S>);

#[verifier::external_type_specification]
#[verifier::external_body]
#[verifier::reject_recursive_types(S)]
pub struct ExFluentPattern<S>(fluent_syntax::ast::Pattern<S>);

#[verifier::external_type_specification]
#[verifier::external_body]
#[verifier::reject_recursive_types(S)]
pub struct ExFluentExpression<S>(fluent_syntax::ast::Expression<S>);

#[verifier::external_type_specification]
#[verifier::external_body]
#[verifier::reject_recursive_types(S)]
pub struct ExFluentInlineExpression<S>(fluent_syntax::ast::InlineExpression<S>);

#[verifier::external_type_specification]
#[verifier::external_body]
#[verifier::reject_recursive_types(S)]
pub struct ExFluentVariantKey<S>(fluent_syntax::ast::VariantKey<S>);

/// The resource tree that the grammar parser produces for a given source
/// text, or nothing when the text is not valid under the resource grammar.
/// The parser's result depends on the source text alone.
pub uninterp spec fn ftl_parse(s: Seq<char>) -> Option<ResourceTree>;

/// Relies on fluent_syntax::ast::VariantKey: a variant key is either an
/// identifier or a number literal; this moves the key's text across.
#[verifier::external_body]
fn conv_key(k: &fluent_syntax::ast::VariantKey<&str>) -> BranchKey {
    match k {
        fluent_syntax::ast::VariantKey::Identifier { name } => BranchKey::Identifier(
            name.to_string(),
        ),
        fluent_syntax::ast::VariantKey::NumberLiteral { value } => BranchKey::Number(
            value.to_string(),
        ),
    }
}

/// Relies on fluent_syntax::ast::InlineExpression: a variable reference
/// carries its identifier; every other inline form is kept opaque.
#[verifier::external_body]
fn conv_inline(e: &fluent_syntax::ast::InlineExpression<&str>) -> InlineExpr {
    match e {
        fluent_syntax::ast::InlineExpression::VariableReference { id } => InlineExpr::VarRef(
            id.name.to_string(),
        ),
        _ => InlineExpr::Other,
    }
}

/// Relies on fluent_syntax::ast::Expression: either a single inline
/// expression, or a select expression with a selector and variant branches.
#[verifier::external_body]
fn conv_expr(e: &fluent_syntax::ast::Expression<&str>) -> Expr {
    match e {
        fluent_syntax::ast::Expression::Inline(inline) => Expr::Inline(conv_inline(inline)),
        fluent_syntax::ast::Expression::Select { selector, variants } => {
            let mut vs: Vec<Variant> = Vec::new();
            for v in variants {
                vs.push(
                    Variant { key: conv_key(&v.key), is_default: v.default, value: conv_pattern(&v.value) },
                );
            }
            Expr::Select { selector: conv_inline(selector), variants: vs }
        },
    }
}

/// Relies on fluent_syntax::ast::Pattern: an ordered list of text elements
/// and placeable expressions.
#[verifier::external_body]
fn conv_pattern(p: &fluent_syntax::ast::Pattern<&str>) -> MsgPattern {
    let mut elements: Vec<PatternElement> = Vec::new();
    for e in &p.elements {
        elements.push(
            match e {
                fluent_syntax::ast::PatternElement::TextElement { value } => PatternElement::TextLiteral(value.to_string()),
                fluent_syntax::ast::PatternElement::Placeable { expression } => PatternElement::Placeable(conv_expr(expression)),
            },
        );
    }
    MsgPattern { elements }
}

/// Relies on fluent_syntax::ast::Entry: a message carries an identifier and
/// an optional value pattern; terms, comments and junk are kept opaque.
#[verifier::external_body]
fn conv_entry(e: &fluent_syntax::ast::Entry<&str>) -> TreeEntry {
    match e {
        fluent_syntax::ast::Entry::Message(m) => TreeEntry::Message(
            Message {
                id: m.id.name.to_string(),
                value: match &m.value {
                    Some(p) => Some(conv_pattern(p)),
                    None => None,
                },
            },
        ),
        _ => TreeEntry::Other,
    }
}

/// Relies on fluent_syntax::parser::parse: it turns resource text into a
/// syntax tree of entries in declaration order, and fails on text that is
/// not valid under the resource grammar; its result depends on the source
/// text alone.
#[verifier::external_body]
pub fn parse_ftl(text: &str) -> (r: Option<ResourceTree>)
    ensures
        r == ftl_parse(text@),
{
    match fluent_syntax::parser::parse(text) {
        Ok(ast) => {
            let mut body: Vec<TreeEntry> = Vec::new();
            for e in &ast.body {
                body.push(conv_entry(e));
            }
            Some(ResourceTree { body })
        },
        Err(_) => None,
    }
}

/// Parses one locale's resource text and generates the schema text for it:
/// the text of each message's extraction record, in declaration order.
/// Returns nothing exactly when the text is not valid under the resource
/// grammar.
pub fn generate_types(ftl: &str) -> (r: Option<String>)
    ensures
        r is Some <==> ftl_parse(ftl@) is Some,
        ftl_parse(ftl@) matches Some(tree) ==> r matches Some(s) && s@ == spec_render(
            spec_extract(tree),
        ),
{
    match parse_ftl(ftl) {
        Some(tree) => {
            let records = extract(&tree);
            Some(render(&records))
        },
        None => None,
    }
}

} // verus!
