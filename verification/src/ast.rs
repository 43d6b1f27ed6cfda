use vstd::prelude::*;

verus! {

/// The key of a select-expression variant: either a plain identifier or a
/// number literal.
pub enum BranchKey {
    Identifier(String),
    Number(String),
}

/// An inline expression. Only variable references contribute variable names
/// to a message's schema; every other inline form (string or number literals,
/// function, message or term references, nested placeables) is kept as
/// `Other`.
pub enum InlineExpr {
    VarRef(String),
    Other,
}

/// A placeable expression: either a single inline expression or a select
/// expression choosing among variant sub-patterns.
pub enum Expr {
    Inline(InlineExpr),
    Select { selector: InlineExpr, variants: Vec<Variant> },
}

/// One branch of a select expression; its value pattern may nest further
/// select expressions.
pub struct Variant {
    pub key: BranchKey,
    pub is_default: bool,
    pub value: MsgPattern,
}

/// One element of a pattern: literal text, or a placeable expression.
pub enum PatternElement {
    TextLiteral(String),
    Placeable(Expr),
}

/// The renderable value of a message: an ordered sequence of elements.
pub struct MsgPattern {
    pub elements: Vec<PatternElement>,
}

/// A named translatable unit. A message without a pattern is valid and
/// contributes an empty variable set.
pub struct Message {
    pub id: String,
    pub value: Option<MsgPattern>,
}

/// A top-level entry of a resource. Only messages take part in schema
/// extraction; terms, comments and junk are kept as `Other`.
pub enum TreeEntry {
    Message(Message),
    Other,
}

/// The parsed form of one locale's resource text: an ordered sequence of
/// entries.
pub struct ResourceTree {
    pub body: Vec<TreeEntry>,
}

} // verus!
