//! JSON documents, read and written by `serde_json`. A parsed document stays
//! in `serde_json`'s own type; the library looks into it through JSON
//! pointers and sees one node at a time.

use vstd::prelude::*;

verus! {

/// What stands at one place of a JSON document, without what lies below it.
#[derive(Clone, Debug, PartialEq, Eq)]
pub enum Node {
    Null,
    Bool(bool),
    /// A number; its value where it is a whole number from 0 to 2^64 - 1.
    Number(Option<u64>),
    Text(String),
    /// An array and the number of its elements.
    List(usize),
    /// An object.
    Record,
}

/// Mathematical value of a [`Node`].
pub enum NodeView {
    Null,
    Bool(bool),
    Number(Option<u64>),
    Text(Seq<char>),
    List(nat),
    Record,
}

impl View for Node {
    type V = NodeView;

    open spec fn view(&self) -> NodeView {
        match self {
            Node::Null => NodeView::Null,
            Node::Bool(b) => NodeView::Bool(*b),
            Node::Number(n) => NodeView::Number(*n),
            Node::Text(s) => NodeView::Text(s@),
            Node::List(len) => NodeView::List(*len as nat),
            Node::Record => NodeView::Record,
        }
    }
}

/// `serde_json::Value`: a parsed JSON document, of which the verifier sees
/// nothing but what the functions below tell.
#[verifier::external_type_specification]
#[verifier::external_body]
pub struct ExValue(serde_json::Value);

/// The nodes of a parsed document: for each JSON pointer that leads to a
/// value of the document, what stands there.
pub uninterp spec fn json_nodes(document: serde_json::Value) -> Map<Seq<char>, NodeView>;

/// The nodes of the document that a text writes; `None` for a text that is
/// not one JSON document.
pub uninterp spec fn json_document(text: Seq<char>) -> Option<Map<Seq<char>, NodeView>>;

/// The JSON string literal of a text, quotes included; `None` where the
/// serialiser fails.
pub uninterp spec fn json_quoted(text: Seq<char>) -> Option<Seq<char>>;

/// `serde_json::from_str` for a `serde_json::Value`; a failure comes back as
/// the message of its error. The contract names the outcome: whether a text
/// parses, and which nodes the document then has, depends on the text alone.
/// Nothing is claimed of the message.
#[verifier::external_body]
pub(crate) fn parse_document(text: &str) -> (r: Result<serde_json::Value, String>)
    ensures
        r is Ok <==> json_document(text@) is Some,
        r is Ok ==> json_nodes(r->Ok_0) == json_document(text@)->0,
{
    serde_json::from_str::<serde_json::Value>(text).map_err(|e| e.to_string())
}

/// `serde_json::Value::pointer`, and of the value found its kind with what
/// it holds itself: the flag, the number through `Number::as_u64`, the text,
/// the length of the array. The contract says that this is the node which
/// the document has at that pointer, and that there is none where the
/// pointer leads nowhere.
#[verifier::external_body]
pub(crate) fn node_at(document: &serde_json::Value, pointer: &str) -> (node: Option<Node>)
    ensures
        node is Some <==> json_nodes(*document).contains_key(pointer@),
        node is Some ==> node->0@ == json_nodes(*document)[pointer@],
{
    match document.pointer(pointer) {
        None => None,
        Some(serde_json::Value::Null) => Some(Node::Null),
        Some(serde_json::Value::Bool(b)) => Some(Node::Bool(*b)),
        Some(serde_json::Value::Number(n)) => Some(Node::Number(n.as_u64())),
        Some(serde_json::Value::String(s)) => Some(Node::Text(s.clone())),
        Some(serde_json::Value::Array(a)) => Some(Node::List(a.len())),
        Some(serde_json::Value::Object(_)) => Some(Node::Record),
    }
}

/// `serde_json::to_string` for a string slice. The contract names the
/// outcome: the literal depends on the text alone.
#[verifier::external_body]
pub(crate) fn quote(text: &str) -> (literal: Option<String>)
    ensures
        literal is Some <==> json_quoted(text@) is Some,
        literal is Some ==> literal->0@ == json_quoted(text@)->0,
{
    serde_json::to_string(text).ok()
}

} // verus!
