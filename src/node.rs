//! Typed value nodes of the metadata graph.
use vstd::prelude::*;

verus! {

/// The value a node holds.
///
/// A decimal literal is kept as the IEEE-754 bit pattern of its `f32` value.
pub enum NodeValue {
    Uri(String),
    Blank(String),
    Str(String),
    Int(i32),
    Float(u32),
    Bool(bool),
}

/// A typed value of the metadata graph, with its provenance.
///
/// `borrowed` is true when the value belongs to the registry or to a parent
/// collection; an owned node (`borrowed == false`) is released by its holder.
pub struct Node {
    pub value: NodeValue,
    pub borrowed: bool,
}

/// Value equality: same kind and same payload. Provenance plays no part.
pub open spec fn same_value(a: NodeValue, b: NodeValue) -> bool {
    match (a, b) {
        (NodeValue::Uri(x), NodeValue::Uri(y)) => x@ == y@,
        (NodeValue::Blank(x), NodeValue::Blank(y)) => x@ == y@,
        (NodeValue::Str(x), NodeValue::Str(y)) => x@ == y@,
        (NodeValue::Int(x), NodeValue::Int(y)) => x == y,
        (NodeValue::Float(x), NodeValue::Float(y)) => x == y,
        (NodeValue::Bool(x), NodeValue::Bool(y)) => x == y,
        _ => false,
    }
}

/// The text of a URI, blank identifier or string literal.
pub open spec fn text_of(v: NodeValue) -> Option<Seq<char>> {
    match v {
        NodeValue::Uri(s) => Some(s@),
        NodeValue::Blank(s) => Some(s@),
        NodeValue::Str(s) => Some(s@),
        _ => None,
    }
}

/// The URI held by a value, if it is a URI.
pub open spec fn uri_of(v: NodeValue) -> Option<Seq<char>> {
    match v {
        NodeValue::Uri(s) => Some(s@),
        _ => None,
    }
}

/// The identifier held by a value, if it is a blank node.
pub open spec fn blank_of(v: NodeValue) -> Option<Seq<char>> {
    match v {
        NodeValue::Blank(s) => Some(s@),
        _ => None,
    }
}

/// The string held by a value, if it is a string literal.
pub open spec fn str_of(v: NodeValue) -> Option<Seq<char>> {
    match v {
        NodeValue::Str(s) => Some(s@),
        _ => None,
    }
}

/// The integer held by a value, if it is an integer literal.
pub open spec fn int_of(v: NodeValue) -> Option<i32> {
    match v {
        NodeValue::Int(i) => Some(i),
        _ => None,
    }
}

/// The `f32` bit pattern held by a value, if it is a decimal literal.
pub open spec fn float_bits_of(v: NodeValue) -> Option<u32> {
    match v {
        NodeValue::Float(b) => Some(b),
        _ => None,
    }
}

/// The boolean held by a value, if it is a boolean literal.
pub open spec fn bool_of(v: NodeValue) -> Option<bool> {
    match v {
        NodeValue::Bool(b) => Some(b),
        _ => None,
    }
}

impl NodeValue {
    /// A copy of the value.
    pub fn duplicate(&self) -> (r: NodeValue)
        ensures
            r == *self,
    {
        match self {
            NodeValue::Uri(s) => NodeValue::Uri(s.clone()),
            NodeValue::Blank(s) => NodeValue::Blank(s.clone()),
            NodeValue::Str(s) => NodeValue::Str(s.clone()),
            NodeValue::Int(i) => NodeValue::Int(*i),
            NodeValue::Float(b) => NodeValue::Float(*b),
            NodeValue::Bool(b) => NodeValue::Bool(*b),
        }
    }

    /// Value equality of two node values.
    pub fn same(&self, other: &NodeValue) -> (r: bool)
        ensures
            r == same_value(*self, *other),
    {
        match (self, other) {
            (NodeValue::Uri(x), NodeValue::Uri(y)) => *x == *y,
            (NodeValue::Blank(x), NodeValue::Blank(y)) => *x == *y,
            (NodeValue::Str(x), NodeValue::Str(y)) => *x == *y,
            (NodeValue::Int(x), NodeValue::Int(y)) => *x == *y,
            (NodeValue::Float(x), NodeValue::Float(y)) => *x == *y,
            (NodeValue::Bool(x), NodeValue::Bool(y)) => *x == *y,
            _ => false,
        }
    }
}

impl Node {
    /// A new owned URI node.
    pub fn new_uri(uri: &str) -> (r: Node)
        ensures
            uri_of(r.value) == Some(uri@),
            !r.borrowed,
    {
        Node { value: NodeValue::Uri(uri.to_owned()), borrowed: false }
    }

    /// A new owned blank node with the given identifier.
    pub fn new_blank(id: &str) -> (r: Node)
        ensures
            blank_of(r.value) == Some(id@),
            !r.borrowed,
    {
        Node { value: NodeValue::Blank(id.to_owned()), borrowed: false }
    }

    /// A new owned string literal node.
    pub fn new_string(s: &str) -> (r: Node)
        ensures
            str_of(r.value) == Some(s@),
            !r.borrowed,
    {
        Node { value: NodeValue::Str(s.to_owned()), borrowed: false }
    }

    /// A new owned integer literal node.
    pub fn new_int(value: i32) -> (r: Node)
        ensures
            r.value == NodeValue::Int(value),
            !r.borrowed,
    {
        Node { value: NodeValue::Int(value), borrowed: false }
    }

    /// A new owned decimal literal node from the bit pattern of an `f32`.
    pub fn new_float_bits(bits: u32) -> (r: Node)
        ensures
            r.value == NodeValue::Float(bits),
            !r.borrowed,
    {
        Node { value: NodeValue::Float(bits), borrowed: false }
    }

    /// A new owned boolean literal node.
    pub fn new_bool(value: bool) -> (r: Node)
        ensures
            r.value == NodeValue::Bool(value),
            !r.borrowed,
    {
        Node { value: NodeValue::Bool(value), borrowed: false }
    }

    /// A node whose value is owned by the registry or by a parent collection.
    pub fn borrowed(value: NodeValue) -> (r: Node)
        ensures
            r.value == value,
            r.borrowed,
    {
        Node { value, borrowed: true }
    }

    /// True when the holder of this node must release its value.
    pub fn needs_release(&self) -> (r: bool)
        ensures
            r == !self.borrowed,
    {
        !self.borrowed
    }

    /// An owned copy of the value, whatever the provenance of `self`.
    pub fn duplicate(&self) -> (r: Node)
        ensures
            r.value == self.value,
            !r.borrowed,
    {
        Node { value: self.value.duplicate(), borrowed: false }
    }

    /// Whether the value is a URI (resource).
    pub fn is_uri(&self) -> (r: bool)
        ensures
            r == (self.value is Uri),
    {
        matches!(self.value, NodeValue::Uri(_))
    }

    /// The URI, or `None` if the value is not a URI.
    pub fn as_uri(&self) -> (r: Option<&str>)
        ensures
            r is Some == (uri_of(self.value) is Some),
            r is Some ==> r->Some_0@ == uri_of(self.value)->Some_0,
    {
        match &self.value {
            NodeValue::Uri(s) => Some(s.as_str()),
            _ => None,
        }
    }

    /// Whether the value is a blank node (a resource with no URI).
    pub fn is_blank(&self) -> (r: bool)
        ensures
            r == (self.value is Blank),
    {
        matches!(self.value, NodeValue::Blank(_))
    }

    /// The blank node identifier, or `None` if the value is not a blank node.
    pub fn as_blank(&self) -> (r: Option<&str>)
        ensures
            r is Some == (blank_of(self.value) is Some),
            r is Some ==> r->Some_0@ == blank_of(self.value)->Some_0,
    {
        match &self.value {
            NodeValue::Blank(s) => Some(s.as_str()),
            _ => None,
        }
    }

    /// Whether the value is a literal: a string, integer, decimal or boolean.
    pub fn is_literal(&self) -> (r: bool)
        ensures
            r == !(self.value is Uri || self.value is Blank),
    {
        match self.value {
            NodeValue::Uri(_) | NodeValue::Blank(_) => false,
            _ => true,
        }
    }

    /// Whether the value is a string literal.
    pub fn is_string(&self) -> (r: bool)
        ensures
            r == (self.value is Str),
    {
        matches!(self.value, NodeValue::Str(_))
    }

    /// The string, or `None` if the value is not a string literal.
    pub fn as_str(&self) -> (r: Option<&str>)
        ensures
            r is Some == (str_of(self.value) is Some),
            r is Some ==> r->Some_0@ == str_of(self.value)->Some_0,
    {
        match &self.value {
            NodeValue::Str(s) => Some(s.as_str()),
            _ => None,
        }
    }

    /// The text of a URI, blank identifier or string literal; `None` for numbers and booleans.
    pub fn text(&self) -> (r: Option<&str>)
        ensures
            r is Some == (text_of(self.value) is Some),
            r is Some ==> r->Some_0@ == text_of(self.value)->Some_0,
    {
        match &self.value {
            NodeValue::Uri(s) => Some(s.as_str()),
            NodeValue::Blank(s) => Some(s.as_str()),
            NodeValue::Str(s) => Some(s.as_str()),
            _ => None,
        }
    }

    /// Whether the value is a decimal literal.
    pub fn is_float(&self) -> (r: bool)
        ensures
            r == (self.value is Float),
    {
        matches!(self.value, NodeValue::Float(_))
    }

    /// The bit pattern of the `f32` value, or `None` if the value is not a decimal literal.
    pub fn as_float_bits(&self) -> (r: Option<u32>)
        ensures
            r == float_bits_of(self.value),
    {
        match self.value {
            NodeValue::Float(b) => Some(b),
            _ => None,
        }
    }

    /// Whether the value is an integer literal.
    pub fn is_int(&self) -> (r: bool)
        ensures
            r == (self.value is Int),
    {
        matches!(self.value, NodeValue::Int(_))
    }

    /// The integer, or `None` if the value is not an integer literal.
    pub fn as_int(&self) -> (r: Option<i32>)
        ensures
            r == int_of(self.value),
    {
        match self.value {
            NodeValue::Int(i) => Some(i),
            _ => None,
        }
    }

    /// Whether the value is a boolean literal.
    pub fn is_bool(&self) -> (r: bool)
        ensures
            r == (self.value is Bool),
    {
        matches!(self.value, NodeValue::Bool(_))
    }

    /// The boolean, or `None` if the value is not a boolean literal.
    pub fn as_bool(&self) -> (r: Option<bool>)
        ensures
            r == bool_of(self.value),
    {
        match self.value {
            NodeValue::Bool(b) => Some(b),
            _ => None,
        }
    }
}

/// Round trip: a node made by a constructor gives its value back through the
/// accessor of its kind, absent through every other; and a duplicate of any
/// node is equal to it.
pub proof fn lemma_round_trip(n: Node, d: Node)
    requires
        d.value == n.value,
    ensures
        n.value is Uri ==> uri_of(n.value) == Some(n.value->Uri_0@) && int_of(n.value) is None
            && float_bits_of(n.value) is None && bool_of(n.value) is None && str_of(n.value) is None,
        n.value is Blank ==> blank_of(n.value) == Some(n.value->Blank_0@) && uri_of(n.value) is None,
        n.value is Str ==> str_of(n.value) == Some(n.value->Str_0@) && uri_of(n.value) is None,
        n.value is Int ==> int_of(n.value) == Some(n.value->Int_0) && float_bits_of(n.value) is None,
        n.value is Float ==> float_bits_of(n.value) == Some(n.value->Float_0) && int_of(n.value) is None,
        n.value is Bool ==> bool_of(n.value) == Some(n.value->Bool_0) && int_of(n.value) is None,
        same_value(d.value, n.value),
        same_value(n.value, d.value),
{
}

impl PartialEq for Node {
    fn eq(&self, other: &Node) -> (r: bool) {
        self.value.same(&other.value)
    }
}

impl vstd::std_specs::cmp::PartialEqSpecImpl for Node {
    open spec fn obeys_eq_spec() -> bool {
        true
    }

    open spec fn eq_spec(&self, other: &Node) -> bool {
        same_value(self.value, other.value)
    }
}

} // verus!
