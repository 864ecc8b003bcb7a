use vstd::prelude::*;

verus! {

/// Error returned when an identifier would be empty.
#[derive(Debug, Clone, Copy, PartialEq, Eq, Structural)]
pub struct EmptyId;

/// Identifier of a node: a non-empty string, kept byte for byte.
#[derive(Debug)]
pub struct NodeId {
    inner: String,
}

impl View for NodeId {
    type V = Seq<char>;

    closed spec fn view(&self) -> Seq<char> {
        self.inner@
    }
}

impl NodeId {
    /// Accepts any non-empty string verbatim; rejects only the empty string.
    pub fn new(value: String) -> (r: Result<NodeId, EmptyId>)
        ensures
            value@.len() > 0 ==> (r matches Ok(id) && id@ == value@),
            value@.len() == 0 ==> (r matches Err(e) && e == EmptyId),
    {
        if value.as_str().is_empty() {
            Err(EmptyId)
        } else {
            Ok(NodeId { inner: value })
        }
    }

    pub fn as_str(&self) -> (r: &str)
        ensures
            r@ == self@,
    {
        self.inner.as_str()
    }

    pub fn into_inner(self) -> (r: String)
        ensures
            r@ == self@,
    {
        self.inner
    }
}

impl Clone for NodeId {
    fn clone(&self) -> (r: NodeId)
        ensures
            r@ == self@,
    {
        NodeId { inner: self.inner.clone() }
    }
}

impl PartialEq for NodeId {
    fn eq(&self, other: &NodeId) -> (r: bool) {
        self.inner == other.inner
    }
}

impl Eq for NodeId {}

impl vstd::std_specs::cmp::PartialEqSpecImpl for NodeId {
    open spec fn obeys_eq_spec() -> bool {
        true
    }

    open spec fn eq_spec(&self, other: &NodeId) -> bool {
        self@ == other@
    }
}

/// Identifier of an edge: a non-empty string, kept byte for byte.
#[derive(Debug)]
pub struct EdgeId {
    inner: String,
}

impl View for EdgeId {
    type V = Seq<char>;

    closed spec fn view(&self) -> Seq<char> {
        self.inner@
    }
}

impl EdgeId {
    /// Accepts any non-empty string verbatim; rejects only the empty string.
    pub fn new(value: String) -> (r: Result<EdgeId, EmptyId>)
        ensures
            value@.len() > 0 ==> (r matches Ok(id) && id@ == value@),
            value@.len() == 0 ==> (r matches Err(e) && e == EmptyId),
    {
        if value.as_str().is_empty() {
            Err(EmptyId)
        } else {
            Ok(EdgeId { inner: value })
        }
    }

    pub fn as_str(&self) -> (r: &str)
        ensures
            r@ == self@,
    {
        self.inner.as_str()
    }

    pub fn into_inner(self) -> (r: String)
        ensures
            r@ == self@,
    {
        self.inner
    }
}

impl Clone for EdgeId {
    fn clone(&self) -> (r: EdgeId)
        ensures
            r@ == self@,
    {
        EdgeId { inner: self.inner.clone() }
    }
}

impl PartialEq for EdgeId {
    fn eq(&self, other: &EdgeId) -> (r: bool) {
        self.inner == other.inner
    }
}

impl Eq for EdgeId {}

impl vstd::std_specs::cmp::PartialEqSpecImpl for EdgeId {
    open spec fn obeys_eq_spec() -> bool {
        true
    }

    open spec fn eq_spec(&self, other: &EdgeId) -> bool {
        self@ == other@
    }
}

} // verus!
