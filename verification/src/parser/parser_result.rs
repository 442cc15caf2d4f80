//! What the parser hands back: the document and its metadata.
use vstd::prelude::*;
use super::metadata::Metadata;
use super::node::Node;

verus! {

pub struct ParserResult {
    pub metadata: Metadata,
    pub node: Node,
}

impl ParserResult {
    pub fn new(node: Node, metadata: Metadata) -> (r: ParserResult)
        ensures
            r.node == node,
            r.metadata == metadata,
    {
        ParserResult { metadata, node }
    }

    /// The document.
    pub fn node(&self) -> (r: &Node)
        ensures
            *r == self.node,
    {
        &self.node
    }

    /// The metadata.
    pub fn metadata(&self) -> (r: &Metadata)
        ensures
            *r == self.metadata,
    {
        &self.metadata
    }
}

} // verus!
