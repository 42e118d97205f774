use vstd::prelude::*;

verus! {

/// A view that shows a string.
#[derive(Clone, Debug, PartialEq)]
pub struct Text {
    pub content: String,
}

impl Text {
    pub fn new(content: String) -> (r: Text)
        ensures
            r.content == content,
    {
        Text { content }
    }
}

} // verus!

verus! {

impl Text {
    pub fn render(&self, _ctx: &crate::context::Context) -> (r: crate::node::Node)
        ensures
            r@ == (crate::node::NodeTree::Text { content: self.content@ }),
    {
        crate::node::Node::Text { content: self.content.clone() }
    }
}

} // verus!
