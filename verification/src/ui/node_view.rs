use vstd::prelude::*;

verus! {

/// The text of a node while it is being read or written.
pub struct NodeView {
    content: String,
}

impl NodeView {
    /// The text, as characters.
    pub closed spec fn text(&self) -> Seq<char> {
        self.content@
    }

    pub fn new() -> (view: Self)
        ensures
            view.text() == Seq::<char>::empty(),
    {
        Self { content: String::new() }
    }
}

} // verus!
