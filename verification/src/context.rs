//! Input content for a model call. Gathering context happens outside the
//! tool (through shell pipes); this only carries the text, shared cheaply.

use std::sync::Arc;
use vstd::prelude::*;
use crate::text::{all_ws, chars_of, is_blank};

verus! {

/// Input content for a model call, shared between clones.
#[derive(Debug, Clone)]
pub struct InputContext {
    content: Arc<String>,
}

impl View for InputContext {
    type V = Seq<char>;

    closed spec fn view(&self) -> Seq<char> {
        (*self.content)@
    }
}

impl Default for InputContext {
    fn default() -> (r: Self)
        ensures
            r@ == Seq::<char>::empty(),
    {
        InputContext { content: Arc::new(String::new()) }
    }
}

impl InputContext {
    /// Create a new input context from content.
    pub fn new(content: &str) -> (r: Self)
        ensures
            r@ == content@,
    {
        InputContext { content: Arc::new(content.to_string()) }
    }

    /// The content as a string slice.
    pub fn content(&self) -> (r: &str)
        ensures
            r@ == self@,
    {
        self.content.as_str()
    }

    /// Whether the content is empty or only white space.
    pub fn is_empty(&self) -> (b: bool)
        ensures
            b == is_blank(self@),
    {
        let v = chars_of(self.content.as_str());
        all_ws(&v)
    }

    /// The shared text itself, for checking that clones share it.
    pub fn content_arc(&self) -> (r: &Arc<String>)
        ensures
            (**r)@ == self@,
    {
        &self.content
    }
}

} // verus!
