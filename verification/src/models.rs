//! The values that a submission carries.

use vstd::prelude::*;

verus! {

/// One submission of the add form: a topic, a subtopic under it, and the
/// Markdown text to store for that subtopic.
#[derive(Debug, PartialEq, Eq)]
pub struct Content {
    pub topic: String,
    pub subtopic: String,
    pub content: String,
}

/// A submission, its fields as sequences of characters.
pub ghost struct ContentView {
    pub topic: Seq<char>,
    pub subtopic: Seq<char>,
    pub content: Seq<char>,
}

impl View for Content {
    type V = ContentView;

    open spec fn view(&self) -> ContentView {
        ContentView { topic: self.topic@, subtopic: self.subtopic@, content: self.content@ }
    }
}

} // verus!
