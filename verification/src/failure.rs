//! Failures: what was being done, from the outermost action to the root cause.

use crate::text::{join_texts, joined, texts_of};
use vstd::prelude::*;

verus! {

/// A failure as a chain of texts: each says what was being done when the next one happened, and the
/// last one is the root cause.
#[derive(Debug, PartialEq, Eq)]
pub struct Failure {
    pub links: Vec<String>,
}

impl View for Failure {
    type V = Seq<Seq<char>>;

    open spec fn view(&self) -> Seq<Seq<char>> {
        texts_of(self.links@)
    }
}

/// A failure that happened while something else was being done.
pub open spec fn within(context: Seq<char>, failure: Seq<Seq<char>>) -> Seq<Seq<char>> {
    seq![context] + failure
}

/// What the outermost link of a failure says.
pub open spec fn outermost(failure: Seq<Seq<char>>) -> Seq<char> {
    if failure.len() == 0 {
        Seq::empty()
    } else {
        failure[0]
    }
}

/// A failure in one line, down to its root cause.
pub open spec fn failure_text(failure: Seq<Seq<char>>) -> Seq<char> {
    joined(failure, ": "@)
}

impl Failure {
    /// A failure without a cause.
    pub fn plain(text: String) -> (failure: Failure)
        ensures
            failure@ == seq![text@],
    {
        let mut links: Vec<String> = Vec::new();
        links.push(text);
        assert(texts_of(links@) =~= seq![text@]);
        Failure { links }
    }

    /// This failure, while something else was being done.
    pub fn within(self, context: String) -> (failure: Failure)
        ensures
            failure@ == within(context@, self@),
    {
        let ghost before = self.links@;
        let mut links = self.links;
        links.insert(0, context);
        assert(texts_of(links@) =~= within(context@, texts_of(before)));
        Failure { links }
    }

    /// What was being done when the rest of this failure happened, or all that there is to say.
    pub fn outermost(&self) -> (text: String)
        ensures
            text@ == outermost(self@),
    {
        if self.links.len() == 0 {
            String::new()
        } else {
            self.links[0].clone()
        }
    }

    /// This failure in one line, down to its root cause.
    pub fn text(&self) -> (text: String)
        ensures
            text@ == failure_text(self@),
    {
        join_texts(&self.links, ": ")
    }
}

} // verus!
