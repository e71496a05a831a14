//! The blog post workflow a third time, with one type per state: moving
//! between states consumes the old post, so the type system itself rules
//! out reading a post's content before it is published.

use vstd::prelude::*;
use vstd::string::StringExecFns;

verus! {

/// A post being written. Only a draft accepts text; the content field is
/// public so that callers can watch it grow.
pub struct DraftPost {
    pub content: String,
}

impl DraftPost {
    pub fn new() -> (p: DraftPost)
        ensures
            p.content@ == Seq::<char>::empty(),
    {
        DraftPost { content: String::new() }
    }

    pub fn add_text(&mut self, text: &str)
        ensures
            final(self).content@ == old(self).content@ + text@,
    {
        self.content.append(text);
    }

    /// Hand the draft over for review, consuming it.
    pub fn request_review(self) -> (p: PendingReviewPost)
        ensures
            p.spec_content() == self.content@,
    {
        PendingReviewPost { content: self.content }
    }
}

/// A post waiting for review; its content is readable by no one.
pub struct PendingReviewPost {
    content: String,
}

impl PendingReviewPost {
    /// The text the post carries through the workflow.
    pub closed spec fn spec_content(&self) -> Seq<char> {
        self.content@
    }

    pub fn approve(self) -> (p: ScheduledPost)
        ensures
            p.spec_content() == self.spec_content(),
    {
        ScheduledPost { content: self.content }
    }

    pub fn reject(self) -> (p: DraftPost)
        ensures
            p.content@ == self.spec_content(),
    {
        DraftPost { content: self.content }
    }
}

/// A post approved once: one more approval publishes it, a rejection
/// sends it back to review.
pub struct ScheduledPost {
    content: String,
}

impl ScheduledPost {
    /// The text the post carries through the workflow.
    pub closed spec fn spec_content(&self) -> Seq<char> {
        self.content@
    }

    pub fn approve(self) -> (p: PublishedPost)
        ensures
            p.spec_content() == self.spec_content(),
    {
        PublishedPost { content: self.content }
    }

    pub fn reject(self) -> (p: PendingReviewPost)
        ensures
            p.spec_content() == self.spec_content(),
    {
        PendingReviewPost { content: self.content }
    }
}

/// A published post: the one state whose content can be read.
pub struct PublishedPost {
    content: String,
}

impl PublishedPost {
    /// The text the post carries through the workflow.
    pub closed spec fn spec_content(&self) -> Seq<char> {
        self.content@
    }

    pub fn content(&self) -> (r: &str)
        ensures
            r@ == self.spec_content(),
    {
        self.content.as_str()
    }
}

} // verus!
