//! The blog post workflow once more, as the enum-only variant: the same
//! states and transitions as `blog`, with [`PostE`] carrying
//! [`PostState`] as a plain field and no hidden-state type beside it.

use vstd::prelude::*;

verus! {

#[derive(PartialEq, Eq, Structural, Debug, Clone, Copy)]
pub enum PostState {
    Draft,
    PendingReview,
    Scheduled,
    Published,
}

impl PostState {
    /// Where a review request takes each state: a draft moves on to
    /// pending review; nothing else moves.
    pub open spec fn spec_request_review(self) -> PostState {
        match self {
            PostState::Draft => PostState::PendingReview,
            PostState::PendingReview => PostState::PendingReview,
            PostState::Scheduled => PostState::Scheduled,
            PostState::Published => PostState::Published,
        }
    }

    /// Where an approval takes each state: pending review is scheduled,
    /// scheduled is published; a draft needs a review first, and a
    /// published post stays published.
    pub open spec fn spec_approve(self) -> PostState {
        match self {
            PostState::Draft => PostState::Draft,
            PostState::PendingReview => PostState::Scheduled,
            PostState::Scheduled => PostState::Published,
            PostState::Published => PostState::Published,
        }
    }

    /// Where a rejection takes each state: pending review falls back to
    /// draft, scheduled falls back to pending review; publication is
    /// never undone.
    pub open spec fn spec_reject(self) -> PostState {
        match self {
            PostState::Draft => PostState::Draft,
            PostState::PendingReview => PostState::Draft,
            PostState::Scheduled => PostState::PendingReview,
            PostState::Published => PostState::Published,
        }
    }

    pub fn is_draft(&self) -> (r: bool)
        ensures
            r == (self is Draft),
    {
        match self {
            PostState::Draft => true,
            _ => false,
        }
    }

    pub fn is_pending(&self) -> (r: bool)
        ensures
            r == (self is PendingReview),
    {
        match self {
            PostState::PendingReview => true,
            _ => false,
        }
    }

    pub fn is_scheduled(&self) -> (r: bool)
        ensures
            r == (self is Scheduled),
    {
        match self {
            PostState::Scheduled => true,
            _ => false,
        }
    }

    pub fn is_published(&self) -> (r: bool)
        ensures
            r == (self is Published),
    {
        match self {
            PostState::Published => true,
            _ => false,
        }
    }

    pub fn request_review(&self) -> (r: Self)
        ensures
            r == self.spec_request_review(),
    {
        match self {
            PostState::Draft => PostState::PendingReview,
            PostState::PendingReview => PostState::PendingReview,
            PostState::Scheduled => PostState::Scheduled,
            PostState::Published => PostState::Published,
        }
    }

    pub fn approve(&self) -> (r: Self)
        ensures
            r == self.spec_approve(),
    {
        match self {
            PostState::Draft => PostState::Draft,
            PostState::PendingReview => PostState::Scheduled,
            PostState::Scheduled => PostState::Published,
            PostState::Published => PostState::Published,
        }
    }

    pub fn reject(&self) -> (r: Self)
        ensures
            r == self.spec_reject(),
    {
        match self {
            PostState::Draft => PostState::Draft,
            PostState::PendingReview => PostState::Draft,
            PostState::Scheduled => PostState::PendingReview,
            PostState::Published => PostState::Published,
        }
    }
}

/// A post whose workflow state is the plain [`PostState`] field. The
/// content field is public so that callers can look behind the
/// published/unpublished veil that [`PostE::content`] draws.
pub struct PostE {
    state: PostState,
    pub content: String,
}

impl PostE {
    /// The text the post holds, shown or not.
    pub closed spec fn spec_content(&self) -> Seq<char> {
        self.content@
    }

    /// The state the post is in.
    pub closed spec fn spec_state(&self) -> PostState {
        self.state
    }

    pub fn new() -> (p: PostE)
        ensures
            p.spec_state() is Draft,
            p.spec_content() == Seq::<char>::empty(),
    {
        PostE { state: PostState::Draft, content: String::new() }
    }

    /// Text lands in the post only while it is a draft.
    pub fn add_text(&mut self, text: &str)
        ensures
            final(self).spec_state() == old(self).spec_state(),
            old(self).spec_state() is Draft ==> final(self).spec_content() == old(self).spec_content()
                + text@,
            !(old(self).spec_state() is Draft) ==> final(self).spec_content() == old(self).spec_content(),
    {
        if self.is_draft() {
            self.content.append(text);
        }
    }

    /// The content the outside world sees: empty until published.
    pub fn content(&self) -> (r: &str)
        ensures
            self.spec_state() is Published ==> r@ == self.spec_content(),
            !(self.spec_state() is Published) ==> r@ == Seq::<char>::empty(),
    {
        proof {
            reveal_strlit("");
            assert(""@ =~= Seq::<char>::empty());
        }
        if self.state.is_published() {
            self.content.as_str()
        } else {
            ""
        }
    }

    pub fn request_review(&mut self)
        ensures
            final(self).spec_state() == old(self).spec_state().spec_request_review(),
            final(self).spec_content() == old(self).spec_content(),
    {
        self.state = self.state.request_review();
    }

    pub fn approve(&mut self)
        ensures
            final(self).spec_state() == old(self).spec_state().spec_approve(),
            final(self).spec_content() == old(self).spec_content(),
    {
        self.state = self.state.approve();
    }

    pub fn reject(&mut self)
        ensures
            final(self).spec_state() == old(self).spec_state().spec_reject(),
            final(self).spec_content() == old(self).spec_content(),
    {
        self.state = self.state.reject();
    }

    pub fn is_draft(&self) -> (r: bool)
        ensures
            r == (self.spec_state() is Draft),
    {
        self.state.is_draft()
    }

    pub fn is_pending(&self) -> (r: bool)
        ensures
            r == (self.spec_state() is PendingReview),
    {
        self.state.is_pending()
    }

    pub fn is_scheduled(&self) -> (r: bool)
        ensures
            r == (self.spec_state() is Scheduled),
    {
        self.state.is_scheduled()
    }
}

} // verus!
