//! A content-approval workflow and a renderable component collection.
//!
//! A [`Post`] accumulates text while it is a draft, goes through review, and
//! shows its content only once it is published. The approval policy here is
//! single-approval: one `approve` on a post under review publishes it. Every
//! transition consumes the old state and produces the next one, so a post
//! holds exactly one state at a time.
//!
//! A [`Screen`] holds a heterogeneous collection of components and renders
//! each of them in insertion order.

use vstd::prelude::*;

verus! {

/// The workflow state of a [`Post`].
#[derive(Clone, Copy, Debug, PartialEq, Eq, Structural)]
pub enum WorkflowState {
    Draft,
    PendingReview,
    Published,
}

/// The state after a review request: a draft moves under review; a post
/// already under review or published is left as it is.
pub open spec fn state_after_request_review(s: WorkflowState) -> WorkflowState {
    match s {
        WorkflowState::Draft => WorkflowState::PendingReview,
        WorkflowState::PendingReview => WorkflowState::PendingReview,
        WorkflowState::Published => WorkflowState::Published,
    }
}

/// The state after an approval: a post under review is published; a draft
/// or an already published post is left as it is.
pub open spec fn state_after_approve(s: WorkflowState) -> WorkflowState {
    match s {
        WorkflowState::Draft => WorkflowState::Draft,
        WorkflowState::PendingReview => WorkflowState::Published,
        WorkflowState::Published => WorkflowState::Published,
    }
}

/// The mathematical value of a [`Post`]: its state and the text accumulated
/// so far, whether or not that text is visible yet.
pub struct PostView {
    pub state: WorkflowState,
    pub content: Seq<char>,
}

/// A piece of content moving through the approval workflow.
pub struct Post {
    state: WorkflowState,
    content: String,
}

impl View for Post {
    type V = PostView;

    closed spec fn view(&self) -> PostView {
        PostView { state: self.state, content: self.content@ }
    }
}

/// The text a post shows to the outside: its accumulated content once it is
/// published, and the empty string in every other state.
pub open spec fn visible_content(p: PostView) -> Seq<char> {
    if p.state is Published {
        p.content
    } else {
        Seq::<char>::empty()
    }
}

impl Post {
    /// Starts the workflow: a draft with no text yet.
    pub fn new() -> (p: Post)
        ensures
            p@.state is Draft,
            p@.content == Seq::<char>::empty(),
    {
        Post { state: WorkflowState::Draft, content: String::new() }
    }

    /// Appends `text` while the post is a draft; in any other state the
    /// call is silently ignored and the post is left unchanged.
    pub fn add_text(&mut self, text: &str)
        ensures
            old(self)@.state is Draft ==> final(self)@ == (PostView {
                state: WorkflowState::Draft,
                content: old(self)@.content + text@,
            }),
            !(old(self)@.state is Draft) ==> final(self)@ == old(self)@,
    {
        match self.state {
            WorkflowState::Draft => {
                self.content.append(text);
            },
            _ => {},
        }
    }

    /// The externally visible text: the accumulated content once the post
    /// is published, and the empty string in every other state.
    pub fn content(&self) -> (text: &str)
        ensures
            text@ == visible_content(self@),
    {
        match self.state {
            WorkflowState::Published => self.content.as_str(),
            _ => {
                proof {
                    reveal_strlit("");
                }
                ""
            },
        }
    }

    /// Asks for review: a draft moves under review; the call is idempotent
    /// and leaves a post under review or published as it is. The text is
    /// never changed.
    pub fn request_review(&mut self)
        ensures
            final(self)@.state == state_after_request_review(old(self)@.state),
            final(self)@.content == old(self)@.content,
    {
        match self.state {
            WorkflowState::Draft => {
                self.state = WorkflowState::PendingReview;
            },
            _ => {},
        }
    }

    /// Approves the post: one approval publishes a post under review; the
    /// call is idempotent and leaves a draft or a published post as it is.
    /// The text is never changed.
    pub fn approve(&mut self)
        ensures
            final(self)@.state == state_after_approve(old(self)@.state),
            final(self)@.content == old(self)@.content,
    {
        match self.state {
            WorkflowState::PendingReview => {
                self.state = WorkflowState::Published;
            },
            _ => {},
        }
    }
}

/// Asking for review twice is the same as asking once: the second request
/// is a no-op in every state the first one can produce.
pub proof fn lemma_request_review_idempotent(s: WorkflowState)
    ensures
        state_after_request_review(state_after_request_review(s)) == state_after_request_review(s),
{
}

/// Approving twice is the same as approving once: the second approval is a
/// no-op in every state the first one can produce.
pub proof fn lemma_approve_idempotent(s: WorkflowState)
    ensures
        state_after_approve(state_after_approve(s)) == state_after_approve(s),
{
}

/// A post's text is visible only once it is published: in every other state
/// the outside sees the empty string.
pub proof fn lemma_content_hidden_until_published(p: PostView)
    ensures
        !(p.state is Published) ==> visible_content(p) == Seq::<char>::empty(),
        p.state is Published ==> visible_content(p) == p.content,
{
}

/// The capability to render to a line of output. Rendering is read-only:
/// what a component renders to is a function of the component alone.
pub trait Draw {
    /// What this component renders to.
    spec fn rendered(&self) -> Seq<char>;

    /// Renders the component to one line of output.
    fn draw(&self) -> (out: String)
        ensures
            out@ == self.rendered(),
    ;
}

/// A push button with a size and a label.
pub struct Button {
    pub width: u32,
    pub height: u32,
    pub label: String,
}

impl Draw for Button {
    open spec fn rendered(&self) -> Seq<char> {
        "Drawing Button..."@
    }

    fn draw(&self) -> (out: String) {
        "Drawing Button...".to_owned()
    }
}

/// A selection box with a size and a list of options.
pub struct SelectBox {
    pub width: u32,
    pub height: u32,
    pub options: Vec<String>,
}

impl Draw for SelectBox {
    open spec fn rendered(&self) -> Seq<char> {
        "Drawing SelectBox..."@
    }

    fn draw(&self) -> (out: String) {
        "Drawing SelectBox...".to_owned()
    }
}

/// One element of a [`Screen`]: any of the closed set of component kinds,
/// dispatched on at the call site when it is asked to render itself.
pub enum Component {
    Button(Button),
    SelectBox(SelectBox),
}

impl Draw for Component {
    open spec fn rendered(&self) -> Seq<char> {
        match self {
            Component::Button(b) => b.rendered(),
            Component::SelectBox(s) => s.rendered(),
        }
    }

    fn draw(&self) -> (out: String) {
        match self {
            Component::Button(b) => b.draw(),
            Component::SelectBox(s) => s.draw(),
        }
    }
}

/// An ordered, possibly heterogeneous collection of components.
pub struct Screen {
    pub components: Vec<Component>,
}

impl Screen {
    /// Renders every component, each exactly once, in insertion order:
    /// the returned lines are, element for element, what the components
    /// render to.
    pub fn run(&self) -> (out: Vec<String>)
        ensures
            out@.len() == self.components@.len(),
            forall|i: int| 0 <= i < out@.len() ==> #[trigger] out@[i]@ == self.components@[i].rendered(),
    {
        let mut out: Vec<String> = Vec::new();
        let n = self.components.len();
        let mut idx: usize = 0;
        while idx < n
            invariant
                n == self.components@.len(),
                idx <= n,
                out@.len() == idx,
                forall|i: int| 0 <= i < idx ==> #[trigger] out@[i]@ == self.components@[i].rendered(),
            decreases n - idx,
        {
            let line = self.components[idx].draw();
            out.push(line);
            idx += 1;
        }
        out
    }
}

} // verus!
