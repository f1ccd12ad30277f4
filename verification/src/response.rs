//! Responses as the handlers state them: a status and what the body holds.

use vstd::prelude::*;
use crate::models::{Post, PostView, User, UserView};

verus! {

/// What a response carries. A record or a list of records goes out as JSON,
/// a text as it is.
#[derive(Clone, Debug, PartialEq, Eq)]
pub enum Body {
    Empty,
    Text(String),
    User(User),
    Users(Vec<User>),
    Post(Post),
    Posts(Vec<Post>),
}

/// The view of a `Body`.
pub enum BodyView {
    Empty,
    Text(Seq<char>),
    User(UserView),
    Users(Seq<UserView>),
    Post(PostView),
    Posts(Seq<PostView>),
}

impl View for Body {
    type V = BodyView;

    open spec fn view(&self) -> BodyView {
        match self {
            Body::Empty => BodyView::Empty,
            Body::Text(t) => BodyView::Text(t@),
            Body::User(u) => BodyView::User(u@),
            Body::Users(us) => BodyView::Users(us.deep_view()),
            Body::Post(p) => BodyView::Post(p@),
            Body::Posts(ps) => BodyView::Posts(ps.deep_view()),
        }
    }
}

impl DeepView for Body {
    type V = BodyView;

    open spec fn deep_view(&self) -> BodyView {
        self@
    }
}

/// A response: the HTTP status and the body.
#[derive(Clone, Debug, PartialEq, Eq)]
pub struct Response {
    pub status: u16,
    pub body: Body,
}

/// The view of a `Response`.
pub struct ResponseView {
    pub status: u16,
    pub body: BodyView,
}

impl View for Response {
    type V = ResponseView;

    open spec fn view(&self) -> ResponseView {
        ResponseView { status: self.status, body: self.body@ }
    }
}

impl DeepView for Response {
    type V = ResponseView;

    open spec fn deep_view(&self) -> ResponseView {
        self@
    }
}

} // verus!
