//! The handlers, one for each route. A handler that needs the store decides
//! twice: once when the pool has answered, and once when the store has. The
//! pool and the store themselves are the caller's to ask.

use vstd::prelude::*;
use crate::db::{
    insert_post_result, insert_post_statement, insert_user_result, insert_user_statement,
    list_posts_result, list_posts_statement, list_users_result, list_users_statement, Reply,
    ReplyView, Statement, StatementView, spec_insert_post_result, spec_insert_post_statement,
    spec_insert_user_result, spec_insert_user_statement, spec_list_posts_result,
    spec_list_posts_statement, spec_list_users_result, spec_list_users_statement,
};
use crate::errors::{error_response, ErrorKind, ErrorKindView};
use crate::models::{Post, PostView, User, UserView};
use crate::response::{Body, BodyView, Response, ResponseView};

verus! {

/// What the pool answered when a handler asked it for a connection.
#[derive(Clone, Debug, PartialEq, Eq)]
pub enum Lease {
    /// A connection is leased to the handler until it has responded.
    Granted,
    /// No connection could be had; the text is the pool's account of why.
    Refused(String),
}

/// The view of a `Lease`.
pub enum LeaseView {
    Granted,
    Refused(Seq<char>),
}

impl View for Lease {
    type V = LeaseView;

    open spec fn view(&self) -> LeaseView {
        match self {
            Lease::Granted => LeaseView::Granted,
            Lease::Refused(detail) => LeaseView::Refused(detail@),
        }
    }
}

impl DeepView for Lease {
    type V = LeaseView;

    open spec fn deep_view(&self) -> LeaseView {
        self@
    }
}

/// What a handler waits for while its statement runs.
#[derive(Clone, Copy, Debug, PartialEq, Eq)]
pub enum Pending {
    /// The user that an insert stored.
    User,
    /// Every user.
    Users,
    /// The post that an insert stored.
    Post,
    /// The newest posts.
    Posts,
}

/// What a handler asks of its caller once the pool has answered.
#[derive(Clone, Debug, PartialEq, Eq)]
pub enum Step {
    /// Run the statement on the leased connection and hand the store's reply
    /// to `Pending::complete`.
    Execute(Statement, Pending),
    /// Send the response; nothing goes to the store.
    Respond(Response),
}

/// The view of a `Step`.
pub enum StepView {
    Execute(StatementView, Pending),
    Respond(ResponseView),
}

impl View for Step {
    type V = StepView;

    open spec fn view(&self) -> StepView {
        match self {
            Step::Execute(statement, pending) => StepView::Execute(statement@, *pending),
            Step::Respond(response) => StepView::Respond(response@),
        }
    }
}

impl DeepView for Step {
    type V = StepView;

    open spec fn deep_view(&self) -> StepView {
        self@
    }
}

/// The first decision of every handler that needs the store: with a
/// connection the statement runs; without one the pool's error is the
/// response.
pub open spec fn spec_begin(lease: LeaseView, statement: StatementView, pending: Pending) -> StepView {
    match lease {
        LeaseView::Granted => StepView::Execute(statement, pending),
        LeaseView::Refused(detail) => StepView::Respond(
            error_response(ErrorKindView::PoolError(detail)),
        ),
    }
}

/// What `POST /users` asks for once the pool has answered.
pub open spec fn spec_add_user(user: UserView, lease: LeaseView) -> StepView {
    spec_begin(lease, spec_insert_user_statement(user), Pending::User)
}

/// What `POST /posts` asks for once the pool has answered.
pub open spec fn spec_add_post(post: PostView, lease: LeaseView) -> StepView {
    spec_begin(lease, spec_insert_post_statement(post), Pending::Post)
}

/// What `GET /users` asks for once the pool has answered.
pub open spec fn spec_get_users(lease: LeaseView) -> StepView {
    spec_begin(lease, spec_list_users_statement(), Pending::Users)
}

/// What `GET /posts` asks for once the pool has answered.
pub open spec fn spec_get_posts(lease: LeaseView) -> StepView {
    spec_begin(lease, spec_list_posts_statement(), Pending::Posts)
}

/// The response with status 200 that carries `body`.
pub open spec fn ok(body: BodyView) -> ResponseView {
    ResponseView { status: 200, body }
}

/// The second decision: the response to the request, from the store's reply.
/// What the data access layer yields goes out with status 200; its error goes
/// out as `error_response` has it.
pub open spec fn spec_complete(pending: Pending, reply: ReplyView) -> ResponseView {
    match pending {
        Pending::User => match spec_insert_user_result(reply) {
            Ok(user) => ok(BodyView::User(user)),
            Err(e) => error_response(e),
        },
        Pending::Users => match spec_list_users_result(reply) {
            Ok(users) => ok(BodyView::Users(users)),
            Err(e) => error_response(e),
        },
        Pending::Post => match spec_insert_post_result(reply) {
            Ok(post) => ok(BodyView::Post(post)),
            Err(e) => error_response(e),
        },
        Pending::Posts => match spec_list_posts_result(reply) {
            Ok(posts) => ok(BodyView::Posts(posts)),
            Err(e) => error_response(e),
        },
    }
}

/// The response to `GET /`: status 200 and the text `test`.
pub open spec fn spec_root() -> ResponseView {
    ok(BodyView::Text("test"@))
}

/// `POST /users`: stores `user` and answers with the user as stored.
pub fn add_user(user: User, lease: Lease) -> (step: Step)
    ensures
        step@ == spec_add_user(user@, lease@),
{
    match lease {
        Lease::Granted => Step::Execute(insert_user_statement(&user), Pending::User),
        Lease::Refused(detail) => Step::Respond(ErrorKind::PoolError(detail).error_response()),
    }
}

/// `POST /posts`: stores `post` and answers with the post as stored.
pub fn add_post(post: Post, lease: Lease) -> (step: Step)
    ensures
        step@ == spec_add_post(post@, lease@),
{
    match lease {
        Lease::Granted => Step::Execute(insert_post_statement(&post), Pending::Post),
        Lease::Refused(detail) => Step::Respond(ErrorKind::PoolError(detail).error_response()),
    }
}

/// `GET /users`: answers with every user.
pub fn get_users(lease: Lease) -> (step: Step)
    ensures
        step@ == spec_get_users(lease@),
{
    match lease {
        Lease::Granted => Step::Execute(list_users_statement(), Pending::Users),
        Lease::Refused(detail) => Step::Respond(ErrorKind::PoolError(detail).error_response()),
    }
}

/// `GET /posts`: answers with the newest posts.
pub fn get_posts(lease: Lease) -> (step: Step)
    ensures
        step@ == spec_get_posts(lease@),
{
    match lease {
        Lease::Granted => Step::Execute(list_posts_statement(), Pending::Posts),
        Lease::Refused(detail) => Step::Respond(ErrorKind::PoolError(detail).error_response()),
    }
}

/// `GET /`: answers without the pool and without the store.
pub fn root() -> (response: Response)
    ensures
        response@ == spec_root(),
{
    Response { status: 200, body: Body::Text(String::from_str("test")) }
}

impl Pending {
    /// The response to the request, from the store's reply to its statement.
    pub fn complete(self, reply: Reply) -> (response: Response)
        ensures
            response@ == spec_complete(self, reply@),
    {
        match self {
            Pending::User => match insert_user_result(reply) {
                Ok(user) => Response { status: 200, body: Body::User(user) },
                Err(e) => e.error_response(),
            },
            Pending::Users => match list_users_result(reply) {
                Ok(users) => Response { status: 200, body: Body::Users(users) },
                Err(e) => e.error_response(),
            },
            Pending::Post => match insert_post_result(reply) {
                Ok(post) => Response { status: 200, body: Body::Post(post) },
                Err(e) => e.error_response(),
            },
            Pending::Posts => match list_posts_result(reply) {
                Ok(posts) => Response { status: 200, body: Body::Posts(posts) },
                Err(e) => e.error_response(),
            },
        }
    }
}

} // verus!
