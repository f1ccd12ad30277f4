//! Data access: the statement that each operation sends to the store, and what
//! the store's reply means.

use vstd::prelude::*;
use crate::errors::{ErrorKind, ErrorKindView};
use crate::models::{Post, PostView, User, UserView};
use crate::row::{ColumnView, Row};
use crate::sql::{substitute, substituted, table_fields};

verus! {

/// The template of the statement that stores a user.
pub const INSERT_USER: &'static str =
    "INSERT INTO users(email, first_name, last_name, username) VALUES ($1, $2, $3, $4) RETURNING $table_fields;";

/// The template of the statement that stores a post. The store sets
/// `created_at` itself.
pub const INSERT_POST: &'static str =
    "INSERT INTO posts(name, icon, content, media) VALUES ($1, $2, $3, $4) RETURNING $table_fields;";

/// The statement that reads every user.
pub const LIST_USERS: &'static str = "SELECT * FROM users";

/// The statement that reads the hundred newest posts, the newest first.
pub const LIST_POSTS: &'static str = "SELECT * FROM posts ORDER BY created_at DESC LIMIT 100";

/// Where a template names its column list.
pub const TABLE_FIELDS: &'static str = "$table_fields";

/// A statement for the store: its text and the texts bound to `$1`, `$2` and
/// so on, in that order. `None` binds null.
#[derive(Clone, Debug, PartialEq, Eq)]
pub struct Statement {
    pub text: String,
    pub params: Vec<Option<String>>,
}

/// The view of a `Statement`.
pub struct StatementView {
    pub text: Seq<char>,
    pub params: Seq<Option<Seq<char>>>,
}

impl View for Statement {
    type V = StatementView;

    open spec fn view(&self) -> StatementView {
        StatementView { text: self.text@, params: self.params.deep_view() }
    }
}

impl DeepView for Statement {
    type V = StatementView;

    open spec fn deep_view(&self) -> StatementView {
        self@
    }
}

/// The statement that stores `user`: the four fields are bound in the order
/// of the columns, and every column of the stored row is asked back.
pub open spec fn spec_insert_user_statement(user: UserView) -> StatementView {
    StatementView {
        text: substituted(INSERT_USER@, TABLE_FIELDS@, table_fields(User::table(), User::columns())),
        params: seq![
            Some(user.email),
            Some(user.first_name),
            Some(user.last_name),
            Some(user.username),
        ],
    }
}

/// The statement that stores `user`.
pub fn insert_user_statement(user: &User) -> (s: Statement)
    ensures
        s@ == spec_insert_user_statement(user@),
{
    let fields = User::sql_table_fields();
    let text = substitute(INSERT_USER, TABLE_FIELDS, fields.as_str());
    let params = vec![
        Some(user.email.clone()),
        Some(user.first_name.clone()),
        Some(user.last_name.clone()),
        Some(user.username.clone()),
    ];
    assert(params.deep_view() =~= spec_insert_user_statement(user@).params);
    Statement { text, params }
}

/// The statement that stores `post`: `name`, `icon`, `content` and `media`
/// are bound, an absent `media` as null. `created_at` is not bound, whatever
/// it holds.
pub open spec fn spec_insert_post_statement(post: PostView) -> StatementView {
    StatementView {
        text: substituted(INSERT_POST@, TABLE_FIELDS@, table_fields(Post::table(), Post::columns())),
        params: seq![Some(post.name), Some(post.icon), Some(post.content), post.media],
    }
}

/// The statement that stores `post`.
pub fn insert_post_statement(post: &Post) -> (s: Statement)
    ensures
        s@ == spec_insert_post_statement(post@),
{
    let fields = Post::sql_table_fields();
    let text = substitute(INSERT_POST, TABLE_FIELDS, fields.as_str());
    let media = match &post.media {
        Some(m) => Some(m.clone()),
        None => None,
    };
    let params = vec![
        Some(post.name.clone()),
        Some(post.icon.clone()),
        Some(post.content.clone()),
        media,
    ];
    assert(params.deep_view() =~= spec_insert_post_statement(post@).params);
    Statement { text, params }
}

/// The statement that reads every user: no filter, no order, no limit, and
/// nothing bound.
pub open spec fn spec_list_users_statement() -> StatementView {
    StatementView { text: LIST_USERS@, params: Seq::empty() }
}

/// The statement that reads every user.
pub fn list_users_statement() -> (s: Statement)
    ensures
        s@ == spec_list_users_statement(),
{
    let params: Vec<Option<String>> = Vec::new();
    assert(params.deep_view() =~= Seq::<Option<Seq<char>>>::empty());
    Statement { text: String::from_str(LIST_USERS), params }
}

/// The statement that reads the newest posts: at most a hundred, in
/// descending order of `created_at`, with nothing bound.
pub open spec fn spec_list_posts_statement() -> StatementView {
    StatementView { text: LIST_POSTS@, params: Seq::empty() }
}

/// The statement that reads the newest posts.
pub fn list_posts_statement() -> (s: Statement)
    ensures
        s@ == spec_list_posts_statement(),
{
    let params: Vec<Option<String>> = Vec::new();
    assert(params.deep_view() =~= Seq::<Option<Seq<char>>>::empty());
    Statement { text: String::from_str(LIST_POSTS), params }
}

/// What the store answered to a statement.
#[derive(Clone, Debug, PartialEq, Eq)]
pub enum Reply {
    /// The statement ran; these are its rows, in the store's order.
    Rows(Vec<Row>),
    /// The statement could not be prepared or run.
    Failed,
}

/// The view of a `Reply`.
pub enum ReplyView {
    Rows(Seq<Seq<ColumnView>>),
    Failed,
}

impl View for Reply {
    type V = ReplyView;

    open spec fn view(&self) -> ReplyView {
        match self {
            Reply::Rows(rows) => ReplyView::Rows(rows.deep_view()),
            Reply::Failed => ReplyView::Failed,
        }
    }
}

impl DeepView for Reply {
    type V = ReplyView;

    open spec fn deep_view(&self) -> ReplyView {
        self@
    }
}

/// The users that `rows` hold, row for row and in the rows' order; `None`
/// where some row does not have a user's shape.
pub open spec fn users_of_rows(rows: Seq<Seq<ColumnView>>) -> Option<Seq<UserView>> {
    if forall|i: int| 0 <= i < rows.len() ==> (#[trigger] User::of_row(rows[i])) is Some {
        Some(Seq::new(rows.len(), |i: int| User::of_row(rows[i])->0))
    } else {
        None
    }
}

/// The posts that `rows` hold, row for row and in the rows' order; `None`
/// where some row does not have a post's shape.
pub open spec fn posts_of_rows(rows: Seq<Seq<ColumnView>>) -> Option<Seq<PostView>> {
    if forall|i: int| 0 <= i < rows.len() ==> (#[trigger] Post::of_row(rows[i])) is Some {
        Some(Seq::new(rows.len(), |i: int| Post::of_row(rows[i])->0))
    } else {
        None
    }
}

/// What a listing of users yields: every row of the reply as a user.
/// A statement that failed is a `DatabaseError`, a row of another shape a
/// `MappingError`.
pub open spec fn spec_list_users_result(reply: ReplyView) -> Result<Seq<UserView>, ErrorKindView> {
    match reply {
        ReplyView::Failed => Err(ErrorKindView::DatabaseError),
        ReplyView::Rows(rows) => match users_of_rows(rows) {
            Some(users) => Ok(users),
            None => Err(ErrorKindView::MappingError),
        },
    }
}

/// What a listing of posts yields: every row of the reply as a post, with the
/// same two errors as a listing of users.
pub open spec fn spec_list_posts_result(reply: ReplyView) -> Result<Seq<PostView>, ErrorKindView> {
    match reply {
        ReplyView::Failed => Err(ErrorKindView::DatabaseError),
        ReplyView::Rows(rows) => match posts_of_rows(rows) {
            Some(posts) => Ok(posts),
            None => Err(ErrorKindView::MappingError),
        },
    }
}

/// What storing a user yields: the rows of the reply are read as a listing
/// reads them, and the first is the stored user. No row at all is `NotFound`.
pub open spec fn spec_insert_user_result(reply: ReplyView) -> Result<UserView, ErrorKindView> {
    match spec_list_users_result(reply) {
        Err(e) => Err(e),
        Ok(users) => if users.len() == 0 {
            Err(ErrorKindView::NotFound)
        } else {
            Ok(users[0])
        },
    }
}

/// What storing a post yields: the rows of the reply are read as a listing
/// reads them, and the first is the stored post. No row at all is `NotFound`.
pub open spec fn spec_insert_post_result(reply: ReplyView) -> Result<PostView, ErrorKindView> {
    match spec_list_posts_result(reply) {
        Err(e) => Err(e),
        Ok(posts) => if posts.len() == 0 {
            Err(ErrorKindView::NotFound)
        } else {
            Ok(posts[0])
        },
    }
}

/// A `Result` of the data access layer in specifications.
pub open spec fn result_view<T: DeepView>(r: Result<T, ErrorKind>) -> Result<T::V, ErrorKindView> {
    match r {
        Ok(t) => Ok(t.deep_view()),
        Err(e) => Err(e@),
    }
}

/// The users that a listing yields from `reply`.
pub fn list_users_result(reply: Reply) -> (r: Result<Vec<User>, ErrorKind>)
    ensures
        result_view(r) == spec_list_users_result(reply@),
{
    let rows = match reply {
        Reply::Rows(rows) => rows,
        Reply::Failed => { return Err(ErrorKind::DatabaseError); },
    };
    let mut users: Vec<User> = Vec::new();
    let mut i: usize = 0;
    while i < rows.len()
        invariant
            i <= rows.len(),
            users.len() == i,
            reply@ == ReplyView::Rows(rows.deep_view()),
            forall|k: int| 0 <= k < i ==> User::of_row(#[trigger] rows.deep_view()[k]) == Some(
                users.deep_view()[k],
            ),
        decreases rows.len() - i,
    {
        match User::from_row_ref(&rows[i]) {
            Ok(user) => {
                users.push(user);
            },
            Err(e) => {
                assert(User::of_row(rows.deep_view()[i as int]) is None);
                return Err(e);
            },
        }
        i += 1;
    }
    assert(users.deep_view() =~= users_of_rows(rows.deep_view())->0);
    Ok(users)
}

/// The posts that a listing yields from `reply`.
pub fn list_posts_result(reply: Reply) -> (r: Result<Vec<Post>, ErrorKind>)
    ensures
        result_view(r) == spec_list_posts_result(reply@),
{
    let rows = match reply {
        Reply::Rows(rows) => rows,
        Reply::Failed => { return Err(ErrorKind::DatabaseError); },
    };
    let mut posts: Vec<Post> = Vec::new();
    let mut i: usize = 0;
    while i < rows.len()
        invariant
            i <= rows.len(),
            posts.len() == i,
            reply@ == ReplyView::Rows(rows.deep_view()),
            forall|k: int| 0 <= k < i ==> Post::of_row(#[trigger] rows.deep_view()[k]) == Some(
                posts.deep_view()[k],
            ),
        decreases rows.len() - i,
    {
        match Post::from_row_ref(&rows[i]) {
            Ok(post) => {
                posts.push(post);
            },
            Err(e) => {
                assert(Post::of_row(rows.deep_view()[i as int]) is None);
                return Err(e);
            },
        }
        i += 1;
    }
    assert(posts.deep_view() =~= posts_of_rows(rows.deep_view())->0);
    Ok(posts)
}

/// The user that the store kept, from its `reply` to the insert.
pub fn insert_user_result(reply: Reply) -> (r: Result<User, ErrorKind>)
    ensures
        result_view(r) == spec_insert_user_result(reply@),
{
    let mut users = list_users_result(reply)?;
    if users.len() == 0 {
        Err(ErrorKind::NotFound)
    } else {
        Ok(users.remove(0))
    }
}

/// The post that the store kept, from its `reply` to the insert.
pub fn insert_post_result(reply: Reply) -> (r: Result<Post, ErrorKind>)
    ensures
        result_view(r) == spec_insert_post_result(reply@),
{
    let mut posts = list_posts_result(reply)?;
    if posts.len() == 0 {
        Err(ErrorKind::NotFound)
    } else {
        Ok(posts.remove(0))
    }
}

} // verus!
