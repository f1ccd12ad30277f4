//! What holds of the service when the store keeps its word: it keeps what an
//! insert binds, under the columns that the insert names, and answers a
//! listing as the listing's statement asks.

use vstd::prelude::*;
use crate::db::{
    posts_of_rows, spec_insert_post_statement, spec_insert_user_statement, users_of_rows,
    ReplyView,
};
use crate::handlers::{
    ok, spec_add_post, spec_add_user, spec_complete, spec_get_posts, spec_get_users, LeaseView,
    Pending, StepView,
};
use crate::models::{Post, PostView, User, UserView};
use crate::response::{BodyView, ResponseView};
use crate::row::{
    lemma_position_is, newest_first, optional_timestamp_of, ColumnView, Timestamp, ValueView,
};

verus! {

/// The row that the store keeps for `user`: the columns of the table in
/// order, each holding what the insert binds at its place.
pub open spec fn kept_user_row(user: UserView) -> Seq<ColumnView> {
    let params = spec_insert_user_statement(user).params;
    Seq::new(4, |i: int| ColumnView { name: User::columns()[i], value: ValueView::Text(params[i]) })
}

/// The row that the store keeps for `post`: the first four columns of the
/// table, each holding what the insert binds at its place, and `created_at`,
/// which holds the time `at` that the store chose.
pub open spec fn kept_post_row(post: PostView, at: Option<Timestamp>) -> Seq<ColumnView> {
    let params = spec_insert_post_statement(post).params;
    Seq::new(
        5,
        |i: int|
            ColumnView {
                name: Post::columns()[i],
                value: if i < 4 {
                    ValueView::Text(params[i])
                } else {
                    ValueView::Timestamp(at)
                },
            },
    )
}

/// The time that `row` holds under `created_at`; a row without such a column
/// counts as one without a time.
pub open spec fn created_at_of(row: Seq<ColumnView>) -> Option<Timestamp> {
    match optional_timestamp_of(row, "created_at"@) {
        Some(at) => at,
        None => None,
    }
}

/// The row kept for a user reads back as that user.
pub proof fn lemma_kept_user_row_reads_back(user: UserView)
    ensures
        User::of_row(kept_user_row(user)) == Some(user),
{
    let row = kept_user_row(user);
    reveal_strlit("email");
    reveal_strlit("first_name");
    reveal_strlit("last_name");
    reveal_strlit("username");
    assert(row[0].name.len() == 5 && row[1].name.len() == 10 && row[2].name.len() == 9
        && row[3].name.len() == 8);
    lemma_position_is(row, "email"@, 0);
    lemma_position_is(row, "first_name"@, 1);
    lemma_position_is(row, "last_name"@, 2);
    lemma_position_is(row, "username"@, 3);
}

/// The row kept for a post reads back as that post, with the store's time in
/// place of whatever the caller had put there.
pub proof fn lemma_kept_post_row_reads_back(post: PostView, at: Option<Timestamp>)
    ensures
        Post::of_row(kept_post_row(post, at)) == Some(PostView { created_at: at, ..post }),
{
    let row = kept_post_row(post, at);
    reveal_strlit("name");
    reveal_strlit("icon");
    reveal_strlit("content");
    reveal_strlit("media");
    reveal_strlit("created_at");
    assert(row[0].name.len() == 4 && row[1].name.len() == 4 && row[2].name.len() == 7
        && row[3].name.len() == 5 && row[4].name.len() == 10);
    assert(row[0].name[0] != row[1].name[0]);
    lemma_position_is(row, "name"@, 0);
    lemma_position_is(row, "icon"@, 1);
    lemma_position_is(row, "content"@, 2);
    lemma_position_is(row, "media"@, 3);
    lemma_position_is(row, "created_at"@, 4);
}

/// A user that was stored is read back. Storing `user` answers 200 with the
/// same four values, and a later listing of a table that holds the kept row
/// at place `k` answers 200 with `user` at place `k`. The table holds users
/// only: one row of another shape fails the whole listing.
pub proof fn lemma_user_round_trip(user: UserView, table: Seq<Seq<ColumnView>>, k: int)
    requires
        0 <= k < table.len(),
        table[k] == kept_user_row(user),
        forall|i: int| 0 <= i < table.len() ==> (#[trigger] User::of_row(table[i])) is Some,
    ensures
        spec_add_user(user, LeaseView::Granted) == StepView::Execute(
            spec_insert_user_statement(user),
            Pending::User,
        ),
        spec_complete(Pending::User, ReplyView::Rows(seq![kept_user_row(user)])) == ok(
            BodyView::User(user),
        ),
        spec_get_users(LeaseView::Granted) matches StepView::Execute(_, pending)
            && spec_complete(pending, ReplyView::Rows(table)) matches ResponseView {
            status: 200,
            body: BodyView::Users(users),
        } && users.len() == table.len() && users[k] == user,
{
    lemma_kept_user_row_reads_back(user);
    let one = seq![kept_user_row(user)];
    assert(User::of_row(one[0]) is Some);
    assert(users_of_rows(one) is Some);
    assert(users_of_rows(table) is Some);
}

/// A post keeps its `media`. Storing `post` answers 200 with the post as the
/// store kept it: `media` absent where it was absent and the same text where
/// it was given, the other three fields the same, and `created_at` the time
/// `at` that the store chose.
pub proof fn lemma_post_media_kept(post: PostView, at: Option<Timestamp>)
    ensures
        spec_add_post(post, LeaseView::Granted) matches StepView::Execute(_, pending)
            && spec_complete(pending, ReplyView::Rows(seq![kept_post_row(post, at)])) == ok(
            BodyView::Post(PostView { created_at: at, ..post }),
        ),
{
    lemma_kept_post_row_reads_back(post, at);
    let one = seq![kept_post_row(post, at)];
    assert(Post::of_row(one[0]) is Some);
    assert(posts_of_rows(one) is Some);
}

/// What a caller puts in `created_at` is not stored: two posts that differ
/// there at most send the same statement.
pub proof fn lemma_created_at_not_bound(a: PostView, b: PostView)
    requires
        a.name == b.name,
        a.icon == b.icon,
        a.content == b.content,
        a.media == b.media,
    ensures
        spec_insert_post_statement(a) == spec_insert_post_statement(b),
        forall|lease: LeaseView| spec_add_post(a, lease) == spec_add_post(b, lease),
{
}

/// The listing of posts hands on what the store gave, in the store's order.
/// Where the reply keeps to the statement, at most a hundred rows with the
/// newest first, a listing that succeeds holds at most a hundred posts, none
/// of them before a newer one, and one that fails answers 500.
pub proof fn lemma_posts_newest_first(rows: Seq<Seq<ColumnView>>)
    requires
        rows.len() <= 100,
        forall|i: int, j: int|
            0 <= i < j < rows.len() ==> newest_first(
                #[trigger] created_at_of(rows[i]),
                #[trigger] created_at_of(rows[j]),
            ),
    ensures
        spec_get_posts(LeaseView::Granted) matches StepView::Execute(_, pending) && match spec_complete(
            pending,
            ReplyView::Rows(rows),
        ) {
            ResponseView { status: 200, body: BodyView::Posts(posts) } => {
                &&& posts.len() == rows.len()
                &&& posts.len() <= 100
                &&& forall|i: int, j: int|
                    0 <= i < j < posts.len() ==> newest_first(
                        #[trigger] posts[i].created_at,
                        #[trigger] posts[j].created_at,
                    )
            },
            response => response.status == 500,
        },
{
    match posts_of_rows(rows) {
        Some(posts) => {
            assert forall|i: int, j: int| 0 <= i < j < posts.len() implies newest_first(
                #[trigger] posts[i].created_at,
                #[trigger] posts[j].created_at,
            ) by {
                assert(Post::of_row(rows[i]) is Some);
                assert(Post::of_row(rows[j]) is Some);
                assert(newest_first(created_at_of(rows[i]), created_at_of(rows[j])));
            }
        },
        None => {},
    }
}

/// A request that reached the store is answered with 200, 404 or 500, and
/// only a 200 has a body. It is 404 exactly where an insert came back without
/// a row, and 500 exactly where the statement failed or a row came back in
/// another shape than the record's.
pub proof fn lemma_statuses(pending: Pending, reply: ReplyView)
    ensures
        ({
            let response = spec_complete(pending, reply);
            let insert = pending == Pending::User || pending == Pending::Post;
            let users = pending == Pending::User || pending == Pending::Users;
            &&& response.status == 200 || response.status == 404 || response.status == 500
            &&& response.status != 200 ==> response.body == BodyView::Empty
            &&& response.status == 404 <==> insert && match reply {
                ReplyView::Rows(rows) => rows.len() == 0,
                ReplyView::Failed => false,
            }
            &&& response.status == 500 <==> match reply {
                ReplyView::Rows(rows) => if users {
                    users_of_rows(rows) is None
                } else {
                    posts_of_rows(rows) is None
                },
                ReplyView::Failed => true,
            }
        }),
{
}

/// Without a connection nothing goes to the store: every handler that needs
/// the store answers 500 with the pool's account, and asks for no statement.
pub proof fn lemma_refused_lease_answers_500(user: UserView, post: PostView, detail: Seq<char>)
    ensures
        spec_add_user(user, LeaseView::Refused(detail)) == StepView::Respond(
            ResponseView { status: 500, body: BodyView::Text(detail) },
        ),
        spec_add_post(post, LeaseView::Refused(detail)) == StepView::Respond(
            ResponseView { status: 500, body: BodyView::Text(detail) },
        ),
        spec_get_users(LeaseView::Refused(detail)) == StepView::Respond(
            ResponseView { status: 500, body: BodyView::Text(detail) },
        ),
        spec_get_posts(LeaseView::Refused(detail)) == StepView::Respond(
            ResponseView { status: 500, body: BodyView::Text(detail) },
        ),
{
}

} // verus!
