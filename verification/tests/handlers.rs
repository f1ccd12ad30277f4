use postboard::db::{Reply, Statement};
use postboard::errors::ErrorKind;
use postboard::handlers::{add_post, add_user, get_posts, get_users, root, Lease, Pending, Step};
use postboard::models::{Post, User};
use postboard::response::{Body, Response};
use postboard::row::{Column, Row, Timestamp, Value};

fn cell(name: &str, value: &str) -> Column {
    Column { name: name.to_string(), value: Value::Text(Some(value.to_string())) }
}

fn ab() -> User {
    User {
        email: "a@x.com".to_string(),
        first_name: "A".to_string(),
        last_name: "B".to_string(),
        username: "ab".to_string(),
    }
}

fn ab_row() -> Row {
    Row {
        columns: vec![
            cell("email", "a@x.com"),
            cell("first_name", "A"),
            cell("last_name", "B"),
            cell("username", "ab"),
        ],
    }
}

fn other_user_row(n: u32) -> Row {
    Row {
        columns: vec![
            cell("email", &format!("u{}@x.com", n)),
            cell("first_name", "F"),
            cell("last_name", "L"),
            cell("username", &format!("u{}", n)),
        ],
    }
}

fn nic(media: Option<&str>, created_at: Option<Timestamp>) -> Post {
    Post {
        name: "n".to_string(),
        icon: "i".to_string(),
        content: "c".to_string(),
        media: media.map(|m| m.to_string()),
        created_at,
    }
}

fn post_row(name: &str, media: Option<&str>, created_at: Option<Timestamp>) -> Row {
    Row {
        columns: vec![
            cell("name", name),
            cell("icon", "i"),
            cell("content", "c"),
            Column { name: "media".to_string(), value: Value::Text(media.map(|m| m.to_string())) },
            Column { name: "created_at".to_string(), value: Value::Timestamp(created_at) },
        ],
    }
}

/// What the store keeps for an insert on `columns`, and hands back.
fn kept(columns: &[&str], statement: &Statement) -> Row {
    Row {
        columns: columns
            .iter()
            .zip(statement.params.iter())
            .map(|(name, text)| Column { name: name.to_string(), value: Value::Text(text.clone()) })
            .collect(),
    }
}

fn statement_of(step: Step) -> (Statement, Pending) {
    match step {
        Step::Execute(statement, pending) => (statement, pending),
        Step::Respond(response) => panic!("no statement, but {:?}", response),
    }
}

fn pool_says(detail: &str) -> Response {
    Response { status: 500, body: Body::Text(detail.to_string()) }
}

#[test]
fn root_answers_200_test() {
    assert_eq!(root(), Response { status: 200, body: Body::Text("test".to_string()) });
}

#[test]
fn add_user_sends_the_insert_and_answers_with_the_stored_user() {
    let (statement, pending) = statement_of(add_user(ab(), Lease::Granted));
    assert_eq!(pending, Pending::User);
    assert_eq!(
        statement.text,
        "INSERT INTO users(email, first_name, last_name, username) VALUES ($1, $2, $3, $4) \
         RETURNING  users.email ,  users.first_name ,  users.last_name ,  users.username ;"
    );
    let row = kept(&["email", "first_name", "last_name", "username"], &statement);
    assert_eq!(row, ab_row());
    assert_eq!(
        pending.complete(Reply::Rows(vec![row])),
        Response { status: 200, body: Body::User(ab()) }
    );
}

#[test]
fn add_user_then_get_users_holds_the_user() {
    let (statement, pending) = statement_of(add_user(ab(), Lease::Granted));
    let row = kept(&["email", "first_name", "last_name", "username"], &statement);
    let table = vec![other_user_row(1), other_user_row(2), row.clone()];
    assert_eq!(pending.complete(Reply::Rows(vec![row])).status, 200);

    let (statement, pending) = statement_of(get_users(Lease::Granted));
    assert_eq!(statement, Statement { text: "SELECT * FROM users".to_string(), params: vec![] });
    assert_eq!(pending, Pending::Users);
    match pending.complete(Reply::Rows(table)) {
        Response { status: 200, body: Body::Users(users) } => {
            assert_eq!(users.len(), 3);
            assert_eq!(users[2], ab());
        }
        other => panic!("{:?}", other),
    }
}

#[test]
fn add_user_where_the_insert_returns_no_row_answers_404() {
    let (_, pending) = statement_of(add_user(ab(), Lease::Granted));
    assert_eq!(
        pending.complete(Reply::Rows(Vec::new())),
        Response { status: 404, body: Body::Empty }
    );
}

#[test]
fn add_user_where_the_statement_fails_answers_500_without_body() {
    let (_, pending) = statement_of(add_user(ab(), Lease::Granted));
    assert_eq!(pending.complete(Reply::Failed), Response { status: 500, body: Body::Empty });
}

#[test]
fn add_user_where_the_row_has_another_shape_answers_500_without_body() {
    let (_, pending) = statement_of(add_user(ab(), Lease::Granted));
    let row = Row { columns: vec![cell("email", "a@x.com")] };
    assert_eq!(
        pending.complete(Reply::Rows(vec![row])),
        Response { status: 500, body: Body::Empty }
    );
}

#[test]
fn add_post_without_media_answers_with_the_time_of_the_store() {
    let submitted = nic(None, None);
    let (statement, pending) = statement_of(add_post(submitted, Lease::Granted));
    assert_eq!(pending, Pending::Post);
    assert_eq!(
        statement.text,
        "INSERT INTO posts(name, icon, content, media) VALUES ($1, $2, $3, $4) \
         RETURNING  posts.name ,  posts.icon ,  posts.content ,  posts.media ,  \
         posts.created_at ;"
    );
    assert_eq!(statement.params.len(), 4);
    assert_eq!(statement.params[3], None);
    let now = Timestamp { secs: 1_700_000_000, nanos: 123_456_000 };
    let mut row = kept(&["name", "icon", "content", "media"], &statement);
    row.columns.push(Column { name: "created_at".to_string(), value: Value::Timestamp(Some(now)) });
    assert_eq!(
        pending.complete(Reply::Rows(vec![row])),
        Response { status: 200, body: Body::Post(nic(None, Some(now))) }
    );
}

#[test]
fn add_post_keeps_media_as_it_was_given() {
    let media = " spaced/päth?.png ";
    let (statement, pending) = statement_of(add_post(nic(Some(media), None), Lease::Granted));
    assert_eq!(statement.params[3], Some(media.to_string()));
    let now = Timestamp { secs: 5, nanos: 0 };
    let mut row = kept(&["name", "icon", "content", "media"], &statement);
    row.columns.push(Column { name: "created_at".to_string(), value: Value::Timestamp(Some(now)) });
    assert_eq!(
        pending.complete(Reply::Rows(vec![row])),
        Response { status: 200, body: Body::Post(nic(Some(media), Some(now))) }
    );
}

#[test]
fn add_post_disregards_a_submitted_time() {
    let theirs = Timestamp { secs: 1, nanos: 1 };
    let (with, _) = statement_of(add_post(nic(None, Some(theirs)), Lease::Granted));
    let (without, pending) = statement_of(add_post(nic(None, None), Lease::Granted));
    assert_eq!(with, without);
    let ours = Timestamp { secs: 99, nanos: 0 };
    assert_eq!(
        pending.complete(Reply::Rows(vec![post_row("n", None, Some(ours))])),
        Response { status: 200, body: Body::Post(nic(None, Some(ours))) }
    );
}

#[test]
fn add_post_where_the_insert_returns_no_row_answers_404() {
    let (_, pending) = statement_of(add_post(nic(None, None), Lease::Granted));
    assert_eq!(
        pending.complete(Reply::Rows(Vec::new())),
        Response { status: 404, body: Body::Empty }
    );
}

#[test]
fn get_users_of_an_empty_table_answers_200_with_an_empty_list() {
    let (_, pending) = statement_of(get_users(Lease::Granted));
    assert_eq!(
        pending.complete(Reply::Rows(Vec::new())),
        Response { status: 200, body: Body::Users(Vec::new()) }
    );
}

#[test]
fn get_users_where_the_statement_fails_answers_500_without_body() {
    let (_, pending) = statement_of(get_users(Lease::Granted));
    assert_eq!(pending.complete(Reply::Failed), Response { status: 500, body: Body::Empty });
}

#[test]
fn get_users_where_a_row_has_another_shape_answers_500_without_body() {
    let (_, pending) = statement_of(get_users(Lease::Granted));
    let rows = vec![ab_row(), post_row("n", None, None)];
    assert_eq!(pending.complete(Reply::Rows(rows)), Response { status: 500, body: Body::Empty });
}

#[test]
fn get_posts_sends_the_ordered_and_limited_listing() {
    let (statement, pending) = statement_of(get_posts(Lease::Granted));
    assert_eq!(pending, Pending::Posts);
    assert_eq!(
        statement,
        Statement {
            text: "SELECT * FROM posts ORDER BY created_at DESC LIMIT 100".to_string(),
            params: vec![],
        }
    );
}

#[test]
fn get_posts_hands_on_the_order_of_the_store() {
    let (_, pending) = statement_of(get_posts(Lease::Granted));
    let times = [
        Timestamp { secs: 30, nanos: 0 },
        Timestamp { secs: 20, nanos: 999 },
        Timestamp { secs: 20, nanos: 999 },
        Timestamp { secs: 20, nanos: 1 },
        Timestamp { secs: -4, nanos: 0 },
    ];
    let rows = times.iter().map(|t| post_row("p", None, Some(*t))).collect();
    match pending.complete(Reply::Rows(rows)) {
        Response { status: 200, body: Body::Posts(posts) } => {
            assert_eq!(posts.len(), 5);
            for (post, time) in posts.iter().zip(times.iter()) {
                assert_eq!(post.created_at, Some(*time));
            }
        }
        other => panic!("{:?}", other),
    }
}

#[test]
fn get_posts_of_a_full_page_answers_with_a_hundred() {
    let (_, pending) = statement_of(get_posts(Lease::Granted));
    let rows = (0..100)
        .map(|k| post_row(&format!("post {}", k), None, Some(Timestamp { secs: 200 - k, nanos: 0 })))
        .collect();
    match pending.complete(Reply::Rows(rows)) {
        Response { status: 200, body: Body::Posts(posts) } => {
            assert_eq!(posts.len(), 100);
            assert_eq!(posts[0].name, "post 0");
            assert_eq!(posts[99].name, "post 99");
            for pair in posts.windows(2) {
                assert!(pair[0].created_at.unwrap().secs >= pair[1].created_at.unwrap().secs);
            }
        }
        other => panic!("{:?}", other),
    }
}

#[test]
fn get_posts_where_the_statement_fails_answers_500_without_body() {
    let (_, pending) = statement_of(get_posts(Lease::Granted));
    assert_eq!(pending.complete(Reply::Failed), Response { status: 500, body: Body::Empty });
}

#[test]
fn without_a_connection_every_handler_answers_500_and_sends_nothing() {
    let why = "Timeout occurred while waiting for a slot to become available";
    let refused = || Lease::Refused(why.to_string());
    assert_eq!(add_user(ab(), refused()), Step::Respond(pool_says(why)));
    assert_eq!(add_post(nic(None, None), refused()), Step::Respond(pool_says(why)));
    assert_eq!(get_users(refused()), Step::Respond(pool_says(why)));
    assert_eq!(get_posts(refused()), Step::Respond(pool_says(why)));
}

#[test]
fn without_a_connection_root_still_answers() {
    assert_eq!(get_users(Lease::Refused(String::new())), Step::Respond(pool_says("")));
    assert_eq!(root().status, 200);
}

#[test]
fn error_response_of_each_kind() {
    assert_eq!(
        ErrorKind::NotFound.error_response(),
        Response { status: 404, body: Body::Empty }
    );
    assert_eq!(
        ErrorKind::DatabaseError.error_response(),
        Response { status: 500, body: Body::Empty }
    );
    assert_eq!(
        ErrorKind::MappingError.error_response(),
        Response { status: 500, body: Body::Empty }
    );
    assert_eq!(
        ErrorKind::PoolError("Pool has been closed".to_string()).error_response(),
        Response { status: 500, body: Body::Text("Pool has been closed".to_string()) }
    );
}

#[test]
fn complete_reads_the_reply_as_the_pending_request_says() {
    let rows = || Reply::Rows(vec![ab_row()]);
    assert_eq!(Pending::User.complete(rows()), Response { status: 200, body: Body::User(ab()) });
    assert_eq!(
        Pending::Users.complete(rows()),
        Response { status: 200, body: Body::Users(vec![ab()]) }
    );
    assert_eq!(Pending::Post.complete(rows()), Response { status: 500, body: Body::Empty });
    assert_eq!(Pending::Posts.complete(rows()), Response { status: 500, body: Body::Empty });
}
