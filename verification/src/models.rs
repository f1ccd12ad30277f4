//! The two records of the service, their tables, and how a row of the store
//! becomes a record.

use vstd::prelude::*;
use crate::errors::{ErrorKind, ErrorKindView};
use crate::row::{optional_text_of, optional_timestamp_of, text_of, ColumnView, Row, Timestamp};
use crate::sql::{names, qualified_fields, table_fields};

verus! {

/// A user. Every field is required.
#[derive(Clone, Debug, PartialEq, Eq)]
pub struct User {
    pub email: String,
    pub first_name: String,
    pub last_name: String,
    pub username: String,
}

/// The view of a `User`.
pub struct UserView {
    pub email: Seq<char>,
    pub first_name: Seq<char>,
    pub last_name: Seq<char>,
    pub username: Seq<char>,
}

impl View for User {
    type V = UserView;

    open spec fn view(&self) -> UserView {
        UserView {
            email: self.email@,
            first_name: self.first_name@,
            last_name: self.last_name@,
            username: self.username@,
        }
    }
}

impl DeepView for User {
    type V = UserView;

    open spec fn deep_view(&self) -> UserView {
        self@
    }
}

impl User {
    /// The table that holds the users.
    pub open spec fn table() -> Seq<char> {
        "users"@
    }

    /// The columns of that table, one for each field and in the fields' order.
    pub open spec fn columns() -> Seq<Seq<char>> {
        seq!["email"@, "first_name"@, "last_name"@, "username"@]
    }

    /// The user that `row` holds: each field is read from the first column that
    /// bears its name, which must be of a text type and not null. Columns that
    /// no field names are passed over.
    pub open spec fn of_row(row: Seq<ColumnView>) -> Option<UserView> {
        match (
            text_of(row, "email"@),
            text_of(row, "first_name"@),
            text_of(row, "last_name"@),
            text_of(row, "username"@),
        ) {
            (Some(email), Some(first_name), Some(last_name), Some(username)) => Some(
                UserView { email, first_name, last_name, username },
            ),
            _ => None,
        }
    }

    /// The name of the table.
    pub fn sql_table() -> (r: String)
        ensures
            r@ == Self::table(),
    {
        String::from_str("users")
    }

    /// The column list of the table, as a statement names it.
    pub fn sql_table_fields() -> (r: String)
        ensures
            r@ == table_fields(Self::table(), Self::columns()),
    {
        let table = Self::sql_table();
        let columns: Vec<&'static str> = vec!["email", "first_name", "last_name", "username"];
        assert(names(columns@) =~= Self::columns());
        qualified_fields(table.as_str(), &columns)
    }

    /// The user that `row` holds, or `MappingError` where the row does not
    /// have a user's shape.
    pub fn from_row_ref(row: &Row) -> (r: Result<User, ErrorKind>)
        ensures
            match r {
                Ok(user) => Self::of_row(row@) == Some(user@),
                Err(e) => e@ == ErrorKindView::MappingError && Self::of_row(row@) is None,
            },
    {
        let email = match row.text("email") {
            Some(t) => t,
            None => { return Err(ErrorKind::MappingError); },
        };
        let first_name = match row.text("first_name") {
            Some(t) => t,
            None => { return Err(ErrorKind::MappingError); },
        };
        let last_name = match row.text("last_name") {
            Some(t) => t,
            None => { return Err(ErrorKind::MappingError); },
        };
        let username = match row.text("username") {
            Some(t) => t,
            None => { return Err(ErrorKind::MappingError); },
        };
        Ok(User { email, first_name, last_name, username })
    }
}

/// A post. `media` may be absent. `created_at` is the store's to give: what a
/// caller puts there is never stored.
#[derive(Clone, Debug, PartialEq, Eq)]
pub struct Post {
    pub name: String,
    pub icon: String,
    pub content: String,
    pub media: Option<String>,
    pub created_at: Option<Timestamp>,
}

/// The view of a `Post`.
pub struct PostView {
    pub name: Seq<char>,
    pub icon: Seq<char>,
    pub content: Seq<char>,
    pub media: Option<Seq<char>>,
    pub created_at: Option<Timestamp>,
}

impl View for Post {
    type V = PostView;

    open spec fn view(&self) -> PostView {
        PostView {
            name: self.name@,
            icon: self.icon@,
            content: self.content@,
            media: self.media.deep_view(),
            created_at: self.created_at,
        }
    }
}

impl DeepView for Post {
    type V = PostView;

    open spec fn deep_view(&self) -> PostView {
        self@
    }
}

impl Post {
    /// The table that holds the posts.
    pub open spec fn table() -> Seq<char> {
        "posts"@
    }

    /// The columns of that table, one for each field and in the fields' order.
    pub open spec fn columns() -> Seq<Seq<char>> {
        seq!["name"@, "icon"@, "content"@, "media"@, "created_at"@]
    }

    /// The post that `row` holds: each field is read from the first column that
    /// bears its name. `name`, `icon` and `content` must be text and not null,
    /// `media` text or null, `created_at` a timestamp or null. Columns that no
    /// field names are passed over.
    pub open spec fn of_row(row: Seq<ColumnView>) -> Option<PostView> {
        match (
            text_of(row, "name"@),
            text_of(row, "icon"@),
            text_of(row, "content"@),
            optional_text_of(row, "media"@),
            optional_timestamp_of(row, "created_at"@),
        ) {
            (Some(name), Some(icon), Some(content), Some(media), Some(created_at)) => Some(
                PostView { name, icon, content, media, created_at },
            ),
            _ => None,
        }
    }

    /// The name of the table.
    pub fn sql_table() -> (r: String)
        ensures
            r@ == Self::table(),
    {
        String::from_str("posts")
    }

    /// The column list of the table, as a statement names it.
    pub fn sql_table_fields() -> (r: String)
        ensures
            r@ == table_fields(Self::table(), Self::columns()),
    {
        let table = Self::sql_table();
        let columns: Vec<&'static str> = vec!["name", "icon", "content", "media", "created_at"];
        assert(names(columns@) =~= Self::columns());
        qualified_fields(table.as_str(), &columns)
    }

    /// The post that `row` holds, or `MappingError` where the row does not
    /// have a post's shape.
    pub fn from_row_ref(row: &Row) -> (r: Result<Post, ErrorKind>)
        ensures
            match r {
                Ok(post) => Self::of_row(row@) == Some(post@),
                Err(e) => e@ == ErrorKindView::MappingError && Self::of_row(row@) is None,
            },
    {
        let name = match row.text("name") {
            Some(t) => t,
            None => { return Err(ErrorKind::MappingError); },
        };
        let icon = match row.text("icon") {
            Some(t) => t,
            None => { return Err(ErrorKind::MappingError); },
        };
        let content = match row.text("content") {
            Some(t) => t,
            None => { return Err(ErrorKind::MappingError); },
        };
        let media = match row.optional_text("media") {
            Some(t) => t,
            None => { return Err(ErrorKind::MappingError); },
        };
        let created_at = match row.optional_timestamp("created_at") {
            Some(t) => t,
            None => { return Err(ErrorKind::MappingError); },
        };
        Ok(Post { name, icon, content, media, created_at })
    }
}

} // verus!
