use postboard::models::{Post, User};
use postboard::sql::{chars_of, qualified_fields, substitute};

#[test]
fn substitute_replaces_the_one_placeholder() {
    assert_eq!(
        substitute("SELECT $table_fields FROM users;", "$table_fields", "a, b"),
        "SELECT a, b FROM users;"
    );
}

#[test]
fn substitute_replaces_every_occurrence() {
    assert_eq!(substitute("x-y-x-y-x", "x", "long"), "long-y-long-y-long");
}

#[test]
fn substitute_leaves_a_text_without_the_placeholder() {
    assert_eq!(
        substitute("SELECT * FROM users", "$table_fields", "a, b"),
        "SELECT * FROM users"
    );
}

#[test]
fn substitute_takes_occurrences_from_the_left_without_overlap() {
    assert_eq!(substitute("aaa", "aa", "X"), "Xa");
    assert_eq!(substitute("aaaa", "aa", "X"), "XX");
    assert_eq!(substitute("ababa", "aba", "-"), "-ba");
}

#[test]
fn substitute_at_both_ends() {
    assert_eq!(substitute("$f and $f", "$f", "1"), "1 and 1");
    assert_eq!(substitute("$f", "$f", ""), "");
}

#[test]
fn substitute_does_not_rescan_what_it_put_in() {
    assert_eq!(substitute("a", "a", "aa"), "aa");
}

#[test]
fn substitute_with_an_empty_placeholder_changes_nothing() {
    assert_eq!(substitute("abc", "", "X"), "abc");
    assert_eq!(substitute("", "", "X"), "");
}

#[test]
fn substitute_on_an_empty_template() {
    assert_eq!(substitute("", "$table_fields", "X"), "");
}

#[test]
fn substitute_placeholder_longer_than_the_template() {
    assert_eq!(substitute("$tab", "$table_fields", "X"), "$tab");
}

#[test]
fn substitute_counts_characters_not_bytes() {
    assert_eq!(substitute("é$fü$f", "$f", "ß"), "éßüß");
    assert_eq!(substitute("日本語", "本", "-"), "日-語");
}

#[test]
fn chars_of_gives_each_character() {
    assert_eq!(chars_of("aé日"), vec!['a', 'é', '日']);
    assert_eq!(chars_of(""), Vec::<char>::new());
}

#[test]
fn qualified_fields_of_no_column_is_empty() {
    assert_eq!(qualified_fields("users", &Vec::new()), "");
}

#[test]
fn qualified_fields_of_one_column() {
    assert_eq!(qualified_fields("users", &vec!["email"]), " users.email ");
}

#[test]
fn qualified_fields_joins_with_comma_and_space() {
    assert_eq!(qualified_fields("t", &vec!["a", "b", "c"]), " t.a ,  t.b ,  t.c ");
}

#[test]
fn user_table_and_fields() {
    assert_eq!(User::sql_table(), "users");
    assert_eq!(
        User::sql_table_fields(),
        " users.email ,  users.first_name ,  users.last_name ,  users.username "
    );
}

#[test]
fn post_table_and_fields() {
    assert_eq!(Post::sql_table(), "posts");
    assert_eq!(
        Post::sql_table_fields(),
        " posts.name ,  posts.icon ,  posts.content ,  posts.media ,  posts.created_at "
    );
}
