//! The statements that the service hands to the store.
//!
//! A statement is a fixed text with `?` placeholders and the values bound to
//! them. No value ever becomes part of the text.

use vstd::prelude::*;
use crate::model::{NewTweet, NewTweetView, NewUser, NewUserView};

verus! {

/// Inserts a user and hands the stored row back.
pub const INSERT_USER_SQL: &'static str =
    "INSERT INTO users (name, at_id, birthday) VALUES (?, ?, ?) RETURNING id, name, at_id, birthday";

/// Inserts a tweet.
pub const INSERT_TWEET_SQL: &'static str = "INSERT INTO tweets (user_id, content) VALUES (?, ?)";

/// Reads every user.
pub const SELECT_USERS_SQL: &'static str = "SELECT id, name, at_id FROM users";

/// A value bound to a placeholder.
#[derive(Clone, Debug, PartialEq, Eq)]
pub enum SqlValue {
    Integer(i64),
    Text(String),
    Null,
}

/// A bound value, with a text as a sequence of characters.
pub enum SqlValueView {
    Integer(i64),
    Text(Seq<char>),
    Null,
}

impl View for SqlValue {
    type V = SqlValueView;

    open spec fn view(&self) -> SqlValueView {
        match self {
            SqlValue::Integer(n) => SqlValueView::Integer(*n),
            SqlValue::Text(s) => SqlValueView::Text(s@),
            SqlValue::Null => SqlValueView::Null,
        }
    }
}

/// A text column that may be empty: the text when there is one, else `Null`.
pub open spec fn nullable_text(text: Option<Seq<char>>) -> SqlValueView {
    match text {
        Some(s) => SqlValueView::Text(s),
        None => SqlValueView::Null,
    }
}

/// A fixed text and the values bound to its placeholders, in order.
#[derive(Clone, Debug, PartialEq, Eq)]
pub struct Statement {
    pub sql: &'static str,
    pub params: Vec<SqlValue>,
}

/// A statement, with texts as sequences of characters.
pub struct StatementView {
    pub sql: Seq<char>,
    pub params: Seq<SqlValueView>,
}

impl View for Statement {
    type V = StatementView;

    open spec fn view(&self) -> StatementView {
        StatementView { sql: self.sql@, params: self.params@.map_values(|p: SqlValue| p@) }
    }
}

/// The store could not carry a statement out. Why is not told apart.
#[derive(Clone, Copy, Debug, PartialEq, Eq, Structural)]
pub struct StoreFailure;

/// The statement that stores `new_user`: name, handle and birthday are bound
/// in this order, an absent birthday as `Null`.
pub open spec fn insert_user_statement(new_user: NewUserView) -> StatementView {
    StatementView {
        sql: INSERT_USER_SQL@,
        params: seq![
            SqlValueView::Text(new_user.name),
            SqlValueView::Text(new_user.at_id),
            nullable_text(new_user.birthday),
        ],
    }
}

/// The statement that stores `new_tweet`: author and content are bound in
/// this order.
pub open spec fn insert_tweet_statement(new_tweet: NewTweetView) -> StatementView {
    StatementView {
        sql: INSERT_TWEET_SQL@,
        params: seq![
            SqlValueView::Integer(new_tweet.user_id),
            SqlValueView::Text(new_tweet.content),
        ],
    }
}

/// The statement that reads every user. It binds nothing.
pub open spec fn select_users_statement() -> StatementView {
    StatementView { sql: SELECT_USERS_SQL@, params: Seq::empty() }
}

/// The text of a statement does not depend on the values it binds: whatever
/// a request holds, its values are among the bound values and nowhere else.
pub proof fn statement_text_is_fixed(
    new_user: NewUserView,
    other_user: NewUserView,
    new_tweet: NewTweetView,
    other_tweet: NewTweetView,
)
    ensures
        insert_user_statement(new_user).sql == insert_user_statement(other_user).sql,
        insert_user_statement(new_user).params.len() == 3,
        insert_user_statement(new_user).params[0] == SqlValueView::Text(new_user.name),
        insert_user_statement(new_user).params[1] == SqlValueView::Text(new_user.at_id),
        insert_user_statement(new_user).params[2] == nullable_text(new_user.birthday),
        insert_tweet_statement(new_tweet).sql == insert_tweet_statement(other_tweet).sql,
        insert_tweet_statement(new_tweet).params.len() == 2,
        insert_tweet_statement(new_tweet).params[0] == SqlValueView::Integer(new_tweet.user_id),
        insert_tweet_statement(new_tweet).params[1] == SqlValueView::Text(new_tweet.content),
{
}

/// Builds the statement that stores `new_user`.
pub fn insert_user(new_user: NewUser) -> (statement: Statement)
    ensures
        statement@ == insert_user_statement(new_user@),
{
    let birthday = match new_user.birthday {
        Some(text) => SqlValue::Text(text),
        None => SqlValue::Null,
    };
    let mut params: Vec<SqlValue> = Vec::new();
    params.push(SqlValue::Text(new_user.name));
    params.push(SqlValue::Text(new_user.at_id));
    params.push(birthday);
    let statement = Statement { sql: INSERT_USER_SQL, params };
    assert(statement@.params =~= insert_user_statement(new_user@).params);
    statement
}

/// Builds the statement that stores `new_tweet`.
pub fn insert_tweet(new_tweet: NewTweet) -> (statement: Statement)
    ensures
        statement@ == insert_tweet_statement(new_tweet@),
{
    let mut params: Vec<SqlValue> = Vec::new();
    params.push(SqlValue::Integer(new_tweet.user_id));
    params.push(SqlValue::Text(new_tweet.content));
    let statement = Statement { sql: INSERT_TWEET_SQL, params };
    assert(statement@.params =~= insert_tweet_statement(new_tweet@).params);
    statement
}

/// Builds the statement that reads every user.
pub fn select_users() -> (statement: Statement)
    ensures
        statement@ == select_users_statement(),
{
    let statement = Statement { sql: SELECT_USERS_SQL, params: Vec::new() };
    assert(statement@.params =~= select_users_statement().params);
    statement
}

} // verus!
