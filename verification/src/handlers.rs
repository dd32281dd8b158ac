//! The handlers, as decisions.
//!
//! A handler never talks to the store. It says what to do next: answer at
//! once, or run a statement. Whoever runs the statement hands the outcome to
//! the handler's second half, which shapes the reply.

use vstd::prelude::*;
use crate::gateway::{
    insert_tweet,
    insert_tweet_statement,
    insert_user,
    insert_user_statement,
    Statement,
    StatementView,
    StoreFailure,
};
use crate::model::{NewTweet, NewTweetView, NewUser, NewUserView, User, UserView};
use crate::validation::{
    birthday_malformed_text,
    birthday_ok,
    check_new_user,
    handle_ok,
    handle_too_short_text,
    validate_new_user,
};

verus! {

/// The status of a plain success.
pub const STATUS_OK: u16 = 200;

/// The status of a reply that carries a new record.
pub const STATUS_CREATED: u16 = 201;

/// The status of a refusal.
pub const STATUS_BAD_REQUEST: u16 = 400;

/// What a reply carries: a message, or the stored user.
#[derive(Clone, Debug, PartialEq, Eq)]
pub enum Body {
    Message(String),
    Record(User),
}

/// A body, with texts as sequences of characters.
pub enum BodyView {
    Message(Seq<char>),
    Record(UserView),
}

impl View for Body {
    type V = BodyView;

    open spec fn view(&self) -> BodyView {
        match self {
            Body::Message(text) => BodyView::Message(text@),
            Body::Record(user) => BodyView::Record(user@),
        }
    }
}

/// A status code and a body.
#[derive(Clone, Debug, PartialEq, Eq)]
pub struct Reply {
    pub status: u16,
    pub body: Body,
}

/// A reply, with texts as sequences of characters.
pub struct ReplyView {
    pub status: u16,
    pub body: BodyView,
}

impl View for Reply {
    type V = ReplyView;

    open spec fn view(&self) -> ReplyView {
        ReplyView { status: self.status, body: self.body@ }
    }
}

/// What a handler wants done next.
#[derive(Clone, Debug, PartialEq, Eq)]
pub enum Step {
    /// Answer at once. The store is not touched.
    Reply(Reply),
    /// Run this one statement, then hand the outcome to the handler's
    /// second half.
    Run(Statement),
}

/// A step, with texts as sequences of characters.
pub enum StepView {
    Reply(ReplyView),
    Run(StatementView),
}

impl View for Step {
    type V = StepView;

    open spec fn view(&self) -> StepView {
        match self {
            Step::Reply(reply) => StepView::Reply(reply@),
            Step::Run(statement) => StepView::Run(statement@),
        }
    }
}

/// The greeting at the root path.
pub open spec fn greeting_text() -> Seq<char> {
    "Hello"@
}

/// The text sent back when the store refused a new user.
pub open spec fn user_not_created_text() -> Seq<char> {
    "failed to create user"@
}

/// The text sent back when a tweet was stored.
pub open spec fn tweet_created_text() -> Seq<char> {
    "Tweet created successfully"@
}

/// The text sent back when the store refused a tweet.
pub open spec fn tweet_not_created_text() -> Seq<char> {
    "Failed to tweet"@
}

/// A refusal: status 400 and a message.
pub open spec fn refusal(text: Seq<char>) -> ReplyView {
    ReplyView { status: STATUS_BAD_REQUEST, body: BodyView::Message(text) }
}

/// Status 201 and the stored user.
pub open spec fn created(user: UserView) -> ReplyView {
    ReplyView { status: STATUS_CREATED, body: BodyView::Record(user) }
}

/// Status 200 and a message.
pub open spec fn notice(text: Seq<char>) -> ReplyView {
    ReplyView { status: STATUS_OK, body: BodyView::Message(text) }
}

/// The first half of creating a user: a new user who fails a rule is refused
/// with that rule's message, any other is handed to the store as given.
pub open spec fn create_user_step(new_user: NewUserView) -> StepView {
    match check_new_user(new_user) {
        Err(error) => StepView::Reply(refusal(error.text())),
        Ok(_) => StepView::Run(insert_user_statement(new_user)),
    }
}

/// The second half of creating a user: the stored row comes back with
/// status 201, any failure of the store as one and the same refusal.
pub open spec fn user_reply(outcome: Result<UserView, StoreFailure>) -> ReplyView {
    match outcome {
        Ok(user) => created(user),
        Err(_) => refusal(user_not_created_text()),
    }
}

/// The first half of posting a tweet: nothing is checked, the tweet is
/// handed to the store as given.
pub open spec fn create_tweet_step(new_tweet: NewTweetView) -> StepView {
    StepView::Run(insert_tweet_statement(new_tweet))
}

/// The second half of posting a tweet. The status is 200 either way: only
/// the message tells a failure from a success.
pub open spec fn tweet_reply(outcome: Result<(), StoreFailure>) -> ReplyView {
    match outcome {
        Ok(_) => notice(tweet_created_text()),
        Err(_) => notice(tweet_not_created_text()),
    }
}

/// What the store handed back for a new user, by its view.
pub open spec fn stored_user(outcome: Result<User, StoreFailure>) -> Result<
    UserView,
    StoreFailure,
> {
    match outcome {
        Ok(user) => Ok(user@),
        Err(failure) => Err(failure),
    }
}

fn refuse(message: &str) -> (reply: Reply)
    ensures
        reply@ == refusal(message@),
{
    Reply { status: STATUS_BAD_REQUEST, body: Body::Message(message.to_owned()) }
}

fn announce(message: &str) -> (reply: Reply)
    ensures
        reply@ == notice(message@),
{
    Reply { status: STATUS_OK, body: Body::Message(message.to_owned()) }
}

/// Answers the root path.
pub fn hello_tweet() -> (greeting: String)
    ensures
        greeting@ == greeting_text(),
{
    "Hello".to_owned()
}

/// Decides what to do with a request to create a user.
///
/// The handle is judged first, then the birthday. A new user who fails a
/// rule is refused at once, and no statement is issued. Any other is handed
/// to the store in one statement that binds name, handle and birthday.
pub fn create_new_user(new_user: NewUser) -> (step: Step)
    ensures
        step@ == create_user_step(new_user@),
        !handle_ok(new_user@.at_id) ==> step@ == StepView::Reply(refusal(handle_too_short_text())),
        handle_ok(new_user@.at_id) && !birthday_ok(new_user@.birthday) ==> step@
            == StepView::Reply(refusal(birthday_malformed_text())),
        handle_ok(new_user@.at_id) && birthday_ok(new_user@.birthday) ==> step@ == StepView::Run(
            insert_user_statement(new_user@),
        ),
{
    match validate_new_user(&new_user) {
        Err(error) => Step::Reply(refuse(error.message())),
        Ok(()) => Step::Run(insert_user(new_user)),
    }
}

/// Shapes the reply once the store has answered a request to create a user.
pub fn user_created(outcome: Result<User, StoreFailure>) -> (reply: Reply)
    ensures
        reply@ == user_reply(stored_user(outcome)),
{
    match outcome {
        Ok(user) => Reply { status: STATUS_CREATED, body: Body::Record(user) },
        Err(_) => refuse("failed to create user"),
    }
}

/// Decides what to do with a request to post a tweet: it is handed to the
/// store in one statement that binds author and content. Neither is checked.
pub fn create_new_tweet(new_tweet: NewTweet) -> (step: Step)
    ensures
        step@ == create_tweet_step(new_tweet@),
{
    Step::Run(insert_tweet(new_tweet))
}

/// Shapes the reply once the store has answered a request to post a tweet.
pub fn tweet_created(outcome: Result<(), StoreFailure>) -> (reply: Reply)
    ensures
        reply@ == tweet_reply(outcome),
{
    match outcome {
        Ok(()) => announce("Tweet created successfully"),
        Err(_) => announce("Failed to tweet"),
    }
}

} // verus!
