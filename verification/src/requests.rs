//! Whole requests, from the first decision to the reply, and what holds of
//! them.
//!
//! A request is followed through both halves of its handler, with the store
//! in between standing as the table model describes it.

use vstd::prelude::*;
use crate::date::is_iso_date;
use crate::gateway::StoreFailure;
use crate::handlers::{
    create_tweet_step,
    create_user_step,
    created,
    notice,
    refusal,
    tweet_created_text,
    tweet_not_created_text,
    tweet_reply,
    user_not_created_text,
    user_reply,
    ReplyView,
    StepView,
    STATUS_BAD_REQUEST,
    STATUS_CREATED,
    STATUS_OK,
};
use crate::model::{NewTweetView, NewUserView, UserView};
use crate::tables::{tweet_source, user_source, Tables};
use crate::validation::{
    birthday_malformed_text,
    birthday_ok,
    handle_ok,
    handle_too_short_text,
};

verus! {

/// A request to create a user, handled from start to finish: the tables were
/// `before`, the store answered `outcome` if it was asked at all, the tables
/// are `after` and the caller got `reply`.
pub open spec fn user_request(
    before: Tables,
    new_user: NewUserView,
    outcome: Result<UserView, StoreFailure>,
    after: Tables,
    reply: ReplyView,
) -> bool {
    match create_user_step(new_user) {
        StepView::Reply(answer) => after == before && reply == answer,
        StepView::Run(statement) => before.user_inserted(statement, outcome, after) && reply
            == user_reply(outcome),
    }
}

/// A request to post a tweet, handled from start to finish.
pub open spec fn tweet_request(
    before: Tables,
    new_tweet: NewTweetView,
    outcome: Result<(), StoreFailure>,
    after: Tables,
    reply: ReplyView,
) -> bool {
    match create_tweet_step(new_tweet) {
        StepView::Reply(answer) => after == before && reply == answer,
        StepView::Run(statement) => before.tweet_inserted(statement, outcome, after) && reply
            == tweet_reply(outcome),
    }
}

/// A handle of fewer than three characters is refused with the message on
/// the handle, whatever else the request holds, and no row is written.
pub proof fn short_handle_is_refused(
    before: Tables,
    new_user: NewUserView,
    outcome: Result<UserView, StoreFailure>,
    after: Tables,
    reply: ReplyView,
)
    requires
        new_user.at_id.len() < 3,
        user_request(before, new_user, outcome, after, reply),
    ensures
        reply == refusal(handle_too_short_text()),
        reply.status == STATUS_BAD_REQUEST,
        after == before,
{
}

/// A birthday that is not a date in the exact form `YYYY-MM-DD` is refused
/// and no row is written. With a handle that passes, the message is the one
/// on the birthday.
pub proof fn malformed_birthday_is_refused(
    before: Tables,
    new_user: NewUserView,
    outcome: Result<UserView, StoreFailure>,
    after: Tables,
    reply: ReplyView,
)
    requires
        new_user.birthday is Some,
        !is_iso_date(new_user.birthday->0),
        user_request(before, new_user, outcome, after, reply),
    ensures
        reply.status == STATUS_BAD_REQUEST,
        after == before,
        handle_ok(new_user.at_id) ==> reply == refusal(birthday_malformed_text()),
        !handle_ok(new_user.at_id) ==> reply == refusal(handle_too_short_text()),
{
}

/// A store failure on a request that passed the rules is reported as one
/// refusal, and no row is written.
pub proof fn store_failure_is_refused(
    before: Tables,
    new_user: NewUserView,
    outcome: Result<UserView, StoreFailure>,
    after: Tables,
    reply: ReplyView,
)
    requires
        handle_ok(new_user.at_id),
        birthday_ok(new_user.birthday),
        outcome is Err,
        user_request(before, new_user, outcome, after, reply),
    ensures
        reply == refusal(user_not_created_text()),
        after == before,
{
}

/// A new user with a handle that passes and no birthday, once the store has
/// taken the row: the reply has status 201 and carries the stored row, the
/// row has no birthday, and it is the one row written.
pub proof fn user_without_birthday_is_created(
    before: Tables,
    new_user: NewUserView,
    outcome: Result<UserView, StoreFailure>,
    after: Tables,
    reply: ReplyView,
)
    requires
        handle_ok(new_user.at_id),
        new_user.birthday is None,
        outcome is Ok,
        user_request(before, new_user, outcome, after, reply),
    ensures
        reply == created(outcome->Ok_0),
        reply.status == STATUS_CREATED,
        (outcome->Ok_0).birthday is None,
        user_source(outcome->Ok_0) == new_user,
        after.users == before.users.push(outcome->Ok_0),
        after.tweets == before.tweets,
{
    user_is_created(before, new_user, outcome, after, reply);
}

/// A new user with a handle that passes and a birthday that is a date, once
/// the store has taken the row: the reply has status 201 and carries the
/// stored row, the row holds that birthday, and it is the one row written.
pub proof fn user_with_birthday_is_created(
    before: Tables,
    new_user: NewUserView,
    birthday: Seq<char>,
    outcome: Result<UserView, StoreFailure>,
    after: Tables,
    reply: ReplyView,
)
    requires
        handle_ok(new_user.at_id),
        new_user.birthday == Some(birthday),
        is_iso_date(birthday),
        outcome is Ok,
        user_request(before, new_user, outcome, after, reply),
    ensures
        reply == created(outcome->Ok_0),
        reply.status == STATUS_CREATED,
        (outcome->Ok_0).birthday == Some(birthday),
        user_source(outcome->Ok_0) == new_user,
        after.users == before.users.push(outcome->Ok_0),
        after.tweets == before.tweets,
{
    user_is_created(before, new_user, outcome, after, reply);
}

/// A new user who passes the rules, once the store has taken the row: the
/// stored row holds what the request held, under an id of at least 1 that no
/// earlier user has.
pub proof fn user_is_created(
    before: Tables,
    new_user: NewUserView,
    outcome: Result<UserView, StoreFailure>,
    after: Tables,
    reply: ReplyView,
)
    requires
        handle_ok(new_user.at_id),
        birthday_ok(new_user.birthday),
        outcome is Ok,
        user_request(before, new_user, outcome, after, reply),
    ensures
        reply == created(outcome->Ok_0),
        user_source(outcome->Ok_0) == new_user,
        (outcome->Ok_0).id >= 1,
        !before.has_user((outcome->Ok_0).id),
        after == before.with_user(outcome->Ok_0),
{
}

/// A tweet is handed to the store whatever it holds. Once the store has
/// taken it, exactly one row of `tweets` is new, it holds the author and the
/// content of the request, no user has changed, and the reply is the
/// message of success.
pub proof fn tweet_is_stored_once(
    before: Tables,
    new_tweet: NewTweetView,
    outcome: Result<(), StoreFailure>,
    after: Tables,
    reply: ReplyView,
)
    requires
        outcome is Ok,
        tweet_request(before, new_tweet, outcome, after, reply),
    ensures
        reply == notice(tweet_created_text()),
        after.users == before.users,
        after.tweets.len() == before.tweets.len() + 1,
        after.tweets.drop_last() == before.tweets,
        tweet_source(after.tweets.last()) == new_tweet,
        before.is_next_tweet_id(after.tweets.last().id),
{
}

/// A tweet that the store refused leaves both tables as they were. The
/// reply has the status of a success and differs from one by its message
/// alone.
pub proof fn tweet_failure_keeps_status(
    before: Tables,
    new_tweet: NewTweetView,
    outcome: Result<(), StoreFailure>,
    after: Tables,
    reply: ReplyView,
)
    requires
        outcome is Err,
        tweet_request(before, new_tweet, outcome, after, reply),
    ensures
        reply == notice(tweet_not_created_text()),
        reply.status == STATUS_OK,
        after == before,
{
}

/// Creating a user is not idempotent. The same request, one that passes the
/// rules, handled twice with the store taking the row both times, leaves two
/// rows that hold the same values under two different ids: the handle of an
/// earlier user is no obstacle.
pub proof fn same_user_twice_gives_two_rows(
    before: Tables,
    new_user: NewUserView,
    first: Result<UserView, StoreFailure>,
    between: Tables,
    first_reply: ReplyView,
    second: Result<UserView, StoreFailure>,
    after: Tables,
    second_reply: ReplyView,
)
    requires
        handle_ok(new_user.at_id),
        birthday_ok(new_user.birthday),
        first is Ok,
        second is Ok,
        user_request(before, new_user, first, between, first_reply),
        user_request(between, new_user, second, after, second_reply),
    ensures
        first_reply == created(first->Ok_0),
        second_reply == created(second->Ok_0),
        (first->Ok_0).id != (second->Ok_0).id,
        user_source(first->Ok_0) == new_user,
        user_source(second->Ok_0) == new_user,
        after.users == before.users.push(first->Ok_0).push(second->Ok_0),
{
    user_is_created(before, new_user, first, between, first_reply);
    user_is_created(between, new_user, second, after, second_reply);
    let last = between.users.len() - 1;
    assert(between.users[last] == first->Ok_0);
}

} // verus!
