//! What the service expects of the store, as a model of its two tables.
//!
//! The store itself is out of reach of any proof. The model says what a
//! store that keeps `users` and `tweets` with ids of its own making does with
//! the statements of the gateway. Everything proved about stored rows is
//! proved of this model.

use vstd::prelude::*;
use crate::gateway::{
    insert_tweet_statement,
    insert_user_statement,
    StatementView,
    StoreFailure,
};
use crate::model::{NewTweetView, NewUserView, UserView};

verus! {

/// A row of `tweets`.
pub struct TweetRow {
    /// Assigned by the store.
    pub id: i64,
    /// The author.
    pub user_id: i64,
    pub content: Seq<char>,
}

/// The rows of both tables, oldest first.
pub struct Tables {
    pub users: Seq<UserView>,
    pub tweets: Seq<TweetRow>,
}

/// What a row of `users` was made from.
pub open spec fn user_source(row: UserView) -> NewUserView {
    NewUserView { name: row.name, at_id: row.at_id, birthday: row.birthday }
}

/// What a row of `tweets` was made from.
pub open spec fn tweet_source(row: TweetRow) -> NewTweetView {
    NewTweetView { user_id: row.user_id, content: row.content }
}

impl Tables {
    /// Two tables without rows.
    pub open spec fn empty() -> Tables {
        Tables { users: Seq::empty(), tweets: Seq::empty() }
    }

    /// Whether the store may give `id` to the next user: ids start at 1 and
    /// each is above all that the table holds.
    pub open spec fn is_next_user_id(self, id: i64) -> bool {
        id >= 1 && forall|i: int| 0 <= i < self.users.len() ==> (#[trigger] self.users[i]).id < id
    }

    /// Whether the store may give `id` to the next tweet.
    pub open spec fn is_next_tweet_id(self, id: i64) -> bool {
        id >= 1 && forall|i: int|
            0 <= i < self.tweets.len() ==> (#[trigger] self.tweets[i]).id < id
    }

    /// Whether some user has the id `id`.
    pub open spec fn has_user(self, id: i64) -> bool {
        exists|i: int| 0 <= i < self.users.len() && (#[trigger] self.users[i]).id == id
    }

    /// The tables with one more user.
    pub open spec fn with_user(self, row: UserView) -> Tables {
        Tables { users: self.users.push(row), tweets: self.tweets }
    }

    /// The tables with one more tweet.
    pub open spec fn with_tweet(self, row: TweetRow) -> Tables {
        Tables { users: self.users, tweets: self.tweets.push(row) }
    }

    /// What the store may do with a statement that inserts a user. It may
    /// fail, and then nothing has changed. Or it adds one row that holds the
    /// bound values under a new id, and hands that row back.
    pub open spec fn user_inserted(
        self,
        statement: StatementView,
        outcome: Result<UserView, StoreFailure>,
        after: Tables,
    ) -> bool {
        match outcome {
            Err(_) => after == self,
            Ok(row) => {
                &&& statement == insert_user_statement(user_source(row))
                &&& self.is_next_user_id(row.id)
                &&& after == self.with_user(row)
            },
        }
    }

    /// What the store may do with a statement that inserts a tweet. It may
    /// fail, and then nothing has changed. Or it adds one row that holds the
    /// bound values under a new id.
    pub open spec fn tweet_inserted(
        self,
        statement: StatementView,
        outcome: Result<(), StoreFailure>,
        after: Tables,
    ) -> bool {
        match outcome {
            Err(_) => after == self,
            Ok(_) => exists|row: TweetRow|
                {
                    &&& statement == insert_tweet_statement(tweet_source(row))
                    &&& self.is_next_tweet_id(row.id)
                    &&& after == #[trigger] self.with_tweet(row)
                },
        }
    }
}

} // verus!
