//! The records that requests carry in and replies carry out.

use vstd::prelude::*;

verus! {

/// A request to register a user.
#[derive(Clone, Debug, PartialEq, Eq)]
pub struct NewUser {
    pub name: String,
    /// The handle: a short public identifier, distinct from the display name.
    pub at_id: String,
    pub birthday: Option<String>,
}

/// A registered user, as the store holds it.
#[derive(Clone, Debug, PartialEq, Eq)]
pub struct User {
    /// Assigned by the store.
    pub id: i64,
    pub name: String,
    pub at_id: String,
    pub birthday: Option<String>,
}

/// A request to post a tweet.
#[derive(Clone, Debug, PartialEq, Eq)]
pub struct NewTweet {
    pub user_id: i64,
    pub content: String,
}

/// An optional text as an optional sequence of characters.
pub open spec fn text_view(text: Option<String>) -> Option<Seq<char>> {
    match text {
        Some(s) => Some(s@),
        None => None,
    }
}

/// A request to register a user, with texts as sequences of characters.
pub struct NewUserView {
    pub name: Seq<char>,
    pub at_id: Seq<char>,
    pub birthday: Option<Seq<char>>,
}

/// A registered user, with texts as sequences of characters.
pub struct UserView {
    pub id: i64,
    pub name: Seq<char>,
    pub at_id: Seq<char>,
    pub birthday: Option<Seq<char>>,
}

/// A request to post a tweet, with its content as a sequence of characters.
pub struct NewTweetView {
    pub user_id: i64,
    pub content: Seq<char>,
}

impl View for NewUser {
    type V = NewUserView;

    open spec fn view(&self) -> NewUserView {
        NewUserView { name: self.name@, at_id: self.at_id@, birthday: text_view(self.birthday) }
    }
}

impl View for User {
    type V = UserView;

    open spec fn view(&self) -> UserView {
        UserView {
            id: self.id,
            name: self.name@,
            at_id: self.at_id@,
            birthday: text_view(self.birthday),
        }
    }
}

impl View for NewTweet {
    type V = NewTweetView;

    open spec fn view(&self) -> NewTweetView {
        NewTweetView { user_id: self.user_id, content: self.content@ }
    }
}

} // verus!
