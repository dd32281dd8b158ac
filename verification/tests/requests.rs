//! Requests followed through both halves of their handlers, against a small
//! store kept in memory.

use tweet_service::gateway::{SqlValue, Statement, StoreFailure, INSERT_TWEET_SQL, INSERT_USER_SQL};
use tweet_service::handlers::{
    create_new_tweet, create_new_user, hello_tweet, tweet_created, user_created, Body, Reply, Step,
};
use tweet_service::model::{NewTweet, NewUser, User};

struct StoredTweet {
    id: i64,
    user_id: i64,
    content: String,
}

/// Two tables with ids that count up from 1. A tweet needs its author.
struct MemoryStore {
    users: Vec<User>,
    tweets: Vec<StoredTweet>,
    down: bool,
}

impl MemoryStore {
    fn new() -> MemoryStore {
        MemoryStore { users: Vec::new(), tweets: Vec::new(), down: false }
    }

    fn insert_user(&mut self, statement: &Statement) -> Result<User, StoreFailure> {
        assert_eq!(statement.sql, INSERT_USER_SQL);
        if self.down {
            return Err(StoreFailure);
        }
        let user = match statement.params.as_slice() {
            [SqlValue::Text(name), SqlValue::Text(at_id), birthday] => User {
                id: self.users.iter().map(|u| u.id).max().unwrap_or(0) + 1,
                name: name.clone(),
                at_id: at_id.clone(),
                birthday: match birthday {
                    SqlValue::Text(text) => Some(text.clone()),
                    SqlValue::Null => None,
                    SqlValue::Integer(_) => return Err(StoreFailure),
                },
            },
            _ => return Err(StoreFailure),
        };
        self.users.push(user.clone());
        Ok(user)
    }

    fn insert_tweet(&mut self, statement: &Statement) -> Result<(), StoreFailure> {
        assert_eq!(statement.sql, INSERT_TWEET_SQL);
        if self.down {
            return Err(StoreFailure);
        }
        match statement.params.as_slice() {
            [SqlValue::Integer(user_id), SqlValue::Text(content)] => {
                if !self.users.iter().any(|u| u.id == *user_id) {
                    return Err(StoreFailure);
                }
                let id = self.tweets.iter().map(|t| t.id).max().unwrap_or(0) + 1;
                self.tweets.push(StoredTweet { id, user_id: *user_id, content: content.clone() });
                Ok(())
            }
            _ => Err(StoreFailure),
        }
    }
}

fn post_user(store: &mut MemoryStore, new_user: NewUser) -> Reply {
    match create_new_user(new_user) {
        Step::Reply(reply) => reply,
        Step::Run(statement) => user_created(store.insert_user(&statement)),
    }
}

fn post_tweet(store: &mut MemoryStore, new_tweet: NewTweet) -> Reply {
    match create_new_tweet(new_tweet) {
        Step::Reply(reply) => reply,
        Step::Run(statement) => tweet_created(store.insert_tweet(&statement)),
    }
}

fn new_user(name: &str, at_id: &str, birthday: Option<&str>) -> NewUser {
    NewUser {
        name: name.to_string(),
        at_id: at_id.to_string(),
        birthday: birthday.map(|b| b.to_string()),
    }
}

fn message(text: &str) -> Body {
    Body::Message(text.to_string())
}

#[test]
fn test_create_new_user_birthday_some() {
    let mut store = MemoryStore::new();
    let new_user = NewUser {
        name: "TestUser".to_string(),
        at_id: "test_user".to_string(),
        birthday: Some("2023-01-01".to_string()),
    };
    let response = post_user(&mut store, new_user);
    assert_eq!(response.status, 201);
}

#[test]
fn test_create_new_user_birthday_none() {
    let mut store = MemoryStore::new();
    let new_user = NewUser {
        name: "TestUser".to_string(),
        at_id: "test_user".to_string(),
        birthday: None,
    };
    let response = post_user(&mut store, new_user);
    assert_eq!(response.status, 201);
}

#[test]
fn test_create_new_user_birthday_invalid() {
    let mut store = MemoryStore::new();
    let new_user = NewUser {
        name: "TestUser".to_string(),
        at_id: "test_user".to_string(),
        birthday: Some("2023-13-01".to_string()),
    };
    let response = post_user(&mut store, new_user);
    assert_eq!(response.status, 400);
}

#[test]
fn test_create_new_tweet() {
    let mut store = MemoryStore::new();
    store.users.push(User {
        id: 1,
        name: "TestUser".to_string(),
        at_id: "TestUser".to_string(),
        birthday: None,
    });
    let new_tweet = NewTweet { user_id: 1, content: "hello".to_string() };
    let response = post_tweet(&mut store, new_tweet);
    assert_eq!(response.body, message("Tweet created successfully"));
}

#[test]
fn hello_is_the_greeting() {
    assert_eq!(hello_tweet(), "Hello");
}

#[test]
fn short_handle_is_refused_and_nothing_is_stored() {
    for at_id in ["", "a", "ab", "é", "日本"] {
        let mut store = MemoryStore::new();
        let reply = post_user(&mut store, new_user("TestUser", at_id, None));
        assert_eq!(reply.status, 400);
        assert_eq!(reply.body, message("at_id should be at least 3 characters long"));
        assert!(store.users.is_empty());
    }
}

#[test]
fn short_handle_is_refused_without_a_statement() {
    let step = create_new_user(new_user("TestUser", "ab", Some("2023-01-01")));
    assert_eq!(
        step,
        Step::Reply(Reply {
            status: 400,
            body: message("at_id should be at least 3 characters long"),
        })
    );
}

#[test]
fn handle_length_counts_characters() {
    let mut store = MemoryStore::new();
    assert_eq!(post_user(&mut store, new_user("n", "abc", None)).status, 201);
    assert_eq!(post_user(&mut store, new_user("n", "日本語", None)).status, 201);
    assert_eq!(post_user(&mut store, new_user("n", "éé", None)).status, 400);
}

#[test]
fn handle_is_judged_before_birthday() {
    let mut store = MemoryStore::new();
    let reply = post_user(&mut store, new_user("TestUser", "ab", Some("2023-13-01")));
    assert_eq!(reply.body, message("at_id should be at least 3 characters long"));
    assert!(store.users.is_empty());
}

#[test]
fn malformed_birthday_is_refused_and_nothing_is_stored() {
    for birthday in [
        "2023-13-01",
        "2023-02-30",
        "2023-00-10",
        "2023-01-00",
        "2023-1-1",
        " 2023-01-01",
        "2023-01-01 ",
        "+2023-01-01",
        "23-01-01",
        "2023/01/01",
        "20230101",
        "",
        "birthday",
        "２０２３-01-01",
    ] {
        let mut store = MemoryStore::new();
        let reply = post_user(&mut store, new_user("TestUser", "test_user", Some(birthday)));
        assert_eq!(reply.status, 400, "{birthday:?}");
        assert_eq!(reply.body, message("birthday should be in format YYYY-MM-DD"));
        assert!(store.users.is_empty());
    }
}

#[test]
fn user_without_birthday_comes_back_without_birthday() {
    let mut store = MemoryStore::new();
    let reply = post_user(&mut store, new_user("TestUser", "test_user", None));
    assert_eq!(
        reply,
        Reply {
            status: 201,
            body: Body::Record(User {
                id: 1,
                name: "TestUser".to_string(),
                at_id: "test_user".to_string(),
                birthday: None,
            }),
        }
    );
    assert_eq!(store.users.len(), 1);
}

#[test]
fn user_with_birthday_comes_back_with_it() {
    let mut store = MemoryStore::new();
    let reply = post_user(&mut store, new_user("TestUser", "test_user", Some("2023-01-01")));
    assert_eq!(
        reply,
        Reply {
            status: 201,
            body: Body::Record(User {
                id: 1,
                name: "TestUser".to_string(),
                at_id: "test_user".to_string(),
                birthday: Some("2023-01-01".to_string()),
            }),
        }
    );
}

#[test]
fn store_failure_on_user_is_one_refusal() {
    let mut store = MemoryStore::new();
    store.down = true;
    let reply = post_user(&mut store, new_user("TestUser", "test_user", None));
    assert_eq!(reply, Reply { status: 400, body: message("failed to create user") });
    assert!(store.users.is_empty());
    assert_eq!(
        user_created(Err(StoreFailure)),
        Reply { status: 400, body: message("failed to create user") }
    );
}

#[test]
fn tweet_is_stored_once() {
    let mut store = MemoryStore::new();
    assert_eq!(post_user(&mut store, new_user("TestUser", "test_user", None)).status, 201);
    let reply = post_tweet(&mut store, NewTweet { user_id: 1, content: "hello".to_string() });
    assert_eq!(reply, Reply { status: 200, body: message("Tweet created successfully") });
    assert_eq!(store.tweets.len(), 1);
    assert_eq!(store.tweets[0].id, 1);
    assert_eq!(store.tweets[0].user_id, 1);
    assert_eq!(store.tweets[0].content, "hello");
}

#[test]
fn tweet_is_not_checked_before_the_store() {
    let step = create_new_tweet(NewTweet { user_id: -7, content: String::new() });
    assert_eq!(
        step,
        Step::Run(Statement {
            sql: "INSERT INTO tweets (user_id, content) VALUES (?, ?)",
            params: vec![SqlValue::Integer(-7), SqlValue::Text(String::new())],
        })
    );
}

#[test]
fn failed_tweet_keeps_the_status_of_a_success() {
    let mut store = MemoryStore::new();
    let reply = post_tweet(&mut store, NewTweet { user_id: 1, content: "hello".to_string() });
    assert_eq!(reply.body, message("Failed to tweet"));
    assert!(store.tweets.is_empty());
    let success = tweet_created(Ok(()));
    let failure = tweet_created(Err(StoreFailure));
    assert_eq!(success, Reply { status: 200, body: message("Tweet created successfully") });
    assert_eq!(failure, Reply { status: 200, body: message("Failed to tweet") });
    println!(
        "note: a tweet that the store refused is answered with status {}, as a stored one is; \
         only the message tells them apart",
        failure.status
    );
}

#[test]
fn end_to_end_user_then_tweet() {
    let mut store = MemoryStore::new();
    let reply = post_user(&mut store, new_user("TestUser", "test_user", None));
    assert_eq!(reply.status, 201);
    let id = match reply.body {
        Body::Record(user) => user.id,
        Body::Message(text) => panic!("no record: {text}"),
    };
    assert!(id >= 1);
    let reply = post_tweet(&mut store, NewTweet { user_id: id, content: "hello".to_string() });
    assert_eq!(reply.body, message("Tweet created successfully"));
    assert_eq!(store.tweets.len(), 1);
    assert_eq!(store.tweets[0].user_id, id);
    assert_eq!(store.tweets[0].content, "hello");
}

#[test]
fn same_user_twice_gives_two_rows() {
    let mut store = MemoryStore::new();
    let first = post_user(&mut store, new_user("TestUser", "test_user", Some("2023-01-01")));
    let second = post_user(&mut store, new_user("TestUser", "test_user", Some("2023-01-01")));
    assert_eq!(first.status, 201);
    assert_eq!(second.status, 201);
    assert_eq!(store.users.len(), 2);
    assert_ne!(store.users[0].id, store.users[1].id);
    assert_eq!(store.users[0].at_id, store.users[1].at_id);
    assert_ne!(first, second);
}

#[test]
fn same_request_gives_the_same_statement() {
    let first = create_new_user(new_user("TestUser", "test_user", None));
    let second = create_new_user(new_user("TestUser", "test_user", None));
    assert_eq!(first, second);
    assert!(matches!(first, Step::Run(_)));
}
