//! The two record kinds the store serves.
//!
//! Both are opaque text records passed through unchanged between the store
//! and the terminal. A record fetched from the store carries its durable
//! identifier; a record built locally for creation carries none, since the
//! store assigns one.

use vstd::prelude::*;

verus! {

/// A blog post.
#[derive(Debug, Clone)]
pub struct Blog {
    /// The store-assigned identifier; absent on a record built for creation.
    pub id: Option<String>,
    pub title: String,
    pub author: String,
    pub content: String,
    pub date: String,
}

/// A comment attached to a blog post.
#[derive(Debug, Clone)]
pub struct Comment {
    /// The store-assigned identifier; absent on a record built for creation.
    pub id: Option<String>,
    pub post_id: String,
    pub user_id: String,
    pub user_picture: String,
    pub user_name: String,
    pub content: String,
    pub date: String,
}

/// A record that may carry a store-assigned identifier. Lets the selection
/// logic serve posts and comments alike.
pub trait Record {
    /// The identifier the record carries, if any.
    spec fn id_spec(&self) -> Option<Seq<char>>;

    /// Read the identifier the record carries, if any.
    fn id(&self) -> (r: Option<&String>)
        ensures
            match r {
                Some(s) => self.id_spec() == Some(s@),
                None => self.id_spec() is None,
            },
    ;
}

impl Record for Blog {
    open spec fn id_spec(&self) -> Option<Seq<char>> {
        match self.id {
            Some(s) => Some(s@),
            None => None,
        }
    }

    fn id(&self) -> (r: Option<&String>) {
        match &self.id {
            Some(s) => Some(s),
            None => None,
        }
    }
}

impl Record for Comment {
    open spec fn id_spec(&self) -> Option<Seq<char>> {
        match self.id {
            Some(s) => Some(s@),
            None => None,
        }
    }

    fn id(&self) -> (r: Option<&String>) {
        match &self.id {
            Some(s) => Some(s),
            None => None,
        }
    }
}

impl Blog {
    /// Build a post for creation: the given fields, and no identifier yet.
    pub fn new(title: String, author: String, content: String, date: String) -> (r: Blog)
        ensures
            r.id is None,
            r.title == title,
            r.author == author,
            r.content == content,
            r.date == date,
    {
        Blog { id: None, title, author, content, date }
    }
}

impl Comment {
    /// Build a comment for creation: the given fields, and no identifier yet.
    pub fn new(
        post_id: String,
        user_id: String,
        user_picture: String,
        user_name: String,
        content: String,
        date: String,
    ) -> (r: Comment)
        ensures
            r.id is None,
            r.post_id == post_id,
            r.user_id == user_id,
            r.user_picture == user_picture,
            r.user_name == user_name,
            r.content == content,
            r.date == date,
    {
        Comment { id: None, post_id, user_id, user_picture, user_name, content, date }
    }
}

} // verus!
