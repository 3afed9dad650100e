//! The users of the service.
use vstd::prelude::*;

use crate::response::removed;

verus! {

/// A user; `user_id` is absent until the user has been stored.
#[derive(Debug, Clone, PartialEq, Eq)]
pub struct User {
    pub user_id: Option<i32>,
    pub name: String,
    pub username: String,
    pub email: String,
    pub password: String,
}

impl User {
    /// The result of removing the user `id`, from the number of rows that
    /// went: the id where it was exactly one, and nothing otherwise, which
    /// says that no such user was found.
    pub fn delete(affected: usize, id: i32) -> (gone: Option<i32>)
        ensures
            gone == (if affected == 1 {
                Some(id)
            } else {
                None
            }),
    {
        if removed(affected) {
            Some(id)
        } else {
            None
        }
    }
}

} // verus!
