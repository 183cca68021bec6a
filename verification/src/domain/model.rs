use vstd::prelude::*;

verus! {

/// A registered account, as the account store hands it out.
///
/// The identifier and the creation time (seconds since the epoch) are assigned
/// by the store; the e-mail address is unique there, compared as it is
/// written.  `password_hash` is a self-describing hash string.
#[derive(Debug)]
pub struct User {
    pub id: i64,
    pub email: String,
    pub password_hash: String,
    pub created_at: i64,
}

impl Clone for User {
    fn clone(&self) -> (copy: Self)
        ensures
            copy == *self,
    {
        User {
            id: self.id,
            email: self.email.clone(),
            password_hash: self.password_hash.clone(),
            created_at: self.created_at,
        }
    }
}

/// A note and the account that wrote it.
#[derive(Debug)]
pub struct Note {
    pub id: i64,
    pub author_id: i64,
    pub title: String,
    pub content: String,
    pub created_at: i64,
    pub updated_at: i64,
}

impl Clone for Note {
    fn clone(&self) -> (copy: Self)
        ensures
            copy == *self,
    {
        Note {
            id: self.id,
            author_id: self.author_id,
            title: self.title.clone(),
            content: self.content.clone(),
            created_at: self.created_at,
            updated_at: self.updated_at,
        }
    }
}

} // verus!
