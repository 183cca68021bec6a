use vstd::prelude::*;
use crate::domain::model::Note;

verus! {

impl Note {
    /// Whether `user_id` is the account that wrote this note.
    pub fn is_owner(&self, user_id: i64) -> (owner: bool)
        ensures
            owner == (self.author_id == user_id),
    {
        self.author_id == user_id
    }
}

} // verus!
