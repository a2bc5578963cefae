use vstd::prelude::*;

use crate::models::{Board, BoardView, Column, ColumnView, MyError, Storage};

verus! {

/// The degraded backend: constructed with a fixed error message, every
/// operation fails with that message. Selected when configuration names no
/// usable provider, so the server still starts and reports the error
/// per-request instead of crashing at boot.
pub struct InvalidStorage {
    pub error: String,
}

impl Storage for InvalidStorage {
    open spec fn fail_msg(&self) -> Option<Seq<char>> {
        Some(self.error@)
    }

    open spec fn total(&self) -> bool {
        false
    }

    open spec fn boards(&self) -> Seq<BoardView> {
        Seq::empty()
    }

    open spec fn columns(&self) -> Seq<ColumnView> {
        Seq::empty()
    }

    fn name(&self) -> (r: &'static str) {
        "INVALID"
    }

    fn add_board(&mut self, _item: &Board) -> (r: Result<bool, MyError>)
        ensures
            r matches Err(e) && e@ == old(self).error@,
            *final(self) == *old(self),
    {
        Err(self.error.clone())
    }

    fn list_boards(&self) -> (r: Result<Vec<Board>, MyError>)
        ensures
            r matches Err(e) && e@ == self.error@,
    {
        Err(self.error.clone())
    }

    fn get_board(&self, _id: &String) -> (r: Result<Board, MyError>)
        ensures
            r matches Err(e) && e@ == self.error@,
    {
        Err(self.error.clone())
    }

    fn delete_board(&mut self, _id: &String) -> (r: Result<bool, MyError>)
        ensures
            r matches Err(e) && e@ == old(self).error@,
            *final(self) == *old(self),
    {
        Err(self.error.clone())
    }

    fn add_column(&mut self, _item: &Column) -> (r: Result<bool, MyError>)
        ensures
            r matches Err(e) && e@ == old(self).error@,
            *final(self) == *old(self),
    {
        Err(self.error.clone())
    }

    fn list_columns(&self) -> (r: Result<Vec<Column>, MyError>)
        ensures
            r matches Err(e) && e@ == self.error@,
    {
        Err(self.error.clone())
    }

    fn get_column(&self, _id: &String) -> (r: Result<Column, MyError>)
        ensures
            r matches Err(e) && e@ == self.error@,
    {
        Err(self.error.clone())
    }

    fn delete_column(&mut self, _id: &String) -> (r: Result<bool, MyError>)
        ensures
            r matches Err(e) && e@ == old(self).error@,
            *final(self) == *old(self),
    {
        Err(self.error.clone())
    }
}

} // verus!
