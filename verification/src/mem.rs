use vstd::prelude::*;

use crate::models::{
    boards_with_id, columns_with_id, Board, BoardView, Column, ColumnView, MyError, Storage,
};

verus! {

/// The error text for a keyed lookup that matched zero rows or several.
pub open spec fn row_count_error() -> Seq<char> {
    "query returned an unexpected number of rows"@
}

/// Appending one element to a sequence extends its filtered image by that
/// element exactly when the element satisfies the predicate.
proof fn lemma_filter_push<A>(s: Seq<A>, pred: spec_fn(A) -> bool, x: A)
    ensures
        s.push(x).filter(pred) == if pred(x) {
            s.filter(pred).push(x)
        } else {
            s.filter(pred)
        },
{
    reveal(Seq::filter);
    assert(s.push(x).drop_last() =~= s);
    assert(s.push(x).last() == x);
    if pred(x) {
        assert(s.push(x).filter(pred) =~= s.filter(pred).push(x));
    } else {
        assert(s.push(x).filter(pred) =~= s.filter(pred));
    }
}

/// Mapping over a sequence commutes with appending one element.
proof fn lemma_map_values_push<A, B>(s: Seq<A>, f: spec_fn(A) -> B, x: A)
    ensures
        s.push(x).map_values(f) == s.map_values(f).push(f(x)),
{
    assert forall|j: int| 0 <= j < s.len() + 1 implies s.push(x).map_values(f)[j] == s.map_values(
        f,
    ).push(f(x))[j] by {
        if j < s.len() {
            assert(s.map_values(f)[j] == f(s[j]));
        }
    }
    assert(s.push(x).map_values(f) =~= s.map_values(f).push(f(x)));
}

/// The empty sequence filters to itself.
proof fn lemma_filter_empty<A>(pred: spec_fn(A) -> bool)
    ensures
        Seq::<A>::empty().filter(pred) == Seq::<A>::empty(),
{
    reveal(Seq::filter);
}

/// An in-memory storage backend: the reference model of the SQL-backed one,
/// and the test double the properties of the system are exercised against.
/// Rows are held in insertion order.
pub struct MemStorage {
    pub boards: Vec<Board>,
    pub columns: Vec<Column>,
}

impl MemStorage {
    /// An empty storage: no boards, no columns.
    pub fn new() -> (r: MemStorage)
        ensures
            r.boards@.len() == 0,
            r.columns@.len() == 0,
    {
        MemStorage { boards: Vec::new(), columns: Vec::new() }
    }
}

impl Storage for MemStorage {
    open spec fn fail_msg(&self) -> Option<Seq<char>> {
        None
    }

    open spec fn total(&self) -> bool {
        true
    }

    open spec fn boards(&self) -> Seq<BoardView> {
        self.boards@.map_values(|b: Board| b@)
    }

    open spec fn columns(&self) -> Seq<ColumnView> {
        self.columns@.map_values(|c: Column| c@)
    }

    fn name(&self) -> (r: &'static str) {
        "Memory"
    }

    fn add_board(&mut self, item: &Board) -> (r: Result<bool, MyError>)
        ensures
            r matches Ok(ok) && ok,
    {
        let ghost prev = self.boards@;
        let b = item.duplicate();
        proof {
            lemma_map_values_push(prev, |b: Board| b@, b);
        }
        self.boards.push(b);
        Ok(true)
    }

    fn list_boards(&self) -> (r: Result<Vec<Board>, MyError>)
        ensures
            r matches Ok(v) && v@.map_values(|b: Board| b@) == self.boards(),
    {
        let mut out: Vec<Board> = Vec::new();
        let n = self.boards.len();
        for i in 0..n
            invariant
                n == self.boards.len(),
                out@.len() == i,
                forall|j: int| 0 <= j < i ==> out@[j]@ == self.boards@[j]@,
        {
            out.push(self.boards[i].duplicate());
        }
        proof {
            assert(out@.map_values(|b: Board| b@) =~= self.boards@.map_values(|b: Board| b@));
        }
        Ok(out)
    }

    fn get_board(&self, id: &String) -> (r: Result<Board, MyError>)
        ensures
            match r {
                Ok(b) => boards_with_id(self.boards(), id@).len() == 1 && b@ == boards_with_id(
                    self.boards(),
                    id@,
                )[0],
                Err(e) => boards_with_id(self.boards(), id@).len() != 1 && e@
                    == row_count_error(),
            },
    {
        let ghost full = self.boards@.map_values(|b: Board| b@);
        let ghost pred = |b: BoardView| b.id == id@;
        let mut found: Option<Board> = None;
        let mut count: usize = 0;
        let n = self.boards.len();
        proof {
            assert(full.take(0) =~= Seq::<BoardView>::empty());
            lemma_filter_empty::<BoardView>(pred);
        }
        for i in 0..n
            invariant
                n == self.boards.len(),
                full == self.boards@.map_values(|b: Board| b@),
                pred == (|b: BoardView| b.id == id@),
                count == full.take(i as int).filter(pred).len(),
                count <= i,
                match found {
                    Some(b) => count >= 1 && b@ == full.take(i as int).filter(pred)[0],
                    None => count == 0,
                },
        {
            let hit = self.boards[i].id == *id;
            proof {
                assert(full.take(i + 1) =~= full.take(i as int).push(full[i as int]));
                lemma_filter_push::<BoardView>(full.take(i as int), pred, full[i as int]);
                assert(full[i as int] == self.boards@[i as int]@);
                assert(hit == pred(full[i as int]));
            }
            if hit {
                if count == 0 {
                    found = Some(self.boards[i].duplicate());
                }
                count = count + 1;
            }
        }
        proof {
            assert(full.take(n as int) =~= full);
            assert(boards_with_id(self.boards(), id@) == full.filter(pred));
        }
        match found {
            Some(b) => {
                if count == 1 {
                    Ok(b)
                } else {
                    Err("query returned an unexpected number of rows".to_string())
                }
            },
            None => Err("query returned an unexpected number of rows".to_string()),
        }
    }

    fn delete_board(&mut self, id: &String) -> (r: Result<bool, MyError>)
        ensures
            r matches Ok(d) && d == (boards_with_id(old(self).boards(), id@).len() > 0),
    {
        let ghost full = self.boards@.map_values(|b: Board| b@);
        let ghost keep = |b: BoardView| b.id != id@;
        let ghost hitp = |b: BoardView| b.id == id@;
        let mut kept: Vec<Board> = Vec::new();
        let mut deleted = false;
        let n = self.boards.len();
        proof {
            assert(full.take(0) =~= Seq::<BoardView>::empty());
            lemma_filter_empty::<BoardView>(keep);
            lemma_filter_empty::<BoardView>(hitp);
            assert(kept@.map_values(|b: Board| b@) =~= Seq::<BoardView>::empty());
        }
        for i in 0..n
            invariant
                n == self.boards.len(),
                full == self.boards@.map_values(|b: Board| b@),
                keep == (|b: BoardView| b.id != id@),
                hitp == (|b: BoardView| b.id == id@),
                kept@.map_values(|b: Board| b@) == full.take(i as int).filter(keep),
                deleted == (full.take(i as int).filter(hitp).len() > 0),
        {
            let hit = self.boards[i].id == *id;
            proof {
                assert(full.take(i + 1) =~= full.take(i as int).push(full[i as int]));
                lemma_filter_push::<BoardView>(full.take(i as int), keep, full[i as int]);
                lemma_filter_push::<BoardView>(full.take(i as int), hitp, full[i as int]);
                assert(full[i as int] == self.boards@[i as int]@);
                assert(hit == hitp(full[i as int]));
                assert(!hit == keep(full[i as int]));
            }
            if hit {
                deleted = true;
            } else {
                let ghost prev = kept@;
                let b = self.boards[i].duplicate();
                proof {
                    lemma_map_values_push(prev, |b: Board| b@, b);
                }
                kept.push(b);
            }
        }
        self.boards = kept;
        proof {
            assert(full.take(n as int) =~= full);
            assert(boards_with_id(old(self).boards(), id@) == full.filter(hitp));
            assert(old(self).boards().filter(|b: BoardView| b.id != id@) == full.filter(keep));
        }
        Ok(deleted)
    }

    fn add_column(&mut self, item: &Column) -> (r: Result<bool, MyError>)
        ensures
            r matches Ok(ok) && ok,
    {
        let ghost prev = self.columns@;
        let c = item.duplicate();
        proof {
            lemma_map_values_push(prev, |c: Column| c@, c);
        }
        self.columns.push(c);
        Ok(true)
    }

    fn list_columns(&self) -> (r: Result<Vec<Column>, MyError>)
        ensures
            r matches Ok(v) && v@.map_values(|c: Column| c@) == self.columns(),
    {
        let mut out: Vec<Column> = Vec::new();
        let n = self.columns.len();
        for i in 0..n
            invariant
                n == self.columns.len(),
                out@.len() == i,
                forall|j: int| 0 <= j < i ==> out@[j]@ == self.columns@[j]@,
        {
            out.push(self.columns[i].duplicate());
        }
        proof {
            assert(out@.map_values(|c: Column| c@) =~= self.columns@.map_values(|c: Column| c@));
        }
        Ok(out)
    }

    fn get_column(&self, id: &String) -> (r: Result<Column, MyError>)
        ensures
            match r {
                Ok(c) => columns_with_id(self.columns(), id@).len() == 1 && c@ == columns_with_id(
                    self.columns(),
                    id@,
                )[0],
                Err(e) => columns_with_id(self.columns(), id@).len() != 1 && e@
                    == row_count_error(),
            },
    {
        let ghost full = self.columns@.map_values(|c: Column| c@);
        let ghost pred = |c: ColumnView| c.id == id@;
        let mut found: Option<Column> = None;
        let mut count: usize = 0;
        let n = self.columns.len();
        proof {
            assert(full.take(0) =~= Seq::<ColumnView>::empty());
            lemma_filter_empty::<ColumnView>(pred);
        }
        for i in 0..n
            invariant
                n == self.columns.len(),
                full == self.columns@.map_values(|c: Column| c@),
                pred == (|c: ColumnView| c.id == id@),
                count == full.take(i as int).filter(pred).len(),
                count <= i,
                match found {
                    Some(c) => count >= 1 && c@ == full.take(i as int).filter(pred)[0],
                    None => count == 0,
                },
        {
            let hit = self.columns[i].id == *id;
            proof {
                assert(full.take(i + 1) =~= full.take(i as int).push(full[i as int]));
                lemma_filter_push::<ColumnView>(full.take(i as int), pred, full[i as int]);
                assert(full[i as int] == self.columns@[i as int]@);
                assert(hit == pred(full[i as int]));
            }
            if hit {
                if count == 0 {
                    found = Some(self.columns[i].duplicate());
                }
                count = count + 1;
            }
        }
        proof {
            assert(full.take(n as int) =~= full);
            assert(columns_with_id(self.columns(), id@) == full.filter(pred));
        }
        match found {
            Some(c) => {
                if count == 1 {
                    Ok(c)
                } else {
                    Err("query returned an unexpected number of rows".to_string())
                }
            },
            None => Err("query returned an unexpected number of rows".to_string()),
        }
    }

    fn delete_column(&mut self, id: &String) -> (r: Result<bool, MyError>)
        ensures
            r matches Ok(d) && d == (columns_with_id(old(self).columns(), id@).len() > 0),
    {
        let ghost full = self.columns@.map_values(|c: Column| c@);
        let ghost keep = |c: ColumnView| c.id != id@;
        let ghost hitp = |c: ColumnView| c.id == id@;
        let mut kept: Vec<Column> = Vec::new();
        let mut deleted = false;
        let n = self.columns.len();
        proof {
            assert(full.take(0) =~= Seq::<ColumnView>::empty());
            lemma_filter_empty::<ColumnView>(keep);
            lemma_filter_empty::<ColumnView>(hitp);
            assert(kept@.map_values(|c: Column| c@) =~= Seq::<ColumnView>::empty());
        }
        for i in 0..n
            invariant
                n == self.columns.len(),
                full == self.columns@.map_values(|c: Column| c@),
                keep == (|c: ColumnView| c.id != id@),
                hitp == (|c: ColumnView| c.id == id@),
                kept@.map_values(|c: Column| c@) == full.take(i as int).filter(keep),
                deleted == (full.take(i as int).filter(hitp).len() > 0),
        {
            let hit = self.columns[i].id == *id;
            proof {
                assert(full.take(i + 1) =~= full.take(i as int).push(full[i as int]));
                lemma_filter_push::<ColumnView>(full.take(i as int), keep, full[i as int]);
                lemma_filter_push::<ColumnView>(full.take(i as int), hitp, full[i as int]);
                assert(full[i as int] == self.columns@[i as int]@);
                assert(hit == hitp(full[i as int]));
                assert(!hit == keep(full[i as int]));
            }
            if hit {
                deleted = true;
            } else {
                let ghost prev = kept@;
                let c = self.columns[i].duplicate();
                proof {
                    lemma_map_values_push(prev, |c: Column| c@, c);
                }
                kept.push(c);
            }
        }
        self.columns = kept;
        proof {
            assert(full.take(n as int) =~= full);
            assert(columns_with_id(old(self).columns(), id@) == full.filter(hitp));
            assert(old(self).columns().filter(|c: ColumnView| c.id != id@) == full.filter(keep));
        }
        Ok(deleted)
    }
}

} // verus!
