use vstd::prelude::*;

verus! {

/// Every failure in this system is a human-readable message.
pub type MyError = String;

/// Runtime configuration: which storage backend to use.
pub struct Config {
    pub provider: String,
}

impl Config {
    /// The value read for an environment variable (handed in by the caller),
    /// or the given default where the variable was unset.
    pub fn env_var_string(value: Option<String>, default: String) -> (r: String)
        ensures
            r@ == match value {
                Some(v) => v@,
                None => default@,
            },
    {
        match value {
            Some(v) => v,
            None => default,
        }
    }

    /// Builds the configuration from the STORAGE_PROVIDER variable's value;
    /// an unset variable selects the empty provider name.
    pub fn from_env(provider: Option<String>) -> (r: Config)
        ensures
            r.provider@ == match provider {
                Some(p) => p@,
                None => Seq::<char>::empty(),
            },
    {
        Config { provider: Config::env_var_string(provider, String::new()) }
    }
}

/// A board: a named item owned by a user, with a server-assigned id and
/// creation time in milliseconds since the epoch.
#[derive(Debug, Clone)]
pub struct Board {
    pub id: String,
    pub title: String,
    pub owner: String,
    pub created_at: i64,
}

/// The mathematical value of a `Board`.
pub struct BoardView {
    pub id: Seq<char>,
    pub title: Seq<char>,
    pub owner: Seq<char>,
    pub created_at: int,
}

impl View for Board {
    type V = BoardView;

    open spec fn view(&self) -> BoardView {
        BoardView {
            id: self.id@,
            title: self.title@,
            owner: self.owner@,
            created_at: self.created_at as int,
        }
    }
}

/// The client's input for creating a board; id and creation time are
/// server-assigned, never client-supplied.
pub struct CreateBoard {
    pub title: String,
    pub owner: String,
}

/// A column: a secondary entity scoped to a board; same mechanics as `Board`.
#[derive(Debug, Clone)]
pub struct Column {
    pub id: String,
    pub board_id: String,
    pub title: String,
    pub created_at: i64,
}

/// The mathematical value of a `Column`.
pub struct ColumnView {
    pub id: Seq<char>,
    pub board_id: Seq<char>,
    pub title: Seq<char>,
    pub created_at: int,
}

impl View for Column {
    type V = ColumnView;

    open spec fn view(&self) -> ColumnView {
        ColumnView {
            id: self.id@,
            board_id: self.board_id@,
            title: self.title@,
            created_at: self.created_at as int,
        }
    }
}

/// The client's input for creating a column.
pub struct CreateColumn {
    pub board_id: String,
    pub title: String,
}

impl Board {
    /// Builds a board from the client's input plus the server-assigned id and
    /// creation time.
    pub fn new(id: String, payload: &CreateBoard, created_at: i64) -> (r: Board)
        ensures
            r@.id == id@,
            r@.title == payload.title@,
            r@.owner == payload.owner@,
            r@.created_at == created_at as int,
    {
        Board { id, title: payload.title.clone(), owner: payload.owner.clone(), created_at }
    }

    /// A copy with the same value (the derived clone says nothing to the
    /// verifier, so the copy is made field by field).
    pub fn duplicate(&self) -> (r: Board)
        ensures
            r@ == self@,
    {
        Board {
            id: self.id.clone(),
            title: self.title.clone(),
            owner: self.owner.clone(),
            created_at: self.created_at,
        }
    }
}

impl Column {
    /// Builds a column from the client's input plus the server-assigned id and
    /// creation time.
    pub fn new(id: String, payload: &CreateColumn, created_at: i64) -> (r: Column)
        ensures
            r@.id == id@,
            r@.board_id == payload.board_id@,
            r@.title == payload.title@,
            r@.created_at == created_at as int,
    {
        Column {
            id,
            board_id: payload.board_id.clone(),
            title: payload.title.clone(),
            created_at,
        }
    }

    /// A copy with the same value.
    pub fn duplicate(&self) -> (r: Column)
        ensures
            r@ == self@,
    {
        Column {
            id: self.id.clone(),
            board_id: self.board_id.clone(),
            title: self.title.clone(),
            created_at: self.created_at,
        }
    }
}

/// The boards among `boards` whose id is `id`, in order.
pub open spec fn boards_with_id(boards: Seq<BoardView>, id: Seq<char>) -> Seq<BoardView> {
    boards.filter(|b: BoardView| b.id == id)
}

/// The columns among `columns` whose id is `id`, in order.
pub open spec fn columns_with_id(columns: Seq<ColumnView>, id: Seq<char>) -> Seq<ColumnView> {
    columns.filter(|c: ColumnView| c.id == id)
}

/// The persistence abstraction: add/list/get/delete per entity.
///
/// Every implementation is modelled by `fail_msg` (the message every
/// operation fails with, where the backend is degraded) and by the two
/// tables of rows it holds. The contracts say, for each outcome, what must
/// hold of the result and of the tables; a backend may also fail for reasons
/// of its own (a lost connection), so no operation is promised to succeed.
pub trait Storage: Sized {
    /// The message every operation fails with, where this backend always
    /// fails; `None` for a working backend.
    spec fn fail_msg(&self) -> Option<Seq<char>>;

    /// Whether every operation on this backend succeeds: true of the
    /// in-memory model, false of one that can fail.
    spec fn total(&self) -> bool;

    /// The rows of the boards table, in insertion order.
    spec fn boards(&self) -> Seq<BoardView>;

    /// The rows of the columns table, in insertion order.
    spec fn columns(&self) -> Seq<ColumnView>;

    fn name(&self) -> &'static str;

    /// Inserts the board; duplicates are not rejected (id uniqueness is
    /// probabilistic, not enforced here).
    fn add_board(&mut self, item: &Board) -> (r: Result<bool, MyError>)
        ensures
            final(self).fail_msg() == old(self).fail_msg(),
            final(self).total() == old(self).total(),
            match r {
                Ok(ok) => ok && old(self).fail_msg() is None
                    && final(self).boards() == old(self).boards().push(item@)
                    && final(self).columns() == old(self).columns(),
                Err(e) => !old(self).total() && final(self).boards() == old(self).boards()
                    && final(self).columns() == old(self).columns()
                    && (old(self).fail_msg() matches Some(m) ==> e@ == m),
            },
    ;

    /// All boards, in no guaranteed order: only the multiset of rows is
    /// promised.
    fn list_boards(&self) -> (r: Result<Vec<Board>, MyError>)
        ensures
            match r {
                Ok(v) => self.fail_msg() is None
                    && v@.map_values(|b: Board| b@).to_multiset() == self.boards().to_multiset(),
                Err(e) => !self.total() && (self.fail_msg() matches Some(m) ==> e@ == m),
            },
    ;

    /// The single board with this id; zero or more than one matching row is
    /// a failure, so a decoded board is never returned for an absent id.
    fn get_board(&self, id: &String) -> (r: Result<Board, MyError>)
        ensures
            match r {
                Ok(b) => self.fail_msg() is None
                    && boards_with_id(self.boards(), id@).len() == 1
                    && b@ == boards_with_id(self.boards(), id@)[0],
                Err(e) => (self.total() ==> boards_with_id(self.boards(), id@).len() != 1) && (
                self.fail_msg() matches Some(m) ==> e@ == m),
            },
    ;

    /// Deletes every board with this id. `Ok(true)` means at least one row
    /// was deleted, `Ok(false)` that no row matched.
    fn delete_board(&mut self, id: &String) -> (r: Result<bool, MyError>)
        ensures
            final(self).fail_msg() == old(self).fail_msg(),
            final(self).total() == old(self).total(),
            match r {
                Ok(deleted) => old(self).fail_msg() is None
                    && final(self).boards() == old(self).boards().filter(
                        |b: BoardView| b.id != id@,
                    )
                    && final(self).columns() == old(self).columns()
                    && deleted == (boards_with_id(old(self).boards(), id@).len() > 0),
                Err(e) => !old(self).total() && final(self).boards() == old(self).boards()
                    && final(self).columns() == old(self).columns()
                    && (old(self).fail_msg() matches Some(m) ==> e@ == m),
            },
    ;

    /// Inserts the column.
    fn add_column(&mut self, item: &Column) -> (r: Result<bool, MyError>)
        ensures
            final(self).fail_msg() == old(self).fail_msg(),
            final(self).total() == old(self).total(),
            match r {
                Ok(ok) => ok && old(self).fail_msg() is None
                    && final(self).columns() == old(self).columns().push(item@)
                    && final(self).boards() == old(self).boards(),
                Err(e) => !old(self).total() && final(self).boards() == old(self).boards()
                    && final(self).columns() == old(self).columns()
                    && (old(self).fail_msg() matches Some(m) ==> e@ == m),
            },
    ;

    /// All columns, in no guaranteed order.
    fn list_columns(&self) -> (r: Result<Vec<Column>, MyError>)
        ensures
            match r {
                Ok(v) => self.fail_msg() is None
                    && v@.map_values(|c: Column| c@).to_multiset() == self.columns().to_multiset(),
                Err(e) => !self.total() && (self.fail_msg() matches Some(m) ==> e@ == m),
            },
    ;

    /// The single column with this id.
    fn get_column(&self, id: &String) -> (r: Result<Column, MyError>)
        ensures
            match r {
                Ok(c) => self.fail_msg() is None
                    && columns_with_id(self.columns(), id@).len() == 1
                    && c@ == columns_with_id(self.columns(), id@)[0],
                Err(e) => (self.total() ==> columns_with_id(self.columns(), id@).len() != 1) && (
                self.fail_msg() matches Some(m) ==> e@ == m),
            },
    ;

    /// Deletes every column with this id.
    fn delete_column(&mut self, id: &String) -> (r: Result<bool, MyError>)
        ensures
            final(self).fail_msg() == old(self).fail_msg(),
            final(self).total() == old(self).total(),
            match r {
                Ok(deleted) => old(self).fail_msg() is None
                    && final(self).columns() == old(self).columns().filter(
                        |c: ColumnView| c.id != id@,
                    )
                    && final(self).boards() == old(self).boards()
                    && deleted == (columns_with_id(old(self).columns(), id@).len() > 0),
                Err(e) => !old(self).total() && final(self).boards() == old(self).boards()
                    && final(self).columns() == old(self).columns()
                    && (old(self).fail_msg() matches Some(m) ==> e@ == m),
            },
    ;
}

/// The process-wide service state: time source, configuration and storage,
/// built once at startup and shared.
pub struct Service<T, S> {
    pub time_provider: T,
    pub config: Config,
    pub storage: S,
}

/// The startup decision: which storage backend the configured provider name
/// selects.
pub enum StorageChoice {
    /// The provider name selects the SQL-backed storage.
    Postgres,
    /// No usable provider: the degraded backend, with this error message.
    Invalid(String),
}

/// The selection policy: only the provider name `postgres` selects the
/// SQL-backed storage; any other value (the empty one included) degrades to
/// the always-failing backend with a message embedding the bad value.
pub fn choose_storage(provider: &String) -> (r: StorageChoice)
    ensures
        provider@ == "postgres"@ ==> r is Postgres,
        provider@ != "postgres"@ ==> (r matches StorageChoice::Invalid(m) && m@
            == "Invalid or no storage provider given! '"@ + provider@ + "'"@),
{
    let pg = "postgres".to_string();
    if *provider == pg {
        StorageChoice::Postgres
    } else {
        StorageChoice::Invalid(
            "Invalid or no storage provider given! '".to_string().concat(provider.as_str()).concat(
                "'",
            ),
        )
    }
}

/// The message the server degrades with when the SQL-backed storage cannot
/// be constructed at startup.
pub fn postgres_failure_message(why: &String) -> (r: String)
    ensures
        r@ == "Invalid postgres storage provider! "@ + why@,
{
    "Invalid postgres storage provider! ".to_string().concat(why.as_str())
}

} // verus!
