use vstd::prelude::*;

use crate::models::{Board, BoardView, Column, ColumnView, MyError};
use crate::sql::PgConfig;

verus! {

/// A value in a result row: the two column types this schema uses.
pub enum SqlValue {
    Text(String),
    BigInt(i64),
}

/// The mathematical value of a `SqlValue`.
pub enum SqlValueView {
    Text(Seq<char>),
    BigInt(int),
}

impl View for SqlValue {
    type V = SqlValueView;

    open spec fn view(&self) -> SqlValueView {
        match self {
            SqlValue::Text(t) => SqlValueView::Text(t@),
            SqlValue::BigInt(n) => SqlValueView::BigInt(*n as int),
        }
    }
}

/// One named column of a result row.
pub struct DbField {
    pub name: String,
    pub value: SqlValue,
}

/// The mathematical value of a `DbField`.
pub struct DbFieldView {
    pub name: Seq<char>,
    pub value: SqlValueView,
}

impl View for DbField {
    type V = DbFieldView;

    open spec fn view(&self) -> DbFieldView {
        DbFieldView { name: self.name@, value: self.value@ }
    }
}

/// A result row handed back by the database driver, as plain values.
pub struct DbRow {
    pub fields: Vec<DbField>,
}

impl View for DbRow {
    type V = Seq<DbFieldView>;

    open spec fn view(&self) -> Seq<DbFieldView> {
        self.fields@.map_values(|f: DbField| f@)
    }
}

/// The value of the first field named `name`, if any.
pub open spec fn lookup_field(row: Seq<DbFieldView>, name: Seq<char>) -> Option<SqlValueView>
    decreases row.len(),
{
    if row.len() == 0 {
        None
    } else if row[0].name == name {
        Some(row[0].value)
    } else {
        lookup_field(row.drop_first(), name)
    }
}

/// What reading a text column returns: its characters, or the error message
/// for a missing or differently-typed column.
pub open spec fn spec_get_text(row: Seq<DbFieldView>, name: Seq<char>) -> Result<
    Seq<char>,
    Seq<char>,
> {
    match lookup_field(row, name) {
        None => Err("Could not get "@ + name + "! no such column"@),
        Some(SqlValueView::Text(t)) => Ok(t),
        Some(_) => Err("Could not get "@ + name + "! unexpected column type"@),
    }
}

/// What reading a bigint column returns.
pub open spec fn spec_get_bigint(row: Seq<DbFieldView>, name: Seq<char>) -> Result<
    int,
    Seq<char>,
> {
    match lookup_field(row, name) {
        None => Err("Could not get "@ + name + "! no such column"@),
        Some(SqlValueView::BigInt(n)) => Ok(n),
        Some(_) => Err("Could not get "@ + name + "! unexpected column type"@),
    }
}

/// A borrow of the first field named `name`, if any.
fn find_field<'a>(row: &'a DbRow, name: &String) -> (r: Option<&'a SqlValue>)
    ensures
        match r {
            Some(v) => lookup_field(row@, name@) == Some(v@),
            None => lookup_field(row@, name@) is None,
        },
{
    let n = row.fields.len();
    let mut i: usize = 0;
    proof {
        assert(row@.skip(0) =~= row@);
    }
    while i < n
        invariant
            n == row.fields@.len(),
            i <= n,
            lookup_field(row@, name@) == lookup_field(row@.skip(i as int), name@),
        decreases n - i,
    {
        proof {
            assert(row@.skip(i as int)[0] == row@[i as int]);
            assert(row@[i as int] == row.fields@[i as int]@);
        }
        if row.fields[i].name == *name {
            return Some(&row.fields[i].value);
        }
        proof {
            assert(row@.skip(i as int).drop_first() =~= row@.skip(i as int + 1));
        }
        i = i + 1;
    }
    proof {
        assert(row@.skip(n as int) =~= Seq::<DbFieldView>::empty());
    }
    None
}

/// Reads the text column `name` from the row, with the error message the
/// driver-side conversion produces.
pub fn get_text(row: &DbRow, name: &String) -> (r: Result<String, MyError>)
    ensures
        match r {
            Ok(t) => spec_get_text(row@, name@) == Ok::<Seq<char>, Seq<char>>(t@),
            Err(e) => {
                &&& spec_get_text(row@, name@) matches Err(m)
                &&& e@ == m
            },
        },
{
    match find_field(row, name) {
        None => Err(
            "Could not get ".to_string().concat(name.as_str()).concat("! no such column"),
        ),
        Some(v) => match v {
            SqlValue::Text(t) => Ok(t.clone()),
            _ => Err(
                "Could not get ".to_string().concat(name.as_str()).concat(
                    "! unexpected column type",
                ),
            ),
        },
    }
}

/// Reads the bigint column `name` from the row.
pub fn get_bigint(row: &DbRow, name: &String) -> (r: Result<i64, MyError>)
    ensures
        match r {
            Ok(n) => spec_get_bigint(row@, name@) == Ok::<int, Seq<char>>(n as int),
            Err(e) => {
                &&& spec_get_bigint(row@, name@) matches Err(m)
                &&& e@ == m
            },
        },
{
    match find_field(row, name) {
        None => Err(
            "Could not get ".to_string().concat(name.as_str()).concat("! no such column"),
        ),
        Some(v) => match v {
            SqlValue::BigInt(n) => Ok(*n),
            _ => Err(
                "Could not get ".to_string().concat(name.as_str()).concat(
                    "! unexpected column type",
                ),
            ),
        },
    }
}

/// What an entity needs for row-level CRUD: its names, its table, its
/// column list, and the two directions between an entity and a row.
pub trait RowCrud: Sized + View {
    /// The entity's singular name, as used in messages.
    spec fn single() -> Seq<char>;

    /// The entity's plural name.
    spec fn plural() -> Seq<char>;

    /// The table the entity is stored in, under the given configuration.
    spec fn table_view(cfg: &PgConfig) -> Seq<char>;

    /// The comma-separated column list, in insert order.
    spec fn fields_text() -> Seq<char>;

    /// The row an entity is written as, in column order.
    spec fn spec_row_values(v: Self::V) -> Seq<SqlValueView>;

    /// The entity a row decodes to, or the first column error.
    spec fn spec_from_row(row: Seq<DbFieldView>) -> Result<Self::V, Seq<char>>;

    fn name_single() -> (r: &'static str)
        ensures
            r@ == Self::single(),
    ;

    fn name_plural() -> (r: &'static str)
        ensures
            r@ == Self::plural(),
    ;

    fn table_name<'a>(cfg: &'a PgConfig) -> (r: &'a String)
        ensures
            r@ == Self::table_view(cfg),
    ;

    fn field_names() -> (r: &'static str)
        ensures
            r@ == Self::fields_text(),
    ;

    fn row_values(&self) -> (r: Vec<SqlValue>)
        ensures
            r@.map_values(|v: SqlValue| v@) == Self::spec_row_values(self@),
    ;

    fn try_from_row(row: &DbRow) -> (r: Result<Self, MyError>)
        ensures
            match r {
                Ok(v) => Self::spec_from_row(row@) == Ok::<Self::V, Seq<char>>(v@),
                Err(e) => {
                    &&& Self::spec_from_row(row@) matches Err(m)
                    &&& e@ == m
                },
            },
    ;
}

impl RowCrud for Board {
    open spec fn single() -> Seq<char> {
        "Board"@
    }

    open spec fn plural() -> Seq<char> {
        "Boards"@
    }

    open spec fn table_view(cfg: &PgConfig) -> Seq<char> {
        cfg.table_boards@
    }

    open spec fn fields_text() -> Seq<char> {
        "id, title, owner, created_at"@
    }

    open spec fn spec_row_values(v: BoardView) -> Seq<SqlValueView> {
        seq![
            SqlValueView::Text(v.id),
            SqlValueView::Text(v.title),
            SqlValueView::Text(v.owner),
            SqlValueView::BigInt(v.created_at),
        ]
    }

    open spec fn spec_from_row(row: Seq<DbFieldView>) -> Result<BoardView, Seq<char>> {
        match spec_get_text(row, "id"@) {
            Err(e) => Err(e),
            Ok(id) => match spec_get_text(row, "title"@) {
                Err(e) => Err(e),
                Ok(title) => match spec_get_text(row, "owner"@) {
                    Err(e) => Err(e),
                    Ok(owner) => match spec_get_bigint(row, "created_at"@) {
                        Err(e) => Err(e),
                        Ok(created_at) => Ok(BoardView { id, title, owner, created_at }),
                    },
                },
            },
        }
    }

    fn name_single() -> (r: &'static str) {
        "Board"
    }

    fn name_plural() -> (r: &'static str) {
        "Boards"
    }

    fn table_name<'a>(cfg: &'a PgConfig) -> (r: &'a String) {
        &cfg.table_boards
    }

    fn field_names() -> (r: &'static str) {
        "id, title, owner, created_at"
    }

    fn row_values(&self) -> (r: Vec<SqlValue>) {
        let mut v: Vec<SqlValue> = Vec::new();
        v.push(SqlValue::Text(self.id.clone()));
        v.push(SqlValue::Text(self.title.clone()));
        v.push(SqlValue::Text(self.owner.clone()));
        v.push(SqlValue::BigInt(self.created_at));
        proof {
            assert(v@.map_values(|x: SqlValue| x@) =~= Self::spec_row_values(self@));
        }
        v
    }

    fn try_from_row(row: &DbRow) -> (r: Result<Board, MyError>) {
        let id = match get_text(row, &"id".to_string()) {
            Err(e) => {
                return Err(e);
            },
            Ok(t) => t,
        };
        let title = match get_text(row, &"title".to_string()) {
            Err(e) => {
                return Err(e);
            },
            Ok(t) => t,
        };
        let owner = match get_text(row, &"owner".to_string()) {
            Err(e) => {
                return Err(e);
            },
            Ok(t) => t,
        };
        let created_at = match get_bigint(row, &"created_at".to_string()) {
            Err(e) => {
                return Err(e);
            },
            Ok(n) => n,
        };
        Ok(Board { id, title, owner, created_at })
    }
}

impl RowCrud for Column {
    open spec fn single() -> Seq<char> {
        "Column"@
    }

    open spec fn plural() -> Seq<char> {
        "Columns"@
    }

    open spec fn table_view(cfg: &PgConfig) -> Seq<char> {
        cfg.table_columns@
    }

    open spec fn fields_text() -> Seq<char> {
        "id, board_id, title, created_at"@
    }

    open spec fn spec_row_values(v: ColumnView) -> Seq<SqlValueView> {
        seq![
            SqlValueView::Text(v.id),
            SqlValueView::Text(v.board_id),
            SqlValueView::Text(v.title),
            SqlValueView::BigInt(v.created_at),
        ]
    }

    open spec fn spec_from_row(row: Seq<DbFieldView>) -> Result<ColumnView, Seq<char>> {
        match spec_get_text(row, "id"@) {
            Err(e) => Err(e),
            Ok(id) => match spec_get_text(row, "board_id"@) {
                Err(e) => Err(e),
                Ok(board_id) => match spec_get_text(row, "title"@) {
                    Err(e) => Err(e),
                    Ok(title) => match spec_get_bigint(row, "created_at"@) {
                        Err(e) => Err(e),
                        Ok(created_at) => Ok(ColumnView { id, board_id, title, created_at }),
                    },
                },
            },
        }
    }

    fn name_single() -> (r: &'static str) {
        "Column"
    }

    fn name_plural() -> (r: &'static str) {
        "Columns"
    }

    fn table_name<'a>(cfg: &'a PgConfig) -> (r: &'a String) {
        &cfg.table_columns
    }

    fn field_names() -> (r: &'static str) {
        "id, board_id, title, created_at"
    }

    fn row_values(&self) -> (r: Vec<SqlValue>) {
        let mut v: Vec<SqlValue> = Vec::new();
        v.push(SqlValue::Text(self.id.clone()));
        v.push(SqlValue::Text(self.board_id.clone()));
        v.push(SqlValue::Text(self.title.clone()));
        v.push(SqlValue::BigInt(self.created_at));
        proof {
            assert(v@.map_values(|x: SqlValue| x@) =~= Self::spec_row_values(self@));
        }
        v
    }

    fn try_from_row(row: &DbRow) -> (r: Result<Column, MyError>) {
        let id = match get_text(row, &"id".to_string()) {
            Err(e) => {
                return Err(e);
            },
            Ok(t) => t,
        };
        let board_id = match get_text(row, &"board_id".to_string()) {
            Err(e) => {
                return Err(e);
            },
            Ok(t) => t,
        };
        let title = match get_text(row, &"title".to_string()) {
            Err(e) => {
                return Err(e);
            },
            Ok(t) => t,
        };
        let created_at = match get_bigint(row, &"created_at".to_string()) {
            Err(e) => {
                return Err(e);
            },
            Ok(n) => n,
        };
        Ok(Column { id, board_id, title, created_at })
    }
}

/// Decodes every row in order, aborting the whole list on the first row
/// that does not decode; the error embeds the entity name and the column
/// error.
pub fn try_from_vec<U: RowCrud>(rows: Vec<DbRow>, name: &str) -> (r: Result<Vec<U>, MyError>)
    ensures
        match r {
            Ok(v) => v@.len() == rows@.len() && (forall|j: int|
                0 <= j < rows@.len() ==> U::spec_from_row(rows@[j]@) == Ok::<U::V, Seq<char>>(
                    v@[j]@,
                )),
            Err(e) => exists|j: int|
                {
                    &&& 0 <= j < rows@.len()
                    &&& forall|k: int| 0 <= k < j ==> U::spec_from_row(rows@[k]@) is Ok
                    &&& (#[trigger] U::spec_from_row(rows@[j]@)) is Err
                    &&& e@ == "Failed converting "@ + name@ + ": "@ + U::spec_from_row(
                        rows@[j]@,
                    )->Err_0
                },
        },
{
    let mut out: Vec<U> = Vec::new();
    let n = rows.len();
    let mut i: usize = 0;
    while i < n
        invariant
            n == rows@.len(),
            i <= n,
            out@.len() == i,
            forall|j: int|
                0 <= j < i ==> U::spec_from_row(rows@[j]@) == Ok::<U::V, Seq<char>>(out@[j]@),
        decreases n - i,
    {
        match U::try_from_row(&rows[i]) {
            Err(why) => {
                let e = "Failed converting ".to_string().concat(name).concat(": ").concat(
                    why.as_str(),
                );
                proof {
                    assert(forall|k: int| 0 <= k < i ==> U::spec_from_row(rows@[k]@) is Ok);
                    assert(U::spec_from_row(rows@[i as int]@) matches Err(m) && e@
                        == "Failed converting "@ + name@ + ": "@ + m);
                }
                return Err(e);
            },
            Ok(v) => {
                out.push(v);
            },
        }
        i = i + 1;
    }
    Ok(out)
}

} // verus!
