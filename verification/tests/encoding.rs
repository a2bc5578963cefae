use bareretro::decimal::{i64_to_dec, u64_to_dec};
use bareretro::ids::{generate_id, make_board_id, to_hex_padded};
use bareretro::json::{boards_to_json, escape_json};
use bareretro::models::{postgres_failure_message, Board, Column};
use bareretro::row::{get_bigint, get_text, try_from_vec, DbField, DbRow, RowCrud, SqlValue};
use bareretro::sql::{
    delete_statement, get_statement, insert_statement, list_statement, parse_u16, values_str,
    PgConfig,
};

fn board(id: &str, title: &str, owner: &str, created_at: i64) -> Board {
    Board {
        id: id.to_string(),
        title: title.to_string(),
        owner: owner.to_string(),
        created_at,
    }
}

fn board_row(id: &str, title: &str, owner: &str, created_at: i64) -> DbRow {
    DbRow {
        fields: vec![
            DbField { name: "id".to_string(), value: SqlValue::Text(id.to_string()) },
            DbField { name: "title".to_string(), value: SqlValue::Text(title.to_string()) },
            DbField { name: "owner".to_string(), value: SqlValue::Text(owner.to_string()) },
            DbField { name: "created_at".to_string(), value: SqlValue::BigInt(created_at) },
        ],
    }
}

#[test]
fn board_id_is_timestamp_then_random_in_hex() {
    assert_eq!(
        make_board_id(255, 16),
        "00000000000000ff0000000000000010"
    );
    assert_eq!(to_hex_padded(0xdeadbeef, 16), "00000000deadbeef");
    assert_eq!(to_hex_padded(0, 4), "0000");
    // A clock before the epoch renders as the bit pattern of the value.
    assert_eq!(make_board_id(-1, 0), "ffffffffffffffff0000000000000000");
}

#[test]
fn generated_id_embeds_the_clock() {
    let id = generate_id(5);
    assert_eq!(id.len(), 32);
    assert!(id.chars().all(|c| matches!(c, '0'..='9' | 'a'..='f')));
    assert_eq!(&id[..16], "0000000000000005");
}

#[test]
fn decimal_rendering_is_exact() {
    assert_eq!(u64_to_dec(0), "0");
    assert_eq!(u64_to_dec(12345), "12345");
    assert_eq!(u64_to_dec(u64::MAX), "18446744073709551615");
    assert_eq!(i64_to_dec(-42), "-42");
    assert_eq!(i64_to_dec(7), "7");
    assert_eq!(i64_to_dec(i64::MIN), "-9223372036854775808");
}

#[test]
fn port_parsing_matches_the_standard_parser() {
    assert_eq!(parse_u16(&"5432".to_string()), Some(5432));
    assert_eq!(parse_u16(&"+80".to_string()), Some(80));
    assert_eq!(parse_u16(&"0".to_string()), Some(0));
    assert_eq!(parse_u16(&"65535".to_string()), Some(65535));
    assert_eq!(parse_u16(&"65536".to_string()), None);
    assert_eq!(parse_u16(&"".to_string()), None);
    assert_eq!(parse_u16(&"+".to_string()), None);
    assert_eq!(parse_u16(&"12a".to_string()), None);
    assert_eq!(parse_u16(&"-1".to_string()), None);
    assert_eq!(parse_u16(&"999999999999999999".to_string()), None);
}

#[test]
fn pg_config_applies_documented_defaults() {
    let cfg = PgConfig::from_env(None, None, None, None, None, None, None)
        .unwrap_or_else(|_| panic!("defaults failed"));
    assert_eq!(cfg.host, "postgres");
    assert_eq!(cfg.port, 5432);
    assert_eq!(cfg.user, "postgres");
    assert_eq!(cfg.password, "");
    assert_eq!(cfg.dbname, "postgres");
    assert_eq!(cfg.schema, "bareretro");
    assert_eq!(cfg.table_boards, "boards");
    assert_eq!(cfg.table_columns, "columns");

    let cfg = PgConfig::from_env(
        Some("db.internal".to_string()),
        Some("6000".to_string()),
        Some("svc".to_string()),
        Some("SECRET-REDACTED".to_string()),
        Some("retro".to_string()),
        Some("app".to_string()),
        Some("board_rows".to_string()),
    )
    .unwrap_or_else(|_| panic!("explicit values failed"));
    assert_eq!(cfg.host, "db.internal");
    assert_eq!(cfg.port, 6000);
    assert_eq!(cfg.table_boards, "board_rows");

    match PgConfig::from_env(None, Some("words".to_string()), None, None, None, None, None) {
        Ok(_) => panic!("a bad port was accepted"),
        Err(e) => assert_eq!(e, "Port is not a valid number! 'words'"),
    }
    assert_eq!(
        postgres_failure_message(&"no pool".to_string()),
        "Invalid postgres storage provider! no pool"
    );
}

#[test]
fn statements_are_built_exactly() {
    let schema = "bareretro".to_string();
    let table = "boards".to_string();
    assert_eq!(
        insert_statement(&schema, &table, "id, title, owner, created_at", 4),
        "INSERT INTO bareretro.boards (id, title, owner, created_at) VALUES ($1, $2, $3, $4)"
    );
    assert_eq!(
        list_statement("id, title, owner, created_at", &schema, &table),
        "SELECT id, title, owner, created_at FROM bareretro.boards"
    );
    assert_eq!(
        get_statement(&schema, &table),
        "SELECT * FROM bareretro.boards WHERE id = $1"
    );
    assert_eq!(
        delete_statement(&schema, &table),
        "DELETE FROM bareretro.boards WHERE id = $1"
    );
    let vals: Vec<i32> = vec![10, 20, 30];
    assert_eq!(values_str(&vals), "$1, $2, $3");
    let none: Vec<i32> = Vec::new();
    assert_eq!(values_str(&none), "");
}

#[test]
fn board_json_shape_is_exact() {
    let b = board("ab12", "Sprint 1", "alice", 1700000000000);
    assert_eq!(
        b.to_json(),
        "{\"id\":\"ab12\",\"title\":\"Sprint 1\",\"owner\":\"alice\",\"created_at\":1700000000000}"
    );
    let b = board("x", "say \"hi\" \\ there", "o", -5);
    assert_eq!(
        b.to_json(),
        "{\"id\":\"x\",\"title\":\"say \\\"hi\\\" \\\\ there\",\"owner\":\"o\",\"created_at\":-5}"
    );
    let c = Column {
        id: "c1".to_string(),
        board_id: "b1".to_string(),
        title: "todo".to_string(),
        created_at: 3,
    };
    assert_eq!(
        c.to_json(),
        "{\"id\":\"c1\",\"board_id\":\"b1\",\"title\":\"todo\",\"created_at\":3}"
    );
}

#[test]
fn json_escapes_control_characters() {
    assert_eq!(escape_json("plain"), "plain");
    assert_eq!(escape_json("a\nb\tc\rd"), "a\\nb\\tc\\rd");
    assert_eq!(escape_json("\u{8}\u{c}"), "\\b\\f");
    assert_eq!(escape_json("\u{1}\u{1f}"), "\\u0001\\u001f");
    assert_eq!(escape_json("naïve ☃"), "naïve ☃");
}

#[test]
fn board_array_json_lists_in_order() {
    let items = vec![board("a", "t1", "o1", 1), board("b", "t2", "o2", 2)];
    assert_eq!(
        boards_to_json(&items),
        "[{\"id\":\"a\",\"title\":\"t1\",\"owner\":\"o1\",\"created_at\":1},{\"id\":\"b\",\"title\":\"t2\",\"owner\":\"o2\",\"created_at\":2}]"
    );
    let empty: Vec<Board> = Vec::new();
    assert_eq!(boards_to_json(&empty), "[]");
}

#[test]
fn row_decoding_reads_each_field() {
    let row = board_row("id1", "t", "o", 88);
    let b = Board::try_from_row(&row).unwrap_or_else(|_| panic!("decode failed"));
    assert_eq!(b.id, "id1");
    assert_eq!(b.title, "t");
    assert_eq!(b.owner, "o");
    assert_eq!(b.created_at, 88);
    assert_eq!(
        get_text(&row, &"owner".to_string()),
        Ok("o".to_string())
    );
    assert_eq!(get_bigint(&row, &"created_at".to_string()), Ok(88));
}

#[test]
fn row_decoding_reports_the_failing_column() {
    let mut row = board_row("id1", "t", "o", 88);
    row.fields.remove(1);
    match Board::try_from_row(&row) {
        Ok(_) => panic!("a row without a title decoded"),
        Err(e) => assert_eq!(e, "Could not get title! no such column"),
    }
    let mut row = board_row("id1", "t", "o", 88);
    row.fields[3].value = SqlValue::Text("not a number".to_string());
    match Board::try_from_row(&row) {
        Ok(_) => panic!("a mistyped column decoded"),
        Err(e) => assert_eq!(e, "Could not get created_at! unexpected column type"),
    }
}

#[test]
fn row_list_decoding_aborts_on_the_first_bad_row() {
    let rows = vec![board_row("a", "t", "o", 1), board_row("b", "t", "o", 2)];
    let boards: Vec<Board> = try_from_vec(rows, "Boards").unwrap_or_else(|_| panic!("decode failed"));
    assert_eq!(boards.len(), 2);
    assert_eq!(boards[0].id, "a");
    assert_eq!(boards[1].id, "b");

    let mut bad = board_row("c", "t", "o", 3);
    bad.fields.clear();
    let rows = vec![board_row("a", "t", "o", 1), bad];
    match try_from_vec::<Board>(rows, "Boards") {
        Ok(_) => panic!("a bad row decoded"),
        Err(e) => assert_eq!(e, "Failed converting Boards: Could not get id! no such column"),
    }
}

#[test]
fn entity_row_metadata_matches_the_schema() {
    assert_eq!(Board::name_single(), "Board");
    assert_eq!(Board::name_plural(), "Boards");
    assert_eq!(Board::field_names(), "id, title, owner, created_at");
    assert_eq!(Column::name_single(), "Column");
    assert_eq!(Column::field_names(), "id, board_id, title, created_at");
    let cfg = PgConfig::from_env(None, None, None, None, None, None, None)
        .unwrap_or_else(|_| panic!("defaults failed"));
    assert_eq!(Board::table_name(&cfg).as_str(), "boards");
    assert_eq!(Column::table_name(&cfg).as_str(), "columns");
    let b = board("i", "t", "o", 4);
    let values = b.row_values();
    assert_eq!(values.len(), 4);
    match &values[3] {
        SqlValue::BigInt(n) => assert_eq!(*n, 4),
        SqlValue::Text(_) => panic!("created_at must be a bigint"),
    }
}
