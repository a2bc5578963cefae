use bareretro::handlers;
use bareretro::invalid::InvalidStorage;
use bareretro::mem::MemStorage;
use bareretro::models::{
    choose_storage, Board, Config, CreateBoard, Column, Service, Storage, StorageChoice,
};
use bareretro::time_provider::{FixedTimeProvider, SystemTimeProvider, TimeProvider};

fn mem_service(ts_ms: i64) -> Service<FixedTimeProvider, MemStorage> {
    Service {
        time_provider: FixedTimeProvider { ts_ms },
        config: Config { provider: String::new() },
        storage: MemStorage::new(),
    }
}

fn invalid_service(error: &str) -> Service<FixedTimeProvider, InvalidStorage> {
    Service {
        time_provider: FixedTimeProvider { ts_ms: 7 },
        config: Config { provider: String::new() },
        storage: InvalidStorage { error: error.to_string() },
    }
}

fn good_addr() -> Option<String> {
    Some("10.0.0.9".to_string())
}

fn payload(title: &str, owner: &str) -> CreateBoard {
    CreateBoard { title: title.to_string(), owner: owner.to_string() }
}

fn is_hex_id_str(s: &str) -> bool {
    s.len() == 32 && s.chars().all(|c| matches!(c, '0'..='9' | 'a'..='f'))
}

#[test]
fn created_board_has_assigned_fields() {
    let mut svc = mem_service(123456789);
    let r = handlers::add(&mut svc, &good_addr(), &payload("Sprint 1", "alice"));
    let board = r.unwrap_or_else(|_| panic!("add failed"));
    assert!(is_hex_id_str(&board.id));
    assert_eq!(board.created_at, 123456789);
    assert_eq!(board.title, "Sprint 1");
    assert_eq!(board.owner, "alice");
}

#[test]
fn same_clock_boards_get_distinct_ids() {
    let mut svc = mem_service(42);
    let a = handlers::add(&mut svc, &good_addr(), &payload("a", "o"));
    let b = handlers::add(&mut svc, &good_addr(), &payload("b", "o"));
    let a = a.unwrap_or_else(|_| panic!("add failed"));
    let b = b.unwrap_or_else(|_| panic!("add failed"));
    assert_eq!(a.created_at, b.created_at);
    assert!(is_hex_id_str(&a.id));
    assert!(is_hex_id_str(&b.id));
    assert_ne!(a.id, b.id);
}

#[test]
fn get_nonexistent_is_not_found() {
    let svc = mem_service(1);
    let missing = "00000000000000000000000000000000".to_string();
    match handlers::get(&svc, &good_addr(), &missing) {
        Ok(_) => panic!("a board was decoded for a nonexistent id"),
        Err(rep) => {
            assert_eq!(rep.status, 404);
            assert!(rep.body.starts_with("Could not find board for id "));
        }
    }
    assert!(svc.storage.get_board(&missing).is_err());
}

#[test]
fn delete_boolean_distinguishes_missing_from_existing() {
    let mut svc = mem_service(5);
    let board = handlers::add(&mut svc, &good_addr(), &payload("t", "o"))
        .unwrap_or_else(|_| panic!("add failed"));
    // The storage-layer boolean: true exactly when a row was deleted.
    assert_eq!(svc.storage.delete_board(&board.id), Ok(true));
    assert_eq!(svc.storage.delete_board(&board.id), Ok(false));
    let missing = "ffffffffffffffffffffffffffffffff".to_string();
    assert_eq!(svc.storage.delete_board(&missing), Ok(false));
}

#[test]
fn list_holds_all_boards_as_a_set() {
    let mut svc = mem_service(9);
    let a = handlers::add(&mut svc, &good_addr(), &payload("one", "x"))
        .unwrap_or_else(|_| panic!("add failed"));
    let b = handlers::add(&mut svc, &good_addr(), &payload("two", "y"))
        .unwrap_or_else(|_| panic!("add failed"));
    let listed = handlers::list(&svc).unwrap_or_else(|_| panic!("list failed"));
    let mut got: Vec<String> = listed.iter().map(|x| x.id.clone()).collect();
    let mut want = vec![a.id.clone(), b.id.clone()];
    got.sort();
    want.sort();
    assert_eq!(got, want);
}

#[test]
fn placeholder_address_is_rejected_without_side_effect() {
    let mut svc = mem_service(3);
    let bad = Some("0.0.0.0".to_string());
    match handlers::add(&mut svc, &bad, &payload("t", "o")) {
        Ok(_) => panic!("the address check passed a placeholder address"),
        Err(rep) => {
            assert_eq!(rep.status, 429);
            assert_eq!(rep.body, "");
        }
    }
    match handlers::add(&mut svc, &None, &payload("t", "o")) {
        Ok(_) => panic!("the address check passed a missing address"),
        Err(rep) => assert_eq!(rep.status, 429),
    }
    assert_eq!(svc.storage.boards.len(), 0);
    let id = "00000000000000000000000000000000".to_string();
    match handlers::get(&svc, &bad, &id) {
        Ok(_) => panic!("the address check passed a placeholder address"),
        Err(rep) => assert_eq!(rep.status, 429),
    }
    let rep = handlers::delete(&mut svc, &bad, &id);
    assert_eq!(rep.status, 429);
    assert_eq!(svc.storage.boards.len(), 0);
}

#[test]
fn create_get_delete_round_trip() {
    let mut svc = mem_service(1700000000000);
    let board = handlers::add(&mut svc, &good_addr(), &payload("Sprint 1", "alice"))
        .unwrap_or_else(|_| panic!("add failed"));
    let fetched = handlers::get(&svc, &good_addr(), &board.id)
        .unwrap_or_else(|_| panic!("get failed"));
    assert_eq!(fetched.id, board.id);
    assert_eq!(fetched.title, "Sprint 1");
    assert_eq!(fetched.owner, "alice");
    assert_eq!(fetched.created_at, 1700000000000);
    let rep = handlers::delete_board(&mut svc, &good_addr(), &board.id);
    assert_eq!(rep.status, 200);
    assert_eq!(rep.body, "Board deleted");
    match handlers::get(&svc, &good_addr(), &board.id) {
        Ok(_) => panic!("deleted board was still served"),
        Err(rep) => assert_eq!(rep.status, 404),
    }
}

#[test]
fn unset_provider_degrades_to_failing_storage() {
    let config = Config::from_env(None);
    assert_eq!(config.provider, "");
    let message = match choose_storage(&config.provider) {
        StorageChoice::Postgres => panic!("empty provider selected the SQL backend"),
        StorageChoice::Invalid(m) => m,
    };
    assert_eq!(message, "Invalid or no storage provider given! ''");
    let mut svc = invalid_service(&message);
    match handlers::add(&mut svc, &good_addr(), &payload("t", "o")) {
        Ok(_) => panic!("degraded storage accepted a board"),
        Err(rep) => {
            assert_eq!(rep.status, 500);
            assert_eq!(rep.body, "Add board failed! Invalid or no storage provider given! ''");
        }
    }
    match handlers::list(&svc) {
        Ok(_) => panic!("degraded storage listed boards"),
        Err(rep) => {
            assert_eq!(rep.status, 500);
            assert_eq!(rep.body, "List boards failed! Invalid or no storage provider given! ''");
        }
    }
    let id = "0".to_string();
    match handlers::get(&svc, &good_addr(), &id) {
        Ok(_) => panic!("degraded storage served a board"),
        Err(rep) => {
            assert_eq!(rep.status, 404);
            assert_eq!(
                rep.body,
                "Could not find board for id 0: Invalid or no storage provider given! ''"
            );
        }
    }
    let rep = handlers::delete(&mut svc, &good_addr(), &id);
    assert_eq!(rep.status, 500);
    assert_eq!(rep.body, "Delete board failed! Invalid or no storage provider given! ''");
    let rep = handlers::not_found();
    assert_eq!(rep.status, 404);
    assert_eq!(rep.body, "404 DNE");
}

#[test]
fn provider_postgres_is_recognized() {
    match choose_storage(&"postgres".to_string()) {
        StorageChoice::Postgres => {}
        StorageChoice::Invalid(_) => panic!("postgres provider was not recognized"),
    }
    match choose_storage(&"mysql".to_string()) {
        StorageChoice::Postgres => panic!("unknown provider selected the SQL backend"),
        StorageChoice::Invalid(m) => {
            assert_eq!(m, "Invalid or no storage provider given! 'mysql'")
        }
    }
}

#[test]
fn invalid_storage_fails_every_operation() {
    let mut s = InvalidStorage { error: "down".to_string() };
    let board = Board {
        id: "a".to_string(),
        title: "t".to_string(),
        owner: "o".to_string(),
        created_at: 1,
    };
    let column = Column {
        id: "c".to_string(),
        board_id: "a".to_string(),
        title: "t".to_string(),
        created_at: 1,
    };
    assert_eq!(s.name(), "INVALID");
    let id = "a".to_string();
    assert_eq!(s.add_board(&board), Err("down".to_string()));
    assert!(s.list_boards().is_err());
    assert!(s.get_board(&id).is_err());
    assert_eq!(s.delete_board(&id), Err("down".to_string()));
    assert_eq!(s.add_column(&column), Err("down".to_string()));
    assert!(s.list_columns().is_err());
    assert!(s.get_column(&id).is_err());
    assert_eq!(s.delete_column(&id), Err("down".to_string()));
}

#[test]
fn columns_have_the_same_storage_mechanics() {
    let mut s = MemStorage::new();
    assert_eq!(s.name(), "Memory");
    let column = Column {
        id: "c1".to_string(),
        board_id: "b1".to_string(),
        title: "todo".to_string(),
        created_at: 10,
    };
    assert_eq!(s.add_column(&column), Ok(true));
    let got = s.get_column(&"c1".to_string()).unwrap_or_else(|_| panic!("get failed"));
    assert_eq!(got.board_id, "b1");
    assert_eq!(got.title, "todo");
    let listed = s.list_columns().unwrap_or_else(|_| panic!("list failed"));
    assert_eq!(listed.len(), 1);
    assert_eq!(s.delete_column(&"c1".to_string()), Ok(true));
    assert_eq!(s.delete_column(&"c1".to_string()), Ok(false));
}

#[test]
fn duplicate_ids_are_not_rejected_and_fail_keyed_lookup() {
    let mut s = MemStorage::new();
    let mk = |title: &str| Board {
        id: "same".to_string(),
        title: title.to_string(),
        owner: "o".to_string(),
        created_at: 0,
    };
    assert_eq!(s.add_board(&mk("first")), Ok(true));
    assert_eq!(s.add_board(&mk("second")), Ok(true));
    // More than one matching row is a failure, like the driver's
    // exactly-one-row lookup.
    assert!(s.get_board(&"same".to_string()).is_err());
    // The delete removes every matching row.
    assert_eq!(s.delete_board(&"same".to_string()), Ok(true));
    assert_eq!(s.boards.len(), 0);
}

#[test]
fn wall_clock_provider_reports_nonnegative_time() {
    let tp = SystemTimeProvider {};
    assert!(tp.unix_ts_ms() >= 0);
    let fixed = FixedTimeProvider { ts_ms: 77 };
    assert_eq!(fixed.unix_ts_ms(), 77);
}

#[test]
fn env_var_string_prefers_the_set_value() {
    assert_eq!(
        Config::env_var_string(Some("a".to_string()), "d".to_string()),
        "a"
    );
    assert_eq!(Config::env_var_string(None, "d".to_string()), "d");
    let c = Config::from_env(Some("postgres".to_string()));
    assert_eq!(c.provider, "postgres");
}
