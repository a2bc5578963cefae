use vstd::prelude::*;

use crate::ids::{board_id_chars, is_hex_id, make_board_id, random_u64};
use crate::models::{boards_with_id, Board, BoardView, CreateBoard, Service, Storage};
use crate::time_provider::TimeProvider;

verus! {

/// An HTTP response as the handlers produce it: a status code and a body.
pub struct Reply {
    pub status: u16,
    pub body: String,
}

/// Whether the transport-reported caller address passes the address check: an address
/// must be present and must not be the placeholder `0.0.0.0`.
pub open spec fn valid_remote_addr(addr: Option<String>) -> bool {
    match addr {
        Some(a) => a@ != "0.0.0.0"@,
        None => false,
    }
}

/// The address check run before the id-bearing endpoints. It performs no counting and
/// has no time dimension: it only rejects a missing or placeholder address,
/// with 429 and an empty body.
pub fn check_rate_limit(remote_addr: &Option<String>) -> (r: Result<bool, Reply>)
    ensures
        match r {
            Ok(ok) => ok && valid_remote_addr(*remote_addr),
            Err(rep) => !valid_remote_addr(*remote_addr) && rep.status == 429 && rep.body@
                == Seq::<char>::empty(),
        },
{
    let placeholder = "0.0.0.0".to_string();
    let valid_ip = match remote_addr {
        Some(ip) => !(*ip == placeholder),
        None => false,
    };
    if valid_ip {
        Ok(true)
    } else {
        Err(Reply { status: 429, body: String::new() })
    }
}

/// Creates a board: the address check, then server-assigned creation time and id, then
/// one insert. On success the created board is returned (the HTTP layer
/// serializes it with status 200); a storage failure maps to 500 with the
/// message in the body.
pub fn add<T: TimeProvider, S: Storage>(
    service: &mut Service<T, S>,
    remote_addr: &Option<String>,
    payload: &CreateBoard,
) -> (r: Result<Board, Reply>)
    ensures
        final(service).config == old(service).config,
        final(service).time_provider == old(service).time_provider,
        final(service).storage.fail_msg() == old(service).storage.fail_msg(),
        final(service).storage.total() == old(service).storage.total(),
        final(service).storage.columns() == old(service).storage.columns(),
        !valid_remote_addr(*remote_addr) ==> (r matches Err(rep)
            && rep.status == 429
            && rep.body@ == Seq::<char>::empty()
            && final(service).storage == old(service).storage),
        valid_remote_addr(*remote_addr) ==> match r {
            Ok(b) => {
                &&& old(service).storage.fail_msg() is None
                &&& b@.title == payload.title@
                &&& b@.owner == payload.owner@
                &&& (old(service).time_provider.fixed() matches Some(t) ==> b@.created_at
                    == t as int)
                &&& is_hex_id(b@.id)
                &&& exists|rnd: u64, now: i64|
                    now as int == b@.created_at && b@.id == board_id_chars(now, rnd)
                &&& final(service).storage.boards() == old(service).storage.boards().push(b@)
            },
            Err(rep) => {
                &&& rep.status == 500
                &&& !old(service).storage.total()
                &&& final(service).storage.boards() == old(service).storage.boards()
                &&& (old(service).storage.fail_msg() matches Some(m) ==> rep.body@
                    == "Add board failed! "@ + m)
            },
        },
{
    match check_rate_limit(remote_addr) {
        Err(rep) => Err(rep),
        Ok(_) => {
            let now = service.time_provider.unix_ts_ms();
            let n = random_u64();
            let id = make_board_id(now, n);
            let item = Board::new(id, payload, now);
            match service.storage.add_board(&item) {
                Ok(_) => {
                    proof {
                        assert(now as int == item@.created_at && item@.id == board_id_chars(
                            now,
                            n,
                        ));
                    }
                    Ok(item)
                },
                Err(why) => Err(
                    Reply {
                        status: 500,
                        body: "Add board failed! ".to_string().concat(why.as_str()),
                    },
                ),
            }
        },
    }
}

/// Lists all boards. No address check. Success is the rows in some order; a storage
/// failure maps to 500 with the message in the body.
pub fn list<T: TimeProvider, S: Storage>(service: &Service<T, S>) -> (r: Result<Vec<Board>, Reply>)
    ensures
        match r {
            Ok(v) => service.storage.fail_msg() is None && v@.map_values(
                |b: Board| b@,
            ).to_multiset() == service.storage.boards().to_multiset(),
            Err(rep) => rep.status == 500 && !service.storage.total() && (
            service.storage.fail_msg() matches Some(m) ==> rep.body@ == "List boards failed! "@
                + m),
        },
{
    match service.storage.list_boards() {
        Ok(items) => Ok(items),
        Err(why) => Err(
            Reply { status: 500, body: "List boards failed! ".to_string().concat(why.as_str()) },
        ),
    }
}

/// Fetches the board with the given id: the address check, then a keyed lookup. A board
/// is returned only where the storage holds exactly one row with that id;
/// every failure maps to 404 with the id and the message in the body.
pub fn get<T: TimeProvider, S: Storage>(
    service: &Service<T, S>,
    remote_addr: &Option<String>,
    id: &String,
) -> (r: Result<Board, Reply>)
    ensures
        !valid_remote_addr(*remote_addr) ==> (r matches Err(rep)
            && rep.status == 429
            && rep.body@ == Seq::<char>::empty()),
        valid_remote_addr(*remote_addr) ==> match r {
            Ok(b) => {
                &&& service.storage.fail_msg() is None
                &&& boards_with_id(service.storage.boards(), id@).len() == 1
                &&& b@ == boards_with_id(service.storage.boards(), id@)[0]
            },
            Err(rep) => {
                &&& rep.status == 404
                &&& (service.storage.total() ==> boards_with_id(
                    service.storage.boards(),
                    id@,
                ).len() != 1)
                &&& exists|why: Seq<char>|
                    rep.body@ == "Could not find board for id "@ + id@ + ": "@ + why
                &&& (service.storage.fail_msg() matches Some(m) ==> rep.body@
                    == "Could not find board for id "@ + id@ + ": "@ + m)
            },
        },
{
    match check_rate_limit(remote_addr) {
        Err(rep) => Err(rep),
        Ok(_) => {
            match service.storage.get_board(id) {
                Ok(item) => Ok(item),
                Err(why) => {
                    let body = "Could not find board for id ".to_string().concat(
                        id.as_str(),
                    ).concat(": ").concat(why.as_str());
                    proof {
                        assert(body@ == "Could not find board for id "@ + id@ + ": "@ + why@);
                    }
                    Err(Reply { status: 404, body })
                },
            }
        },
    }
}

/// Deletes the board with the given id: the address check, then one delete statement.
/// Both a delete that removed a row and one that matched nothing map to 200
/// "Board deleted" (the storage-layer boolean is where the two outcomes stay
/// distinguishable); a storage failure maps to 500.
pub fn delete<T: TimeProvider, S: Storage>(
    service: &mut Service<T, S>,
    remote_addr: &Option<String>,
    id: &String,
) -> (r: Reply)
    ensures
        final(service).config == old(service).config,
        final(service).time_provider == old(service).time_provider,
        final(service).storage.fail_msg() == old(service).storage.fail_msg(),
        final(service).storage.total() == old(service).storage.total(),
        final(service).storage.columns() == old(service).storage.columns(),
        !valid_remote_addr(*remote_addr) ==> (r.status == 429
            && r.body@ == Seq::<char>::empty()
            && final(service).storage == old(service).storage),
        valid_remote_addr(*remote_addr) ==> {
            &&& r.status == 200 || r.status == 500
            &&& (r.status == 200 ==> {
                &&& r.body@ == "Board deleted"@
                &&& old(service).storage.fail_msg() is None
                &&& final(service).storage.boards() == old(service).storage.boards().filter(
                    |b: BoardView| b.id != id@,
                )
            })
            &&& (r.status == 500 ==> {
                &&& !old(service).storage.total()
                &&& final(service).storage.boards() == old(service).storage.boards()
                &&& (old(service).storage.fail_msg() matches Some(m) ==> r.body@
                    == "Delete board failed! "@ + m)
            })
        },
{
    match check_rate_limit(remote_addr) {
        Err(rep) => rep,
        Ok(_) => {
            match service.storage.delete_board(id) {
                Ok(_) => Reply { status: 200, body: "Board deleted".to_string() },
                Err(why) => Reply {
                    status: 500,
                    body: "Delete board failed! ".to_string().concat(why.as_str()),
                },
            }
        },
    }
}

/// The DELETE route for boards, as bound by the server.
pub fn delete_board<T: TimeProvider, S: Storage>(
    service: &mut Service<T, S>,
    remote_addr: &Option<String>,
    id: &String,
) -> (r: Reply)
    ensures
        final(service).config == old(service).config,
        final(service).time_provider == old(service).time_provider,
        final(service).storage.fail_msg() == old(service).storage.fail_msg(),
        final(service).storage.total() == old(service).storage.total(),
        final(service).storage.columns() == old(service).storage.columns(),
        !valid_remote_addr(*remote_addr) ==> (r.status == 429
            && r.body@ == Seq::<char>::empty()
            && final(service).storage == old(service).storage),
        valid_remote_addr(*remote_addr) ==> {
            &&& r.status == 200 || r.status == 500
            &&& (r.status == 200 ==> {
                &&& r.body@ == "Board deleted"@
                &&& old(service).storage.fail_msg() is None
                &&& final(service).storage.boards() == old(service).storage.boards().filter(
                    |b: BoardView| b.id != id@,
                )
            })
            &&& (r.status == 500 ==> {
                &&& !old(service).storage.total()
                &&& final(service).storage.boards() == old(service).storage.boards()
                &&& (old(service).storage.fail_msg() matches Some(m) ==> r.body@
                    == "Delete board failed! "@ + m)
            })
        },
{
    delete(service, remote_addr, id)
}

/// The catch-all route: anything that matches no route is a 404.
pub fn not_found() -> (r: Reply)
    ensures
        r.status == 404,
        r.body@ == "404 DNE"@,
{
    Reply { status: 404, body: "404 DNE".to_string() }
}

} // verus!
