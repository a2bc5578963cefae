use vstd::prelude::*;

use crate::decimal::dec_digits;
use crate::models::{Config, MyError};

verus! {

/// Whether `c` is a decimal digit.
pub open spec fn is_dec_digit(c: char) -> bool {
    c == '0' || c == '1' || c == '2' || c == '3' || c == '4' || c == '5' || c == '6' || c == '7'
        || c == '8' || c == '9'
}

/// The numeric value of a decimal digit (anything else counts as zero).
pub open spec fn char_digit(c: char) -> nat {
    if c == '1' {
        1
    } else if c == '2' {
        2
    } else if c == '3' {
        3
    } else if c == '4' {
        4
    } else if c == '5' {
        5
    } else if c == '6' {
        6
    } else if c == '7' {
        7
    } else if c == '8' {
        8
    } else if c == '9' {
        9
    } else {
        0
    }
}

/// The number the digit characters of `s` denote, most significant first.
pub open spec fn digits_value(s: Seq<char>) -> nat
    decreases s.len(),
{
    if s.len() == 0 {
        0
    } else {
        digits_value(s.drop_last()) * 10 + char_digit(s.last())
    }
}

/// The digit part of a number string: everything after an optional leading
/// plus sign.
pub open spec fn u16_body(s: Seq<char>) -> Seq<char> {
    if s.len() > 0 && s[0] == '+' {
        s.drop_first()
    } else {
        s
    }
}

/// Whether `s` parses as a u16: an optional `+`, then at least one digit and
/// nothing else, denoting a value of at most 65535.
pub open spec fn is_valid_u16_string(s: Seq<char>) -> bool {
    let b = u16_body(s);
    b.len() > 0 && (forall|i: int| 0 <= i < b.len() ==> is_dec_digit(b[i])) && digits_value(b)
        <= 65535
}

/// A longer digit string never denotes a smaller number.
proof fn lemma_digits_value_prefix(s: Seq<char>, j: int)
    requires
        0 <= j <= s.len(),
    ensures
        digits_value(s.take(j)) <= digits_value(s),
    decreases s.len() - j,
{
    if j < s.len() {
        assert(s.take(j + 1).drop_last() =~= s.take(j));
        assert(digits_value(s.take(j + 1)) == digits_value(s.take(j)) * 10 + char_digit(
            s.take(j + 1).last(),
        ));
        lemma_digits_value_prefix(s, j + 1);
        assert(s.take(s.len() as int) =~= s);
    } else {
        assert(s.take(j) =~= s);
    }
}

/// The value of a decimal digit character, or `None` for any other one.
fn dec_digit_of(c: char) -> (r: Option<u32>)
    ensures
        match r {
            Some(d) => is_dec_digit(c) && d < 10 && d as nat == char_digit(c),
            None => !is_dec_digit(c),
        },
{
    match c {
        '0' => Some(0),
        '1' => Some(1),
        '2' => Some(2),
        '3' => Some(3),
        '4' => Some(4),
        '5' => Some(5),
        '6' => Some(6),
        '7' => Some(7),
        '8' => Some(8),
        '9' => Some(9),
        _ => None,
    }
}

/// Parses a u16 the way the standard parser does: an optional `+`, then
/// digits; `None` for an empty body, a stray character, or a value over
/// 65535.
pub fn parse_u16(s: &String) -> (r: Option<u16>)
    ensures
        match r {
            Some(v) => is_valid_u16_string(s@) && v as nat == digits_value(u16_body(s@)),
            None => !is_valid_u16_string(s@),
        },
{
    let slen = s.as_str().unicode_len();
    let start: usize = if slen > 0 && s.as_str().get_char(0) == '+' {
        1
    } else {
        0
    };
    let ghost body = u16_body(s@);
    proof {
        assert(body.len() == slen - start);
        assert(forall|j: int| 0 <= j < body.len() ==> body[j] == s@[start + j]);
    }
    let blen = slen - start;
    if blen == 0 {
        return None;
    }
    let mut acc: u32 = 0;
    let mut k: usize = 0;
    while k < blen
        invariant
            s@.len() == slen,
            body == u16_body(s@),
            start <= 1,
            blen == slen - start,
            body.len() == blen,
            forall|j: int| 0 <= j < body.len() ==> body[j] == s@[start + j],
            k <= blen,
            forall|j: int| 0 <= j < k ==> is_dec_digit(body[j]),
            acc as nat == digits_value(body.take(k as int)),
            acc <= 65535,
        decreases blen - k,
    {
        let c = s.as_str().get_char(start + k);
        proof {
            assert(c == body[k as int]);
        }
        match dec_digit_of(c) {
            None => {
                return None;
            },
            Some(d) => {
                let v = acc * 10 + d;
                proof {
                    assert(body.take(k as int + 1).drop_last() =~= body.take(k as int));
                    assert(body.take(k as int + 1).last() == body[k as int]);
                }
                if v > 65535 {
                    proof {
                        lemma_digits_value_prefix(body, k as int + 1);
                    }
                    return None;
                }
                acc = v;
                k = k + 1;
            },
        }
    }
    proof {
        assert(body.take(blen as int) =~= body);
    }
    Some(acc as u16)
}

/// The value of an optionally-set variable, or the default.
pub open spec fn or_default(v: Option<String>, d: Seq<char>) -> Seq<char> {
    match v {
        Some(x) => x@,
        None => d,
    }
}

/// Connection parameters for the SQL-backed storage, as plain values: the
/// pool itself is built outside the library from these.
pub struct PgConfig {
    pub host: String,
    pub port: u16,
    pub user: String,
    pub password: String,
    pub dbname: String,
    pub schema: String,
    pub table_boards: String,
    pub table_columns: String,
}

impl PgConfig {
    /// Builds the connection parameters from the environment values handed
    /// in by the caller, applying the documented defaults; only a port that
    /// does not parse is an error, and the message embeds the bad value.
    pub fn from_env(
        host: Option<String>,
        port: Option<String>,
        user: Option<String>,
        password: Option<String>,
        dbname: Option<String>,
        schema: Option<String>,
        table_boards: Option<String>,
    ) -> (r: Result<PgConfig, MyError>)
        ensures
            match r {
                Ok(cfg) => {
                    &&& is_valid_u16_string(or_default(port, "5432"@))
                    &&& cfg.port as nat == digits_value(u16_body(or_default(port, "5432"@)))
                    &&& cfg.host@ == or_default(host, "postgres"@)
                    &&& cfg.user@ == or_default(user, "postgres"@)
                    &&& cfg.password@ == or_default(password, Seq::<char>::empty())
                    &&& cfg.dbname@ == or_default(dbname, "postgres"@)
                    &&& cfg.schema@ == or_default(schema, "bareretro"@)
                    &&& cfg.table_boards@ == or_default(table_boards, "boards"@)
                    &&& cfg.table_columns@ == "columns"@
                },
                Err(e) => {
                    &&& !is_valid_u16_string(or_default(port, "5432"@))
                    &&& e@ == "Port is not a valid number! '"@ + or_default(port, "5432"@)
                        + "'"@
                },
            },
    {
        let host_s = Config::env_var_string(host, "postgres".to_string());
        let port_s = Config::env_var_string(port, "5432".to_string());
        let user_s = Config::env_var_string(user, "postgres".to_string());
        let pass_s = Config::env_var_string(password, String::new());
        let db_s = Config::env_var_string(dbname, "postgres".to_string());
        let schema_s = Config::env_var_string(schema, "bareretro".to_string());
        let tb_s = Config::env_var_string(table_boards, "boards".to_string());
        match parse_u16(&port_s) {
            None => Err(
                "Port is not a valid number! '".to_string().concat(port_s.as_str()).concat("'"),
            ),
            Some(p) => Ok(
                PgConfig {
                    host: host_s,
                    port: p,
                    user: user_s,
                    password: pass_s,
                    dbname: db_s,
                    schema: schema_s,
                    table_boards: tb_s,
                    table_columns: "columns".to_string(),
                },
            ),
        }
    }
}

/// The positional-parameter list `$1, $2, ..., $n`.
pub open spec fn placeholders(n: nat) -> Seq<char>
    decreases n,
{
    if n == 0 {
        Seq::empty()
    } else if n == 1 {
        seq!['$'] + dec_digits(1)
    } else {
        placeholders((n - 1) as nat) + seq![',', ' ', '$'] + dec_digits(n)
    }
}

/// One positional parameter per value: `$1, $2, ..., $n` for `n` values.
pub fn values_str<T>(values: &Vec<T>) -> (r: String)
    ensures
        r@ == placeholders(values@.len()),
{
    placeholders_string(values.len())
}

/// The positional-parameter list for `n` parameters, as a string.
pub fn placeholders_string(n: usize) -> (r: String)
    ensures
        r@ == placeholders(n as nat),
{
    let mut s = String::new();
    let mut i: usize = 0;
    while i < n
        invariant
            i <= n,
            s@ == placeholders(i as nat),
        decreases n - i,
    {
        i = i + 1;
        if i == 1 {
            s.append("$");
        } else {
            s.append(", $");
        }
        let d = crate::decimal::u64_to_dec(i as u64);
        s.append(d.as_str());
        proof {
            reveal_strlit("$");
            reveal_strlit(", $");
            assert(s@ =~= placeholders(i as nat));
        }
    }
    s
}

/// The insert statement for one row of `n_values` positional parameters.
pub fn insert_statement(
    schema: &String,
    table: &String,
    fields: &str,
    n_values: usize,
) -> (r: String)
    ensures
        r@ == "INSERT INTO "@ + schema@ + "."@ + table@ + " ("@ + fields@ + ") VALUES ("@
            + placeholders(n_values as nat) + ")"@,
{
    let mut s = "INSERT INTO ".to_string();
    s.append(schema.as_str());
    s.append(".");
    s.append(table.as_str());
    s.append(" (");
    s.append(fields);
    s.append(") VALUES (");
    let ph = placeholders_string(n_values);
    s.append(ph.as_str());
    s.append(")");
    proof {
        assert(s@ =~= "INSERT INTO "@ + schema@ + "."@ + table@ + " ("@ + fields@ + ") VALUES ("@
            + placeholders(n_values as nat) + ")"@);
    }
    s
}

/// The list statement: every row of the table, named fields only.
pub fn list_statement(fields: &str, schema: &String, table: &String) -> (r: String)
    ensures
        r@ == "SELECT "@ + fields@ + " FROM "@ + schema@ + "."@ + table@,
{
    let mut s = "SELECT ".to_string();
    s.append(fields);
    s.append(" FROM ");
    s.append(schema.as_str());
    s.append(".");
    s.append(table.as_str());
    proof {
        assert(s@ =~= "SELECT "@ + fields@ + " FROM "@ + schema@ + "."@ + table@);
    }
    s
}

/// The keyed lookup statement: the one row whose id is the parameter.
pub fn get_statement(schema: &String, table: &String) -> (r: String)
    ensures
        r@ == "SELECT * FROM "@ + schema@ + "."@ + table@ + " WHERE id = $1"@,
{
    let mut s = "SELECT * FROM ".to_string();
    s.append(schema.as_str());
    s.append(".");
    s.append(table.as_str());
    s.append(" WHERE id = $1");
    proof {
        assert(s@ =~= "SELECT * FROM "@ + schema@ + "."@ + table@ + " WHERE id = $1"@);
    }
    s
}

/// The delete statement: every row whose id is the parameter.
pub fn delete_statement(schema: &String, table: &String) -> (r: String)
    ensures
        r@ == "DELETE FROM "@ + schema@ + "."@ + table@ + " WHERE id = $1"@,
{
    let mut s = "DELETE FROM ".to_string();
    s.append(schema.as_str());
    s.append(".");
    s.append(table.as_str());
    s.append(" WHERE id = $1");
    proof {
        assert(s@ =~= "DELETE FROM "@ + schema@ + "."@ + table@ + " WHERE id = $1"@);
    }
    s
}

} // verus!
