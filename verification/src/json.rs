use vstd::prelude::*;

use crate::decimal::{i64_dec_digits, i64_to_dec};
use crate::ids::{hex_char, hex_digit_str};
use crate::models::{Board, BoardView, Column, ColumnView};

verus! {

/// Relies on String::push: appends the given character to the string.
#[verifier::external_body]
fn push_char(s: &mut String, c: char)
    ensures
        final(s)@ == old(s)@.push(c),
{
    s.push(c);
}

/// How one character appears inside a JSON string literal: quote and
/// backslash escaped, the named control escapes used where JSON has them,
/// any other control character written as a four-digit escape, everything
/// else written as itself.
pub open spec fn esc_char(c: char) -> Seq<char> {
    if c == '"' {
        seq!['\\', '"']
    } else if c == '\\' {
        seq!['\\', '\\']
    } else if c as u32 == 8 {
        seq!['\\', 'b']
    } else if c as u32 == 9 {
        seq!['\\', 't']
    } else if c as u32 == 10 {
        seq!['\\', 'n']
    } else if c as u32 == 12 {
        seq!['\\', 'f']
    } else if c as u32 == 13 {
        seq!['\\', 'r']
    } else if (c as u32) < 32 {
        let hi = hex_char((c as u32 / 16) as nat);
        let lo = hex_char((c as u32 % 16) as nat);
        seq!['\\', 'u', '0', '0', hi, lo]
    } else {
        seq![c]
    }
}

/// The body of a JSON string literal holding the characters of `s`.
pub open spec fn json_escaped(s: Seq<char>) -> Seq<char>
    decreases s.len(),
{
    if s.len() == 0 {
        Seq::empty()
    } else {
        json_escaped(s.drop_last()) + esc_char(s.last())
    }
}

/// Escapes `s` for use inside a JSON string literal.
pub fn escape_json(s: &str) -> (r: String)
    ensures
        r@ == json_escaped(s@),
{
    let n = s.unicode_len();
    let mut out = String::new();
    let mut i: usize = 0;
    proof {
        assert(s@.take(0) =~= Seq::<char>::empty());
    }
    while i < n
        invariant
            n == s@.len(),
            i <= n,
            out@ == json_escaped(s@.take(i as int)),
        decreases n - i,
    {
        let c = s.get_char(i);
        proof {
            assert(s@.take(i as int + 1).drop_last() =~= s@.take(i as int));
            assert(s@.take(i as int + 1).last() == s@[i as int]);
        }
        if c == '"' {
            out.append("\\\"");
            proof {
                reveal_strlit("\\\"");
                assert(out@ =~= json_escaped(s@.take(i as int + 1)));
            }
        } else if c == '\\' {
            out.append("\\\\");
            proof {
                reveal_strlit("\\\\");
                assert(out@ =~= json_escaped(s@.take(i as int + 1)));
            }
        } else if (c as u32) == 8 {
            out.append("\\b");
            proof {
                reveal_strlit("\\b");
                assert(out@ =~= json_escaped(s@.take(i as int + 1)));
            }
        } else if (c as u32) == 9 {
            out.append("\\t");
            proof {
                reveal_strlit("\\t");
                assert(out@ =~= json_escaped(s@.take(i as int + 1)));
            }
        } else if (c as u32) == 10 {
            out.append("\\n");
            proof {
                reveal_strlit("\\n");
                assert(out@ =~= json_escaped(s@.take(i as int + 1)));
            }
        } else if (c as u32) == 12 {
            out.append("\\f");
            proof {
                reveal_strlit("\\f");
                assert(out@ =~= json_escaped(s@.take(i as int + 1)));
            }
        } else if (c as u32) == 13 {
            out.append("\\r");
            proof {
                reveal_strlit("\\r");
                assert(out@ =~= json_escaped(s@.take(i as int + 1)));
            }
        } else if (c as u32) < 32 {
            let cv = c as u32;
            out.append("\\u00");
            out.append(hex_digit_str((cv / 16) as u64));
            out.append(hex_digit_str((cv % 16) as u64));
            proof {
                reveal_strlit("\\u00");
                assert(out@ =~= json_escaped(s@.take(i as int + 1)));
            }
        } else {
            push_char(&mut out, c);
            proof {
                assert(out@ =~= json_escaped(s@.take(i as int + 1)));
            }
        }
        i = i + 1;
    }
    proof {
        assert(s@.take(n as int) =~= s@);
    }
    out
}

/// The JSON object for a board: id, title, owner and creation time, in that
/// order.
pub open spec fn board_json(b: BoardView) -> Seq<char> {
    "{\"id\":\""@ + json_escaped(b.id) + "\",\"title\":\""@ + json_escaped(b.title)
        + "\",\"owner\":\""@ + json_escaped(b.owner) + "\",\"created_at\":"@ + i64_dec_digits(
        b.created_at,
    ) + "}"@
}

/// The JSON object for a column.
pub open spec fn column_json(c: ColumnView) -> Seq<char> {
    "{\"id\":\""@ + json_escaped(c.id) + "\",\"board_id\":\""@ + json_escaped(c.board_id)
        + "\",\"title\":\""@ + json_escaped(c.title) + "\",\"created_at\":"@ + i64_dec_digits(
        c.created_at,
    ) + "}"@
}

impl Board {
    /// The JSON this board is served as.
    pub fn to_json(&self) -> (r: String)
        ensures
            r@ == board_json(self@),
    {
        let mut s = "{\"id\":\"".to_string();
        let id_esc = escape_json(self.id.as_str());
        s.append(id_esc.as_str());
        s.append("\",\"title\":\"");
        let title_esc = escape_json(self.title.as_str());
        s.append(title_esc.as_str());
        s.append("\",\"owner\":\"");
        let owner_esc = escape_json(self.owner.as_str());
        s.append(owner_esc.as_str());
        s.append("\",\"created_at\":");
        let ts = i64_to_dec(self.created_at);
        s.append(ts.as_str());
        s.append("}");
        proof {
            assert(s@ =~= board_json(self@));
        }
        s
    }
}

impl Column {
    /// The JSON this column is served as.
    pub fn to_json(&self) -> (r: String)
        ensures
            r@ == column_json(self@),
    {
        let mut s = "{\"id\":\"".to_string();
        let id_esc = escape_json(self.id.as_str());
        s.append(id_esc.as_str());
        s.append("\",\"board_id\":\"");
        let bid_esc = escape_json(self.board_id.as_str());
        s.append(bid_esc.as_str());
        s.append("\",\"title\":\"");
        let title_esc = escape_json(self.title.as_str());
        s.append(title_esc.as_str());
        s.append("\",\"created_at\":");
        let ts = i64_to_dec(self.created_at);
        s.append(ts.as_str());
        s.append("}");
        proof {
            assert(s@ =~= column_json(self@));
        }
        s
    }
}

/// The comma-separated members of a JSON array of boards, in order.
pub open spec fn boards_json_items(s: Seq<BoardView>) -> Seq<char>
    decreases s.len(),
{
    if s.len() == 0 {
        Seq::empty()
    } else if s.len() == 1 {
        board_json(s[0])
    } else {
        boards_json_items(s.drop_last()) + seq![','] + board_json(s.last())
    }
}

/// The JSON array of boards, in the order given.
pub open spec fn boards_json(s: Seq<BoardView>) -> Seq<char> {
    seq!['['] + boards_json_items(s) + seq![']']
}

/// Serializes a list of boards as one JSON array, in the order given.
pub fn boards_to_json(items: &Vec<Board>) -> (r: String)
    ensures
        r@ == boards_json(items@.map_values(|b: Board| b@)),
{
    let ghost full = items@.map_values(|b: Board| b@);
    let mut s = "[".to_string();
    let n = items.len();
    let mut i: usize = 0;
    proof {
        reveal_strlit("[");
        assert(full.take(0) =~= Seq::<BoardView>::empty());
        assert(s@ =~= seq!['['] + boards_json_items(full.take(0)));
    }
    while i < n
        invariant
            n == items@.len(),
            full == items@.map_values(|b: Board| b@),
            i <= n,
            s@ == seq!['['] + boards_json_items(full.take(i as int)),
        decreases n - i,
    {
        if i > 0 {
            s.append(",");
        }
        let one = items[i].to_json();
        s.append(one.as_str());
        proof {
            reveal_strlit(",");
            assert(full.take(i as int + 1).drop_last() =~= full.take(i as int));
            assert(full.take(i as int + 1).last() == full[i as int]);
            assert(full[i as int] == items@[i as int]@);
            assert(s@ =~= seq!['['] + boards_json_items(full.take(i as int + 1)));
        }
        i = i + 1;
    }
    s.append("]");
    proof {
        reveal_strlit("]");
        assert(full.take(n as int) =~= full);
        assert(s@ =~= boards_json(full));
    }
    s
}

} // verus!
