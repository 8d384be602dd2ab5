//! Storage keys: the name an uploaded part is stored under.
//!
//! A key is `<DDMMYYYYHHMMSS>_<category>_<file name>`: the timestamp of the
//! upload with every field zero-padded and no separators, then the part's
//! field name (used as a free-text category), then the client-supplied file
//! name, joined by underscores.

use vstd::prelude::*;
use vstd::string::StringExecFns;
use crate::timestamp::Timestamp;

verus! {

/// The character for a single decimal digit.
pub open spec fn spec_digit(d: int) -> char {
    if d == 0 {
        '0'
    } else if d == 1 {
        '1'
    } else if d == 2 {
        '2'
    } else if d == 3 {
        '3'
    } else if d == 4 {
        '4'
    } else if d == 5 {
        '5'
    } else if d == 6 {
        '6'
    } else if d == 7 {
        '7'
    } else if d == 8 {
        '8'
    } else {
        '9'
    }
}

/// A number rendered as exactly two digits, zero-padded.
pub open spec fn spec_pad2(n: int) -> Seq<char> {
    seq![spec_digit(n / 10), spec_digit(n % 10)]
}

/// A number rendered as exactly four digits, zero-padded.
pub open spec fn spec_pad4(n: int) -> Seq<char> {
    seq![
        spec_digit(n / 1000),
        spec_digit((n / 100) % 10),
        spec_digit((n / 10) % 10),
        spec_digit(n % 10),
    ]
}

/// A timestamp rendered as `DDMMYYYYHHMMSS`: day, month, four-digit year,
/// hour, minute, second, all zero-padded, with no separators.
pub open spec fn spec_timestamp_chars(ts: Timestamp) -> Seq<char> {
    spec_pad2(ts.day as int) + spec_pad2(ts.month as int) + spec_pad4(ts.year as int)
        + spec_pad2(ts.hour as int) + spec_pad2(ts.minute as int) + spec_pad2(ts.second as int)
}

/// The storage key for one part: timestamp, category and file name joined by
/// underscores.
pub open spec fn spec_key(ts: Timestamp, category: Seq<char>, file_name: Seq<char>) -> Seq<char> {
    spec_timestamp_chars(ts) + seq!['_'] + category + seq!['_'] + file_name
}

/// Appends the character of one decimal digit.
fn push_digit(s: &mut String, d: u16)
    requires
        d < 10,
    ensures
        final(s)@ == old(s)@ + seq![spec_digit(d as int)],
{
    if d == 0 {
        proof {
            reveal_strlit("0");
        }
        s.append("0");
    } else if d == 1 {
        proof {
            reveal_strlit("1");
        }
        s.append("1");
    } else if d == 2 {
        proof {
            reveal_strlit("2");
        }
        s.append("2");
    } else if d == 3 {
        proof {
            reveal_strlit("3");
        }
        s.append("3");
    } else if d == 4 {
        proof {
            reveal_strlit("4");
        }
        s.append("4");
    } else if d == 5 {
        proof {
            reveal_strlit("5");
        }
        s.append("5");
    } else if d == 6 {
        proof {
            reveal_strlit("6");
        }
        s.append("6");
    } else if d == 7 {
        proof {
            reveal_strlit("7");
        }
        s.append("7");
    } else if d == 8 {
        proof {
            reveal_strlit("8");
        }
        s.append("8");
    } else {
        proof {
            reveal_strlit("9");
        }
        s.append("9");
    }
    proof {
        assert(s@ =~= old(s)@ + seq![spec_digit(d as int)]);
    }
}

/// Appends a number below one hundred as exactly two digits.
fn push_pad2(s: &mut String, n: u16)
    requires
        n < 100,
    ensures
        final(s)@ == old(s)@ + spec_pad2(n as int),
{
    push_digit(s, n / 10);
    push_digit(s, n % 10);
    proof {
        assert(s@ =~= old(s)@ + spec_pad2(n as int));
    }
}

/// Appends a number below ten thousand as exactly four digits.
fn push_pad4(s: &mut String, n: u16)
    requires
        n < 10000,
    ensures
        final(s)@ == old(s)@ + spec_pad4(n as int),
{
    push_digit(s, n / 1000);
    push_digit(s, (n / 100) % 10);
    push_digit(s, (n / 10) % 10);
    push_digit(s, n % 10);
    proof {
        assert(s@ =~= old(s)@ + spec_pad4(n as int));
    }
}

/// Renders a timestamp as `DDMMYYYYHHMMSS`.
pub fn timestamp_string(ts: &Timestamp) -> (r: String)
    requires
        ts.wf(),
    ensures
        r@ == spec_timestamp_chars(*ts),
{
    let mut s = String::new();
    push_pad2(&mut s, ts.day as u16);
    push_pad2(&mut s, ts.month as u16);
    push_pad4(&mut s, ts.year);
    push_pad2(&mut s, ts.hour as u16);
    push_pad2(&mut s, ts.minute as u16);
    push_pad2(&mut s, ts.second as u16);
    proof {
        assert(s@ =~= spec_timestamp_chars(*ts));
    }
    s
}

/// Derives the storage key for one part from the instant of its upload, its
/// category (the multipart field name) and its client-supplied file name.
pub fn storage_key(ts: &Timestamp, category: &str, file_name: &str) -> (r: String)
    requires
        ts.wf(),
    ensures
        r@ == spec_key(*ts, category@, file_name@),
{
    let mut s = timestamp_string(ts);
    proof {
        reveal_strlit("_");
    }
    s.append("_");
    s.append(category);
    s.append("_");
    s.append(file_name);
    proof {
        assert(s@ =~= spec_key(*ts, category@, file_name@));
    }
    s
}

} // verus!
