//! Deterministic textual forms for the plain values that appear in rendered
//! metadata: decimal numerals, quoted strings, byte lists, and option
//! wrappers. Each executable function is proved to return exactly the text
//! that its spec-level counterpart describes.

use vstd::prelude::*;
use vstd::string::StringExecFns;

use crate::types::StorageModifier;

verus! {

/// The decimal digit character for `d`, for `d < 10`.
pub open spec fn spec_digit(d: nat) -> Seq<char> {
    if d == 0 {
        "0"@
    } else if d == 1 {
        "1"@
    } else if d == 2 {
        "2"@
    } else if d == 3 {
        "3"@
    } else if d == 4 {
        "4"@
    } else if d == 5 {
        "5"@
    } else if d == 6 {
        "6"@
    } else if d == 7 {
        "7"@
    } else if d == 8 {
        "8"@
    } else {
        "9"@
    }
}

/// The decimal numeral for `n`, most significant digit first, no sign and
/// no leading zeros (a single zero for `n == 0`).
pub open spec fn spec_dec(n: nat) -> Seq<char>
    decreases n,
{
    if n < 10 {
        spec_digit(n)
    } else {
        spec_dec(n / 10) + spec_digit(n % 10)
    }
}

fn digit_str(d: u8) -> (r: &'static str)
    requires
        d < 10,
    ensures
        r@ == spec_digit(d as nat),
{
    match d {
        0 => "0",
        1 => "1",
        2 => "2",
        3 => "3",
        4 => "4",
        5 => "5",
        6 => "6",
        7 => "7",
        8 => "8",
        _ => "9",
    }
}

/// Renders `n` as its decimal numeral.
pub fn u8_dec(n: u8) -> (r: String)
    ensures
        r@ == spec_dec(n as nat),
    decreases n,
{
    if n < 10 {
        digit_str(n).to_owned()
    } else {
        let mut s = u8_dec(n / 10);
        s.append(digit_str(n % 10));
        s
    }
}

/// `s` wrapped in double quotes, the stable form of a string descriptor.
pub open spec fn spec_quoted(s: Seq<char>) -> Seq<char> {
    "\""@ + s + "\""@
}

/// Wraps `s` in double quotes.
pub fn quoted(s: &str) -> (r: String)
    ensures
        r@ == spec_quoted(s@),
{
    let mut r = "\"".to_owned();
    r.append(s);
    r.append("\"");
    r
}

/// The comma-separated decimal numerals of `b`, in order.
pub open spec fn spec_byte_items(b: Seq<u8>) -> Seq<char>
    decreases b.len(),
{
    if b.len() == 0 {
        Seq::empty()
    } else if b.len() == 1 {
        spec_dec(b[0] as nat)
    } else {
        spec_byte_items(b.drop_last()) + ", "@ + spec_dec(b.last() as nat)
    }
}

/// The stable form of a byte list: its numerals, comma-separated, in
/// brackets.
pub open spec fn spec_describe_bytes(b: Seq<u8>) -> Seq<char> {
    "["@ + spec_byte_items(b) + "]"@
}

/// Renders a byte list as [`spec_describe_bytes`] describes.
pub fn describe_bytes(b: &Vec<u8>) -> (r: String)
    ensures
        r@ == spec_describe_bytes(b@),
{
    let mut r = "[".to_owned();
    proof {
        assert(r@ =~= "["@ + spec_byte_items(b@.take(0)));
    }
    let mut i: usize = 0;
    while i < b.len()
        invariant
            i <= b.len(),
            r@ == "["@ + spec_byte_items(b@.take(i as int)),
        decreases b.len() - i,
    {
        if i > 0 {
            r.append(", ");
        }
        let n = u8_dec(b[i]);
        r.append(n.as_str());
        proof {
            assert(b@.take(i as int + 1).drop_last() =~= b@.take(i as int));
            assert(b@.take(i as int + 1).last() == b@[i as int]);
            assert(r@ =~= "["@ + spec_byte_items(b@.take(i as int + 1)));
        }
        i += 1;
    }
    proof {
        assert(b@.take(b@.len() as int) =~= b@);
    }
    r.append("]");
    r
}

/// The view of an optional byte vector.
pub open spec fn spec_opt_bytes_view(o: Option<Vec<u8>>) -> Option<Seq<u8>> {
    match o {
        Some(b) => Some(b@),
        None => None,
    }
}

/// The stable form of an optional byte list.
pub open spec fn spec_describe_opt_bytes(o: Option<Seq<u8>>) -> Seq<char> {
    match o {
        Some(b) => "Some("@ + spec_describe_bytes(b) + ")"@,
        None => "None"@,
    }
}

/// Renders an optional byte list as [`spec_describe_opt_bytes`] describes.
pub fn describe_opt_bytes(o: &Option<Vec<u8>>) -> (r: String)
    ensures
        r@ == spec_describe_opt_bytes(spec_opt_bytes_view(*o)),
{
    match o {
        Some(b) => {
            let mut r = "Some(".to_owned();
            let inner = describe_bytes(b);
            r.append(inner.as_str());
            r.append(")");
            proof {
                assert(r@ =~= spec_describe_opt_bytes(spec_opt_bytes_view(*o)));
            }
            r
        },
        None => "None".to_owned(),
    }
}

/// The view of an optional string.
pub open spec fn spec_opt_str_view(o: Option<String>) -> Option<Seq<char>> {
    match o {
        Some(s) => Some(s@),
        None => None,
    }
}

/// The stable form of an optional string: quoted inside `Some(..)`, or
/// `None`.
pub open spec fn spec_describe_opt_str(o: Option<Seq<char>>) -> Seq<char> {
    match o {
        Some(s) => "Some("@ + spec_quoted(s) + ")"@,
        None => "None"@,
    }
}

/// Renders an optional string as [`spec_describe_opt_str`] describes.
pub fn describe_opt_str(o: &Option<String>) -> (r: String)
    ensures
        r@ == spec_describe_opt_str(spec_opt_str_view(*o)),
{
    match o {
        Some(s) => {
            let mut r = "Some(".to_owned();
            let inner = quoted(s.as_str());
            r.append(inner.as_str());
            r.append(")");
            proof {
                assert(r@ =~= spec_describe_opt_str(spec_opt_str_view(*o)));
            }
            r
        },
        None => "None".to_owned(),
    }
}

/// The stable form of a storage modifier.
pub open spec fn spec_describe_modifier(m: StorageModifier) -> Seq<char> {
    match m {
        StorageModifier::Optional => "Optional"@,
        StorageModifier::Default => "Default"@,
    }
}

/// Renders a storage modifier as [`spec_describe_modifier`] describes.
pub fn describe_modifier(m: &StorageModifier) -> (r: &'static str)
    ensures
        r@ == spec_describe_modifier(*m),
{
    match m {
        StorageModifier::Optional => "Optional",
        StorageModifier::Default => "Default",
    }
}

/// The comma-separated quoted strings of `v`, in order.
pub open spec fn spec_str_items(v: Seq<Seq<char>>) -> Seq<char>
    decreases v.len(),
{
    if v.len() == 0 {
        Seq::empty()
    } else if v.len() == 1 {
        spec_quoted(v[0])
    } else {
        spec_str_items(v.drop_last()) + ", "@ + spec_quoted(v.last())
    }
}

/// The stable form of a string list: its members quoted, comma-separated,
/// in brackets.
pub open spec fn spec_describe_str_list(v: Seq<Seq<char>>) -> Seq<char> {
    "["@ + spec_str_items(v) + "]"@
}

/// Renders a string list as [`spec_describe_str_list`] describes.
pub fn describe_str_list(v: &Vec<String>) -> (r: String)
    ensures
        r@ == spec_describe_str_list(v@.map_values(|s: String| s@)),
{
    let ghost m = v@.map_values(|s: String| s@);
    let mut r = "[".to_owned();
    proof {
        assert(r@ =~= "["@ + spec_str_items(m.take(0)));
    }
    let mut i: usize = 0;
    while i < v.len()
        invariant
            i <= v.len(),
            m == v@.map_values(|s: String| s@),
            r@ == "["@ + spec_str_items(m.take(i as int)),
        decreases v.len() - i,
    {
        if i > 0 {
            r.append(", ");
        }
        let q = quoted(v[i].as_str());
        r.append(q.as_str());
        proof {
            assert(m.take(i as int + 1).drop_last() =~= m.take(i as int));
            assert(m.take(i as int + 1).last() == m[i as int]);
            assert(m[i as int] == v@[i as int]@);
            assert(r@ =~= "["@ + spec_str_items(m.take(i as int + 1)));
        }
        i += 1;
    }
    proof {
        assert(m.take(m.len() as int) =~= m);
    }
    r.append("]");
    r
}

} // verus!
