//! Verified text helpers: decimal rendering of ids for the defect reasons
//! the indexes report.

use vstd::prelude::*;
use vstd::string::*;

verus! {

/// The character for one decimal digit.
pub open spec fn dec_digit(d: int) -> char {
    if d == 0 {
        '0'
    } else if d == 1 {
        '1'
    } else if d == 2 {
        '2'
    } else if d == 3 {
        '3'
    } else if d == 4 {
        '4'
    } else if d == 5 {
        '5'
    } else if d == 6 {
        '6'
    } else if d == 7 {
        '7'
    } else if d == 8 {
        '8'
    } else {
        '9'
    }
}

/// The decimal rendering of a non-negative integer, most significant digit
/// first.
pub open spec fn dec_seq(n: int) -> Seq<char>
    decreases n,
{
    if n < 10 {
        seq![dec_digit(n)]
    } else {
        dec_seq(n / 10) + seq![dec_digit(n % 10)]
    }
}

fn digit_str(d: u64) -> (r: &'static str)
    requires
        d < 10,
    ensures
        r@ == seq![dec_digit(d as int)],
{
    proof {
        reveal_strlit("0");
        reveal_strlit("1");
        reveal_strlit("2");
        reveal_strlit("3");
        reveal_strlit("4");
        reveal_strlit("5");
        reveal_strlit("6");
        reveal_strlit("7");
        reveal_strlit("8");
        reveal_strlit("9");
    }
    let r = match d {
        0 => "0",
        1 => "1",
        2 => "2",
        3 => "3",
        4 => "4",
        5 => "5",
        6 => "6",
        7 => "7",
        8 => "8",
        _ => "9",
    };
    proof {
        assert(r@ =~= seq![dec_digit(d as int)]);
    }
    r
}

/// Renders an id in decimal.
pub fn u64_to_dec(n: u64) -> (s: String)
    ensures
        s@ == dec_seq(n as int),
    decreases n,
{
    if n < 10 {
        String::from_str(digit_str(n))
    } else {
        let mut s = u64_to_dec(n / 10);
        s.append(digit_str(n % 10));
        s
    }
}

/// The decimal rendering of an integer, with a sign for negatives.
pub open spec fn dec_seq_signed(n: int) -> Seq<char> {
    if n < 0 {
        seq!['-'] + dec_seq(-n)
    } else {
        dec_seq(n)
    }
}

/// Renders a topic in decimal.
pub fn i32_to_dec(n: i32) -> (s: String)
    ensures
        s@ == dec_seq_signed(n as int),
{
    if n < 0 {
        let wide: i64 = n as i64;
        let magnitude: u64 = (-wide) as u64;
        let mut s = String::from_str("-");
        let digits = u64_to_dec(magnitude);
        s.append(digits.as_str());
        proof {
            reveal_strlit("-");
            assert(s@ =~= dec_seq_signed(n as int));
        }
        s
    } else {
        u64_to_dec(n as u64)
    }
}

/// The comma-separated decimal renderings of a byte string.
pub open spec fn byte_items(s: Seq<u8>) -> Seq<char>
    decreases s.len(),
{
    if s.len() == 0 {
        Seq::empty()
    } else if s.len() == 1 {
        dec_seq(s[0] as int)
    } else {
        dec_seq(s[0] as int) + ", "@ + byte_items(s.drop_first())
    }
}

/// A byte string rendered as a bracketed decimal list.
pub open spec fn bytes_rendered(s: Seq<u8>) -> Seq<char> {
    "["@ + byte_items(s) + "]"@
}

fn byte_items_from(v: &Vec<u8>, start: usize) -> (s: String)
    requires
        start <= v@.len(),
    ensures
        s@ == byte_items(v@.subrange(start as int, v@.len() as int)),
    decreases v@.len() - start,
{
    let ghost sub = v@.subrange(start as int, v@.len() as int);
    if start >= v.len() {
        proof {
            assert(sub =~= Seq::<u8>::empty());
        }
        String::new()
    } else if start + 1 == v.len() {
        let s = u64_to_dec(v[start] as u64);
        proof {
            assert(sub[0] == v@[start as int]);
        }
        s
    } else {
        let mut s = u64_to_dec(v[start] as u64);
        s.append(", ");
        let rest = byte_items_from(v, start + 1);
        s.append(rest.as_str());
        proof {
            reveal_strlit(", ");
            assert(sub[0] == v@[start as int]);
            assert(sub.drop_first() =~= v@.subrange(start as int + 1, v@.len() as int));
            assert(s@ =~= byte_items(sub));
        }
        s
    }
}

/// Renders a byte string as a bracketed decimal list.
pub fn bytes_to_dec(v: &Vec<u8>) -> (s: String)
    ensures
        s@ == bytes_rendered(v@),
{
    let mut s = String::from_str("[");
    let items = byte_items_from(v, 0);
    s.append(items.as_str());
    s.append("]");
    proof {
        reveal_strlit("[");
        reveal_strlit("]");
        assert(v@.subrange(0, v@.len() as int) =~= v@);
        assert(s@ =~= bytes_rendered(v@));
    }
    s
}

/// One delegation pair rendered as a parenthesized decimal pair.
pub open spec fn pair_rendered(p: (i32, u64)) -> Seq<char> {
    "("@ + dec_seq_signed(p.0 as int) + ", "@ + dec_seq(p.1 as int) + ")"@
}

/// The comma-separated renderings of a list of delegation pairs.
pub open spec fn pair_items(s: Seq<(i32, u64)>) -> Seq<char>
    decreases s.len(),
{
    if s.len() == 0 {
        Seq::empty()
    } else if s.len() == 1 {
        pair_rendered(s[0])
    } else {
        pair_rendered(s[0]) + ", "@ + pair_items(s.drop_first())
    }
}

/// A list of delegation pairs rendered as a bracketed list.
pub open spec fn pairs_rendered(s: Seq<(i32, u64)>) -> Seq<char> {
    "["@ + pair_items(s) + "]"@
}

/// Renders one delegation pair.
pub fn pair_to_dec(p: (i32, u64)) -> (s: String)
    ensures
        s@ == pair_rendered(p),
{
    let mut s = String::from_str("(");
    let topic = i32_to_dec(p.0);
    s.append(topic.as_str());
    s.append(", ");
    let followee = u64_to_dec(p.1);
    s.append(followee.as_str());
    s.append(")");
    proof {
        reveal_strlit("(");
        reveal_strlit(", ");
        reveal_strlit(")");
        assert(s@ =~= pair_rendered(p));
    }
    s
}

fn pair_items_from(v: &Vec<(i32, u64)>, start: usize) -> (s: String)
    requires
        start <= v@.len(),
    ensures
        s@ == pair_items(v@.subrange(start as int, v@.len() as int)),
    decreases v@.len() - start,
{
    let ghost sub = v@.subrange(start as int, v@.len() as int);
    if start >= v.len() {
        proof {
            assert(sub =~= Seq::<(i32, u64)>::empty());
        }
        String::new()
    } else if start + 1 == v.len() {
        let s = pair_to_dec(v[start]);
        proof {
            assert(sub[0] == v@[start as int]);
        }
        s
    } else {
        let mut s = pair_to_dec(v[start]);
        s.append(", ");
        let rest = pair_items_from(v, start + 1);
        s.append(rest.as_str());
        proof {
            reveal_strlit(", ");
            assert(sub[0] == v@[start as int]);
            assert(sub.drop_first() =~= v@.subrange(start as int + 1, v@.len() as int));
            assert(s@ =~= pair_items(sub));
        }
        s
    }
}

/// Renders a list of delegation pairs as a bracketed list.
pub fn pairs_to_dec(v: &Vec<(i32, u64)>) -> (s: String)
    ensures
        s@ == pairs_rendered(v@),
{
    let mut s = String::from_str("[");
    let items = pair_items_from(v, 0);
    s.append(items.as_str());
    s.append("]");
    proof {
        reveal_strlit("[");
        reveal_strlit("]");
        assert(v@.subrange(0, v@.len() as int) =~= v@);
        assert(s@ =~= pairs_rendered(v@));
    }
    s
}

/// The comma-separated renderings of a list of byte strings.
pub open spec fn byte_list_items(s: Seq<Seq<u8>>) -> Seq<char>
    decreases s.len(),
{
    if s.len() == 0 {
        Seq::empty()
    } else if s.len() == 1 {
        bytes_rendered(s[0])
    } else {
        bytes_rendered(s[0]) + ", "@ + byte_list_items(s.drop_first())
    }
}

/// A list of byte strings rendered as a bracketed list of decimal lists.
pub open spec fn byte_lists_rendered(s: Seq<Seq<u8>>) -> Seq<char> {
    "["@ + byte_list_items(s) + "]"@
}

} // verus!
