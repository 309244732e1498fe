//! Small helpers on strings and lists of strings, with their meaning stated
//! over sequences of characters.

use vstd::prelude::*;
use vstd::string::*;
use vstd::utf8::*;

verus! {

/// The character sequences of a list of strings, in order.
pub open spec fn texts(items: Seq<String>) -> Seq<Seq<char>> {
    Seq::new(items.len(), |i: int| items[i]@)
}

/// `parts` written one after another with `sep` between neighbours.
pub open spec fn joined(parts: Seq<Seq<char>>, sep: Seq<char>) -> Seq<char>
    decreases parts.len(),
{
    if parts.len() == 0 {
        Seq::empty()
    } else if parts.len() == 1 {
        parts[0]
    } else {
        joined(parts.drop_last(), sep) + sep + parts.last()
    }
}

/// Joining one more part appends the separator and the part, unless it is the
/// first part.
pub proof fn lemma_joined_push(parts: Seq<Seq<char>>, part: Seq<char>, sep: Seq<char>)
    ensures
        joined(parts.push(part), sep) == if parts.len() == 0 {
            part
        } else {
            joined(parts, sep) + sep + part
        },
{
    let longer = parts.push(part);
    assert(longer.drop_last() =~= parts);
    assert(longer.last() == part);
}

/// What is joined from the first parts of a list is the beginning of what is
/// joined from the whole list.
pub proof fn lemma_joined_prefix(parts: Seq<Seq<char>>, more: Seq<Seq<char>>, sep: Seq<char>)
    ensures
        joined(parts, sep).is_prefix_of(joined(parts + more, sep)),
    decreases more.len(),
{
    if more.len() == 0 {
        assert(parts + more =~= parts);
    } else {
        let shorter = parts + more.drop_last();
        lemma_joined_prefix(parts, more.drop_last(), sep);
        assert(parts + more =~= shorter.push(more.last()));
        lemma_joined_push(shorter, more.last(), sep);
        if shorter.len() == 0 {
            assert(parts.len() == 0);
        }
    }
}

/// Whether two strings hold the same characters.
pub fn str_eq(a: &str, b: &str) -> (same: bool)
    ensures
        same == (a@ == b@),
{
    let x = a.as_bytes();
    let y = b.as_bytes();
    proof {
        // Encoding is injective: decoding gives the characters back.
        encode_utf8_decode_utf8(a@);
        encode_utf8_decode_utf8(b@);
    }
    if x.len() != y.len() {
        return false;
    }
    let mut i: usize = 0;
    while i < x.len()
        invariant
            i <= x.len(),
            x.len() == y.len(),
            x@ == a.spec_bytes(),
            y@ == b.spec_bytes(),
            forall|j: int| 0 <= j < i ==> x@[j] == y@[j],
        decreases x.len() - i,
    {
        if x[i] != y[i] {
            return false;
        }
        i += 1;
    }
    assert(x@ =~= y@);
    true
}

/// The two strings written one after the other.
pub fn concat_str(a: &str, b: &str) -> (both: String)
    ensures
        both@ == a@ + b@,
{
    let mut both = String::new();
    both.append(a);
    both.append(b);
    assert(both@ =~= a@ + b@);
    both
}

/// Appends a copy of every string of `src` to `dst`, in order.
pub fn extend_from(dst: &mut Vec<String>, src: &[String])
    ensures
        texts(final(dst)@) == texts(old(dst)@) + texts(src@),
{
    let mut i: usize = 0;
    while i < src.len()
        invariant
            i <= src.len(),
            texts(dst@) == texts(old(dst)@) + texts(src@.take(i as int)),
        decreases src.len() - i,
    {
        let ghost before = dst@;
        dst.push(src[i].clone());
        proof {
            assert(src@.take(i + 1) =~= src@.take(i as int).push(src@[i as int]));
            assert(texts(dst@) =~= texts(before).push(src@[i as int]@));
            assert(texts(src@.take(i + 1)) =~= texts(src@.take(i as int)).push(src@[i as int]@));
        }
        i += 1;
    }
    assert(src@.take(src.len() as int) =~= src@);
}

/// A copy of a list of strings.
pub fn copy_all(src: &[String]) -> (copy: Vec<String>)
    ensures
        texts(copy@) == texts(src@),
{
    let mut copy: Vec<String> = Vec::new();
    extend_from(&mut copy, src);
    assert(texts(copy@) =~= texts(src@));
    copy
}

/// The strings of `parts` in one string, with `sep` between neighbours.
pub fn join(parts: &[String], sep: &str) -> (line: String)
    ensures
        line@ == joined(texts(parts@), sep@),
{
    let mut line = String::new();
    let mut i: usize = 0;
    while i < parts.len()
        invariant
            i <= parts.len(),
            line@ == joined(texts(parts@.take(i as int)), sep@),
        decreases parts.len() - i,
    {
        proof {
            let done = texts(parts@.take(i as int));
            lemma_joined_push(done, parts@[i as int]@, sep@);
            assert(parts@.take(i + 1) =~= parts@.take(i as int).push(parts@[i as int]));
            assert(texts(parts@.take(i + 1)) =~= done.push(parts@[i as int]@));
        }
        if i > 0 {
            line.append(sep);
        }
        line.append(parts[i].as_str());
        i += 1;
    }
    assert(parts@.take(parts.len() as int) =~= parts@);
    line
}

/// Whether `s` begins with the character `c`.
pub fn starts_with(s: &str, c: char) -> (yes: bool)
    ensures
        yes == (s@.len() > 0 && s@[0] == c),
{
    let mut it = s.chars();
    match it.next() {
        Some(first) => first == c,
        None => false,
    }
}

/// Whether `s` ends with the character `c`.
pub fn ends_with(s: &str, c: char) -> (yes: bool)
    ensures
        yes == (s@.len() > 0 && s@.last() == c),
{
    let mut last: Option<char> = None;
    for x in it: s.chars()
        invariant
            it.seq() == s@,
            last == if it.index() == 0 {
                None
            } else {
                Some(s@[it.index() - 1])
            },
    {
        last = Some(x);
    }
    match last {
        Some(x) => x == c,
        None => false,
    }
}

/// Whether the character `c` occurs in `s`.
pub fn contains_char(s: &str, c: char) -> (yes: bool)
    ensures
        yes == s@.contains(c),
{
    let mut found = false;
    for x in it: s.chars()
        invariant
            it.seq() == s@,
            found == exists|i: int| 0 <= i < it.index() && s@[i] == c,
    {
        if x == c {
            found = true;
        }
    }
    found
}

/// The character that writes one decimal digit.
pub open spec fn digit(d: int) -> char {
    if d == 0 {
        '0'
    } else if d == 1 {
        '1'
    } else if d == 2 {
        '2'
    } else if d == 3 {
        '3'
    } else if d == 4 {
        '4'
    } else if d == 5 {
        '5'
    } else if d == 6 {
        '6'
    } else if d == 7 {
        '7'
    } else if d == 8 {
        '8'
    } else {
        '9'
    }
}

/// A natural number in decimal, without leading zeros.
pub open spec fn unsigned_decimal(n: nat) -> Seq<char>
    decreases n,
{
    if n < 10 {
        seq![digit(n as int)]
    } else {
        unsigned_decimal(n / 10).push(digit((n % 10) as int))
    }
}

/// An integer in decimal, with a minus sign in front of a negative one.
pub open spec fn decimal(n: int) -> Seq<char> {
    if n < 0 {
        seq!['-'] + unsigned_decimal((-n) as nat)
    } else {
        unsigned_decimal(n as nat)
    }
}

fn digit_str(d: u32) -> (s: &'static str)
    requires
        d < 10,
    ensures
        s@ == seq![digit(d as int)],
{
    proof {
        reveal_strlit("0");
        reveal_strlit("1");
        reveal_strlit("2");
        reveal_strlit("3");
        reveal_strlit("4");
        reveal_strlit("5");
        reveal_strlit("6");
        reveal_strlit("7");
        reveal_strlit("8");
        reveal_strlit("9");
    }
    let s = if d == 0 {
        "0"
    } else if d == 1 {
        "1"
    } else if d == 2 {
        "2"
    } else if d == 3 {
        "3"
    } else if d == 4 {
        "4"
    } else if d == 5 {
        "5"
    } else if d == 6 {
        "6"
    } else if d == 7 {
        "7"
    } else if d == 8 {
        "8"
    } else {
        "9"
    };
    assert(s@ =~= seq![digit(d as int)]);
    s
}

fn unsigned_to_string(n: u32) -> (s: String)
    ensures
        s@ == unsigned_decimal(n as nat),
    decreases n,
{
    if n < 10 {
        digit_str(n).to_owned()
    } else {
        let mut s = unsigned_to_string(n / 10);
        s.append(digit_str(n % 10));
        assert(s@ =~= unsigned_decimal(n as nat));
        s
    }
}

/// The decimal text of an integer, as `{}` prints it.
pub fn int_to_string(n: i32) -> (s: String)
    ensures
        s@ == decimal(n as int),
{
    if n < 0 {
        let magnitude: u32 = (-(n as i64)) as u32;
        let digits = unsigned_to_string(magnitude);
        proof {
            reveal_strlit("-");
        }
        let s = concat_str("-", digits.as_str());
        assert(s@ =~= decimal(n as int));
        s
    } else {
        unsigned_to_string(n as u32)
    }
}

} // verus!
