//! Character-level helpers for the strings the pipeline handles.
use vstd::prelude::*;

verus! {

/// The characters that end a token in a checksum line.
pub open spec fn is_blank(c: char) -> bool {
    c == ' ' || c == '\t' || c == '\r' || c == '\n'
}

/// Whether `needle` occurs in `haystack` starting at position `at`.
pub open spec fn occurs_at(haystack: Seq<char>, needle: Seq<char>, at: int) -> bool {
    0 <= at && at + needle.len() <= haystack.len() && haystack.subrange(
        at,
        at + needle.len(),
    ) == needle
}

/// Whether `needle` occurs anywhere in `haystack`.
pub open spec fn occurs_in(haystack: Seq<char>, needle: Seq<char>) -> bool {
    exists|at: int| occurs_at(haystack, needle, at)
}

/// The longest prefix of `s` that holds no blank character.
pub open spec fn first_token(s: Seq<char>) -> Seq<char>
    decreases s.len(),
{
    if s.len() == 0 || is_blank(s[0]) {
        Seq::empty()
    } else {
        seq![s[0]] + first_token(s.skip(1))
    }
}

/// The lower-case hexadecimal digit for a value below sixteen.
pub open spec fn hex_digit(nibble: int) -> char {
    if nibble == 0 {
        '0'
    } else if nibble == 1 {
        '1'
    } else if nibble == 2 {
        '2'
    } else if nibble == 3 {
        '3'
    } else if nibble == 4 {
        '4'
    } else if nibble == 5 {
        '5'
    } else if nibble == 6 {
        '6'
    } else if nibble == 7 {
        '7'
    } else if nibble == 8 {
        '8'
    } else if nibble == 9 {
        '9'
    } else if nibble == 10 {
        'a'
    } else if nibble == 11 {
        'b'
    } else if nibble == 12 {
        'c'
    } else if nibble == 13 {
        'd'
    } else if nibble == 14 {
        'e'
    } else {
        'f'
    }
}

/// The lower-case hexadecimal rendering of a byte string, two digits per
/// byte, high digit first.
pub open spec fn hex(bytes: Seq<u8>) -> Seq<char> {
    Seq::new(
        2 * bytes.len(),
        |i: int|
            if i % 2 == 0 {
                hex_digit(bytes[i / 2] as int / 16)
            } else {
                hex_digit(bytes[i / 2] as int % 16)
            },
    )
}

/// The characters of a string, in order.
pub fn chars_of(s: &str) -> (chars: Vec<char>)
    ensures
        chars@ == s@,
{
    broadcast use vstd::string::group_string_axioms;

    let mut chars: Vec<char> = Vec::new();
    for c in it: s.chars()
        invariant
            it.seq() == s@,
            chars@ == it.seq().take(it.index()),
    {
        chars.push(c);
        assert(chars@ =~= it.seq().take(it.index() + 1));
    }
    assert(s@.take(s@.len() as int) == s@);
    chars
}

fn hex_digit_str(nibble: u8) -> (digit: &'static str)
    requires
        nibble < 16,
    ensures
        digit@ == seq![hex_digit(nibble as int)],
{
    proof {
        reveal_strlit("0");
        reveal_strlit("1");
        reveal_strlit("2");
        reveal_strlit("3");
        reveal_strlit("4");
        reveal_strlit("5");
        reveal_strlit("6");
        reveal_strlit("7");
        reveal_strlit("8");
        reveal_strlit("9");
        reveal_strlit("a");
        reveal_strlit("b");
        reveal_strlit("c");
        reveal_strlit("d");
        reveal_strlit("e");
        reveal_strlit("f");
    }
    let digit: &'static str = match nibble {
        0 => "0",
        1 => "1",
        2 => "2",
        3 => "3",
        4 => "4",
        5 => "5",
        6 => "6",
        7 => "7",
        8 => "8",
        9 => "9",
        10 => "a",
        11 => "b",
        12 => "c",
        13 => "d",
        14 => "e",
        _ => "f",
    };
    assert(digit@ =~= seq![hex_digit(nibble as int)]);
    digit
}

/// Renders bytes as lower-case hexadecimal.
pub fn to_hex(bytes: &[u8]) -> (text: String)
    ensures
        text@ == hex(bytes@),
{
    let mut text: String = String::new();
    let mut i: usize = 0;
    while i < bytes.len()
        invariant
            i <= bytes@.len(),
            text@ == hex(bytes@.subrange(0, i as int)),
        decreases bytes@.len() - i,
    {
        let b: u8 = bytes[i];
        let ghost before = text@;
        text.append(hex_digit_str(b / 16));
        text.append(hex_digit_str(b % 16));
        assert(text@ =~= hex(bytes@.subrange(0, i + 1))) by {
            let longer = bytes@.subrange(0, i + 1);
            let shorter = bytes@.subrange(0, i as int);
            assert(longer.len() == i + 1);
            assert forall|k: int| 0 <= k < 2 * (i + 1) implies text@[k] == hex(longer)[k] by {
                if k < 2 * i {
                    assert(text@[k] == before[k]);
                    assert(shorter[k / 2] == longer[k / 2]);
                } else {
                    assert(longer[i as int] == b);
                }
            }
        }
        i += 1;
    }
    assert(bytes@.subrange(0, i as int) == bytes@);
    text
}

/// Whether `needle` occurs in `haystack`.
pub fn contains(haystack: &str, needle: &str) -> (found: bool)
    ensures
        found == occurs_in(haystack@, needle@),
{
    let hay: Vec<char> = chars_of(haystack);
    let pin: Vec<char> = chars_of(needle);
    if pin.len() > hay.len() {
        assert(!occurs_in(haystack@, needle@)) by {
            assert forall|at: int| !occurs_at(haystack@, needle@, at) by {}
        }
        return false;
    }
    if pin.len() == 0 {
        assert(occurs_at(haystack@, needle@, 0)) by {
            assert(haystack@.subrange(0, 0) =~= needle@);
        }
        return true;
    }
    let last: usize = hay.len() - pin.len();
    let mut at: usize = 0;
    while at <= last
        invariant
            hay@ == haystack@,
            pin@ == needle@,
            last == hay@.len() - pin@.len(),
            0 < pin@.len() <= hay@.len() <= usize::MAX,
            at <= last + 1,
            forall|k: int| 0 <= k < at ==> !occurs_at(haystack@, needle@, k),
        decreases last + 1 - at,
    {
        let mut j: usize = 0;
        while j < pin.len() && hay[at + j] == pin[j]
            invariant
                hay@ == haystack@,
                pin@ == needle@,
                last == hay@.len() - pin@.len(),
                hay@.len() <= usize::MAX,
                at <= last,
                j <= pin@.len(),
                forall|k: int| 0 <= k < j ==> hay@[at + k] == pin@[k],
            decreases pin@.len() - j,
        {
            j += 1;
        }
        if j == pin.len() {
            assert(occurs_at(haystack@, needle@, at as int)) by {
                assert(haystack@.subrange(at as int, at + needle@.len()) =~= needle@);
            }
            return true;
        }
        assert(!occurs_at(haystack@, needle@, at as int)) by {
            if occurs_at(haystack@, needle@, at as int) {
                let here = haystack@.subrange(at as int, at + needle@.len());
                assert(here[j as int] == needle@[j as int]);
            }
        }
        at += 1;
    }
    assert(!occurs_in(haystack@, needle@)) by {
        assert forall|k: int| !occurs_at(haystack@, needle@, k) by {}
    }
    false
}

/// The first token of `line`: everything before its first blank.
pub fn leading_token(line: &str) -> (token: String)
    ensures
        token@ == first_token(line@),
{
    let chars: Vec<char> = chars_of(line);
    let mut end: usize = 0;
    proof {
        assert(line@.skip(0) == line@);
        assert(line@.subrange(0, 0) + first_token(line@) == first_token(line@));
    }
    while end < chars.len() && !blank(chars[end])
        invariant
            chars@ == line@,
            end <= chars@.len(),
            first_token(line@) == line@.subrange(0, end as int) + first_token(
                line@.skip(end as int),
            ),
        decreases chars@.len() - end,
    {
        proof {
            let rest = line@.skip(end as int);
            assert(rest.skip(1) == line@.skip(end + 1));
            assert(line@.subrange(0, end as int) + seq![rest[0]] == line@.subrange(0, end + 1));
        }
        end += 1;
    }
    proof {
        let rest = line@.skip(end as int);
        assert(first_token(rest) == Seq::<char>::empty());
        assert(line@.subrange(0, end as int) + Seq::<char>::empty() == line@.subrange(
            0,
            end as int,
        ));
    }
    String::from_str(line.substring_char(0, end))
}

/// Whether a character ends a token.
pub fn blank(c: char) -> (b: bool)
    ensures
        b == is_blank(c),
{
    c == ' ' || c == '\t' || c == '\r' || c == '\n'
}

} // verus!
