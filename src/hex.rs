use vstd::prelude::*;

verus! {

/// The lowercase hexadecimal digit for a value below 16.
pub open spec fn hex_char(n: int) -> char {
    if n < 10 {
        (48 + n) as char
    } else {
        (87 + n) as char
    }
}

/// Two lowercase hexadecimal digits per byte, most significant digit first.
pub open spec fn hex_of(s: Seq<u8>) -> Seq<char>
    decreases s.len(),
{
    if s.len() == 0 {
        Seq::empty()
    } else {
        hex_of(s.drop_last()) + seq![hex_char(s.last() as int / 16), hex_char(s.last() as int % 16)]
    }
}

/// The value of a hexadecimal digit (either case), if the character is one.
pub open spec fn hex_value(c: char) -> Option<u8> {
    if '0' <= c && c <= '9' {
        Some((c as u8 - 48) as u8)
    } else if 'a' <= c && c <= 'f' {
        Some((c as u8 - 87) as u8)
    } else if 'A' <= c && c <= 'F' {
        Some((c as u8 - 55) as u8)
    } else {
        None
    }
}

/// `s` is exactly `n` bytes written as hexadecimal digits.
pub open spec fn is_hex_of_len(s: Seq<char>, n: nat) -> bool {
    s.len() == 2 * n && forall|i: int| 0 <= i < s.len() ==> (#[trigger] hex_value(s[i])).is_some()
}

/// The bytes that a string of hexadecimal digit pairs stands for.
pub open spec fn decode_hex(s: Seq<char>) -> Seq<u8> {
    Seq::new(
        s.len() / 2,
        |i: int| (hex_value(s[2 * i]).unwrap() as int * 16 + hex_value(s[2 * i + 1]).unwrap() as int) as u8,
    )
}

fn digit_str(n: u8) -> (r: &'static str)
    requires
        n < 16,
    ensures
        r@ == seq![hex_char(n as int)],
{
    proof {
        reveal_strlit("0");
        reveal_strlit("1");
        reveal_strlit("2");
        reveal_strlit("3");
        reveal_strlit("4");
        reveal_strlit("5");
        reveal_strlit("6");
        reveal_strlit("7");
        reveal_strlit("8");
        reveal_strlit("9");
        reveal_strlit("a");
        reveal_strlit("b");
        reveal_strlit("c");
        reveal_strlit("d");
        reveal_strlit("e");
        reveal_strlit("f");
    }
    match n {
        0 => "0",
        1 => "1",
        2 => "2",
        3 => "3",
        4 => "4",
        5 => "5",
        6 => "6",
        7 => "7",
        8 => "8",
        9 => "9",
        10 => "a",
        11 => "b",
        12 => "c",
        13 => "d",
        14 => "e",
        _ => "f",
    }
}

/// Appends the hexadecimal form of `bytes` to `out`.
pub fn push_hex(out: &mut String, bytes: &[u8])
    ensures
        final(out)@ == old(out)@ + hex_of(bytes@),
{
    let mut i: usize = 0;
    while i < bytes.len()
        invariant
            i <= bytes@.len(),
            out@ == old(out)@ + hex_of(bytes@.subrange(0, i as int)),
        decreases bytes@.len() - i,
    {
        let b = bytes[i];
        let hi = digit_str(b / 16);
        let lo = digit_str(b % 16);
        out.append(hi);
        out.append(lo);
        proof {
            let s = bytes@.subrange(0, i + 1);
            assert(s.drop_last() == bytes@.subrange(0, i as int));
            assert(s.last() == b);
        }
        i = i + 1;
    }
    assert(bytes@.subrange(0, bytes@.len() as int) == bytes@);
}

fn digit_value(c: char) -> (r: Option<u8>)
    ensures
        r == hex_value(c),
{
    if '0' <= c && c <= '9' {
        Some((c as u8) - 48)
    } else if 'a' <= c && c <= 'f' {
        Some((c as u8) - 87)
    } else if 'A' <= c && c <= 'F' {
        Some((c as u8) - 55)
    } else {
        None
    }
}

/// Decodes a string of exactly `n` hexadecimal digit pairs; `None` on any other string.
pub fn parse_hex(s: &str, n: usize) -> (r: Option<Vec<u8>>)
    ensures
        r.is_some() <==> is_hex_of_len(s@, n as nat),
        r.is_some() ==> r.unwrap()@ == decode_hex(s@),
{
    let len = s.unicode_len();
    if n > usize::MAX / 2 || len != 2 * n {
        return None;
    }
    let mut out: Vec<u8> = Vec::new();
    let mut i: usize = 0;
    while i < n
        invariant
            len == s@.len(),
            len == 2 * n,
            i <= n,
            out@.len() == i,
            forall|j: int| 0 <= j < 2 * i ==> (#[trigger] hex_value(s@[j])).is_some(),
            forall|j: int| 0 <= j < i ==> out@[j] == decode_hex(s@)[j],
        decreases n - i,
    {
        let hi = digit_value(s.get_char(2 * i));
        let lo = digit_value(s.get_char(2 * i + 1));
        match (hi, lo) {
            (Some(h), Some(l)) => {
                out.push(h * 16 + l);
            },
            _ => {
                return None;
            },
        }
        i = i + 1;
    }
    assert(out@ =~= decode_hex(s@));
    Some(out)
}

} // verus!
