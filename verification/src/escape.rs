//! JSON string escaping, shared by the request-payload builder and the
//! settings codec. A content character is emitted as itself, except that a
//! quote or a backslash is backslash-escaped and a control character is
//! written as a `\u00XX` escape.
use vstd::prelude::*;

verus! {

/// The lower-case hexadecimal digit for a value below sixteen.
pub open spec fn hex_char(n: int) -> char {
    if n == 0 {
        '0'
    } else if n == 1 {
        '1'
    } else if n == 2 {
        '2'
    } else if n == 3 {
        '3'
    } else if n == 4 {
        '4'
    } else if n == 5 {
        '5'
    } else if n == 6 {
        '6'
    } else if n == 7 {
        '7'
    } else if n == 8 {
        '8'
    } else if n == 9 {
        '9'
    } else if n == 10 {
        'a'
    } else if n == 11 {
        'b'
    } else if n == 12 {
        'c'
    } else if n == 13 {
        'd'
    } else if n == 14 {
        'e'
    } else {
        'f'
    }
}

/// A character that JSON requires to be escaped inside a string even though
/// it is neither a quote nor a backslash.
pub open spec fn is_control(c: char) -> bool {
    0 <= (c as int) && (c as int) < 32
}

/// The escape sequence that stands for one content character.
pub open spec fn esc_char(c: char) -> Seq<char> {
    if c == '"' {
        seq!['\\', '"']
    } else if c == '\\' {
        seq!['\\', '\\']
    } else if is_control(c) {
        seq!['\\', 'u', '0', '0', hex_char(c as int / 16), hex_char(c as int % 16)]
    } else {
        seq![c]
    }
}

/// The escaped form of a whole string: each character replaced by its escape
/// sequence.
pub open spec fn escape(s: Seq<char>) -> Seq<char>
    decreases s.len(),
{
    if s.len() == 0 {
        Seq::empty()
    } else {
        esc_char(s[0]) + escape(s.subrange(1, s.len() as int))
    }
}

/// Escaping distributes over concatenation.
pub proof fn lemma_escape_concat(a: Seq<char>, b: Seq<char>)
    ensures
        escape(a + b) == escape(a) + escape(b),
    decreases a.len(),
{
    if a.len() == 0 {
        assert(a + b =~= b);
        assert(escape(a) + escape(b) =~= escape(b));
    } else {
        let ab = a + b;
        assert(ab[0] == a[0]);
        assert(ab.subrange(1, ab.len() as int) =~= a.subrange(1, a.len() as int) + b);
        lemma_escape_concat(a.subrange(1, a.len() as int), b);
        assert(escape(a + b) =~= escape(a) + escape(b));
    }
}

/// Escaping one more character appends that character's escape sequence.
pub proof fn lemma_escape_push(s: Seq<char>, c: char)
    ensures
        escape(s.push(c)) == escape(s) + esc_char(c),
{
    assert(s.push(c) =~= s + seq![c]);
    lemma_escape_concat(s, seq![c]);
    assert(seq![c].subrange(1, 1) =~= Seq::<char>::empty());
    assert(escape(Seq::<char>::empty()) == Seq::<char>::empty());
    assert(seq![c][0] == c);
    assert(escape(seq![c]) == esc_char(c) + escape(seq![c].subrange(1, 1)));
    assert(escape(seq![c]) =~= esc_char(c));
}

/// The value of a lower-case hexadecimal digit, or a negative number for
/// any other character.
pub open spec fn hex_val(c: char) -> int {
    if c == '0' {
        0
    } else if c == '1' {
        1
    } else if c == '2' {
        2
    } else if c == '3' {
        3
    } else if c == '4' {
        4
    } else if c == '5' {
        5
    } else if c == '6' {
        6
    } else if c == '7' {
        7
    } else if c == '8' {
        8
    } else if c == '9' {
        9
    } else if c == 'a' {
        10
    } else if c == 'b' {
        11
    } else if c == 'c' {
        12
    } else if c == 'd' {
        13
    } else if c == 'e' {
        14
    } else if c == 'f' {
        15
    } else {
        -1
    }
}

/// Reading a string body from the front up to and over its closing quote:
/// the decoded content and what follows the quote, or nothing if the input
/// is exhausted, holds a raw control character, or holds an escape that the
/// escaper never writes.
pub open spec fn scan_string(s: Seq<char>) -> Option<(Seq<char>, Seq<char>)>
    decreases s.len(),
{
    if s.len() == 0 {
        None
    } else if s[0] == '"' {
        Some((Seq::empty(), s.skip(1)))
    } else if s[0] == '\\' {
        if s.len() < 2 {
            None
        } else if s[1] == '"' || s[1] == '\\' {
            match scan_string(s.skip(2)) {
                Some(r) => Some((seq![s[1]] + r.0, r.1)),
                None => None,
            }
        } else if s[1] == 'u' {
            if s.len() < 6 {
                None
            } else if s[2] == '0' && s[3] == '0' && hex_val(s[4]) >= 0 && hex_val(s[5]) >= 0
                && hex_val(s[4]) * 16 + hex_val(s[5]) < 32 {
                match scan_string(s.skip(6)) {
                    Some(r) => Some((seq![(hex_val(s[4]) * 16 + hex_val(s[5])) as char] + r.0, r.1)),
                    None => None,
                }
            } else {
                None
            }
        } else {
            None
        }
    } else if is_control(s[0]) {
        None
    } else {
        match scan_string(s.skip(1)) {
            Some(r) => Some((seq![s[0]] + r.0, r.1)),
            None => None,
        }
    }
}

/// A hexadecimal digit reads back as the value it was written for.
pub proof fn lemma_hex_char_val(n: int)
    requires
        0 <= n < 16,
    ensures
        hex_val(hex_char(n)) == n,
{
}

/// Scanning inverts escaping: the escaped content followed by a closing
/// quote and a tail decodes to exactly that content, leaving the tail.
pub proof fn lemma_scan_escape(m: Seq<char>, tail: Seq<char>)
    ensures
        scan_string(escape(m) + (seq!['"'] + tail)) == Some((m, tail)),
    decreases m.len(),
{
    let s = escape(m) + (seq!['"'] + tail);
    if m.len() == 0 {
        assert(escape(m) == Seq::<char>::empty());
        assert(s =~= seq!['"'] + tail);
        assert(s[0] == '"');
        assert(s.skip(1) =~= tail);
    } else {
        let c = m[0];
        let m1 = m.subrange(1, m.len() as int);
        assert(escape(m) == esc_char(c) + escape(m1));
        let s1 = escape(m1) + (seq!['"'] + tail);
        lemma_scan_escape(m1, tail);
        assert(seq![c] + m1 =~= m);
        if c == '"' {
            assert(s[0] == '\\' && s[1] == '"');
            assert(s.skip(2) =~= s1);
            assert(scan_string(s) == Some((seq![c] + m1, tail)));
        } else if c == '\\' {
            assert(s[0] == '\\' && s[1] == '\\');
            assert(s.skip(2) =~= s1);
            assert(scan_string(s) == Some((seq![c] + m1, tail)));
        } else if is_control(c) {
            assert(s[0] == '\\' && s[1] == 'u' && s[2] == '0' && s[3] == '0');
            assert(s[4] == hex_char(c as int / 16));
            assert(s[5] == hex_char(c as int % 16));
            assert(0 <= (c as int) / 16 && (c as int) / 16 < 16);
            assert(0 <= (c as int) % 16 && (c as int) % 16 < 16);
            lemma_hex_char_val(c as int / 16);
            lemma_hex_char_val(c as int % 16);
            assert(hex_val(s[4]) * 16 + hex_val(s[5]) == c as int);
            assert(((c as int) as char) == c);
            assert(s.skip(6) =~= s1);
            assert(scan_string(s) == Some((seq![c] + m1, tail)));
        } else {
            assert(s[0] == c && c != '"' && c != '\\' && !is_control(c));
            assert(s.skip(1) =~= s1);
            assert(scan_string(s) == Some((seq![c] + m1, tail)));
        }
    }
}

/// The scanning loop's ledger: what remains to be scanned, together with
/// what was already decoded, accounts exactly for the scan of the whole.
spec fn scan_rel(full: Seq<char>, acc: Seq<char>, rem: Seq<char>) -> bool {
    scan_string(full) == match scan_string(rem) {
        Some(r) => Some((acc + r.0, r.1)),
        None => None::<(Seq<char>, Seq<char>)>,
    }
}

/// The value of a lower-case hexadecimal digit character, if it is one.
pub fn hex_value(c: char) -> (r: Option<u8>)
    ensures
        match r {
            Some(v) => v < 16 && hex_val(c) == v as int,
            None => hex_val(c) < 0,
        },
{
    match c {
        '0' => Some(0),
        '1' => Some(1),
        '2' => Some(2),
        '3' => Some(3),
        '4' => Some(4),
        '5' => Some(5),
        '6' => Some(6),
        '7' => Some(7),
        '8' => Some(8),
        '9' => Some(9),
        'a' => Some(10),
        'b' => Some(11),
        'c' => Some(12),
        'd' => Some(13),
        'e' => Some(14),
        'f' => Some(15),
        _ => None,
    }
}

/// Scans a string body in `s` beginning at character position `start`,
/// decoding escapes, up to and over the closing quote. Returns the decoded
/// content and the position just past the quote.
pub fn scan_string_exec(s: &str, start: usize) -> (r: Option<(String, usize)>)
    requires
        start <= s@.len(),
    ensures
        match r {
            Some(p) => p.1 <= s@.len() && scan_string(s@.skip(start as int)) == Some(
                (p.0@, s@.skip(p.1 as int)),
            ),
            None => scan_string(s@.skip(start as int)) is None,
        },
{
    let ghost full = s@.skip(start as int);
    let n = s.unicode_len();
    let mut i: usize = start;
    let mut out = String::new();
    proof {
        match scan_string(full) {
            Some(r) => {
                assert(Seq::<char>::empty() + r.0 =~= r.0);
            },
            None => {},
        }
        assert(scan_rel(full, out@, s@.skip(start as int)));
    }
    while i < n
        invariant
            start <= i <= n,
            n == s@.len(),
            full == s@.skip(start as int),
            scan_rel(full, out@, s@.skip(i as int)),
        decreases n - i,
    {
        let ghost rem = s@.skip(i as int);
        proof {
            assert(rem.len() == n - i);
            assert(forall|k: int| 0 <= k < rem.len() ==> rem[k] == s@[i + k]);
        }
        let c = s.get_char(i);
        if c == '"' {
            proof {
                assert(rem.skip(1) =~= s@.skip(i + 1));
                assert(scan_string(rem) == Some((Seq::<char>::empty(), s@.skip(i + 1))));
                assert(out@ + Seq::<char>::empty() =~= out@);
            }
            return Some((out, i + 1));
        } else if c == '\\' {
            if i + 1 == n {
                proof {
                    assert(rem.len() < 2);
                    assert(scan_string(rem) is None);
                }
                return None;
            }
            let c2 = s.get_char(i + 1);
            if c2 == '"' || c2 == '\\' {
                let ghost acc0 = out@;
                push_char(&mut out, c2);
                proof {
                    assert(out@ =~= acc0 + seq![c2]);
                    assert(rem.skip(2) =~= s@.skip(i + 2));
                    match scan_string(s@.skip(i + 2)) {
                        Some(r) => {
                            assert(scan_string(rem) == Some((seq![c2] + r.0, r.1)));
                            assert(acc0 + (seq![c2] + r.0) =~= out@ + r.0);
                        },
                        None => {
                            assert(scan_string(rem) is None);
                        },
                    }
                }
                i = i + 2;
            } else if c2 == 'u' {
                if n - i < 6 {
                    proof {
                        assert(rem.len() < 6);
                        assert(scan_string(rem) is None);
                    }
                    return None;
                }
                let c3 = s.get_char(i + 2);
                let c4 = s.get_char(i + 3);
                if c3 != '0' || c4 != '0' {
                    proof {
                        assert(scan_string(rem) is None);
                    }
                    return None;
                }
                let hv = hex_value(s.get_char(i + 4));
                let lv = hex_value(s.get_char(i + 5));
                if hv.is_none() || lv.is_none() {
                    proof {
                        assert(scan_string(rem) is None);
                    }
                    return None;
                }
                let a = hv.unwrap();
                let b = lv.unwrap();
                let v: u8 = a * 16 + b;
                if v >= 32 {
                    proof {
                        assert(hex_val(rem[4]) * 16 + hex_val(rem[5]) == v as int);
                        assert(scan_string(rem) is None);
                    }
                    return None;
                }
                let ghost acc0 = out@;
                push_char(&mut out, v as char);
                proof {
                    let dc = (hex_val(rem[4]) * 16 + hex_val(rem[5])) as char;
                    assert(hex_val(rem[4]) * 16 + hex_val(rem[5]) == v as int);
                    assert(dc == v as char);
                    assert(out@ =~= acc0 + seq![dc]);
                    assert(rem.skip(6) =~= s@.skip(i + 6));
                    match scan_string(s@.skip(i + 6)) {
                        Some(r) => {
                            assert(scan_string(rem) == Some((seq![dc] + r.0, r.1)));
                            assert(acc0 + (seq![dc] + r.0) =~= out@ + r.0);
                        },
                        None => {
                            assert(scan_string(rem) is None);
                        },
                    }
                }
                i = i + 6;
            } else {
                proof {
                    assert(scan_string(rem) is None);
                }
                return None;
            }
        } else if (c as u32) < 32 {
            proof {
                assert(is_control(rem[0]));
                assert(scan_string(rem) is None);
            }
            return None;
        } else {
            let ghost acc0 = out@;
            push_char(&mut out, c);
            proof {
                assert(out@ =~= acc0 + seq![c]);
                assert(rem.skip(1) =~= s@.skip(i + 1));
                match scan_string(s@.skip(i + 1)) {
                    Some(r) => {
                        assert(scan_string(rem) == Some((seq![c] + r.0, r.1)));
                        assert(acc0 + (seq![c] + r.0) =~= out@ + r.0);
                    },
                    None => {
                        assert(scan_string(rem) is None);
                    },
                }
            }
            i = i + 1;
        }
    }
    proof {
        assert(s@.skip(i as int).len() == 0);
        assert(scan_string(s@.skip(i as int)) is None);
    }
    None
}

/// Relies on `String::push`: appends exactly the given character.
#[verifier::external_body]
pub(crate) fn push_char(out: &mut String, c: char)
    ensures
        final(out)@ == old(out)@.push(c),
{
    out.push(c);
}

/// The lower-case hexadecimal digit for a value below sixteen.
pub fn hex_digit(n: u8) -> (c: char)
    requires
        n < 16,
    ensures
        c == hex_char(n as int),
{
    match n {
        0 => '0',
        1 => '1',
        2 => '2',
        3 => '3',
        4 => '4',
        5 => '5',
        6 => '6',
        7 => '7',
        8 => '8',
        9 => '9',
        10 => 'a',
        11 => 'b',
        12 => 'c',
        13 => 'd',
        14 => 'e',
        _ => 'f',
    }
}

/// Appends the escaped form of `s` to `out`.
pub fn append_escaped(out: &mut String, s: &str)
    ensures
        final(out)@ == old(out)@ + escape(s@),
{
    let n = s.unicode_len();
    let mut i: usize = 0;
    proof {
        assert(s@.take(0) =~= Seq::<char>::empty());
        assert(out@ =~= old(out)@ + escape(s@.take(0)));
    }
    while i < n
        invariant
            i <= n,
            n == s@.len(),
            out@ == old(out)@ + escape(s@.take(i as int)),
        decreases n - i,
    {
        let c = s.get_char(i);
        if c == '"' {
            out.append("\\\"");
            proof {
                reveal_strlit("\\\"");
                assert("\\\""@ =~= esc_char(c));
            }
        } else if c == '\\' {
            out.append("\\\\");
            proof {
                reveal_strlit("\\\\");
                assert("\\\\"@ =~= esc_char(c));
            }
        } else if (c as u32) < 32 {
            out.append("\\u00");
            let hi = hex_digit((c as u32 / 16) as u8);
            let lo = hex_digit((c as u32 % 16) as u8);
            push_char(out, hi);
            push_char(out, lo);
            proof {
                reveal_strlit("\\u00");
                assert("\\u00"@ + seq![hi, lo] =~= esc_char(c)) by {
                    assert("\\u00"@ =~= seq!['\\', 'u', '0', '0']);
                    assert(hi == hex_char(c as int / 16));
                    assert(lo == hex_char(c as int % 16));
                };
                assert(out@ =~= old(out)@ + escape(s@.take(i as int)) + esc_char(c));
            }
        } else {
            push_char(out, c);
            proof {
                assert(seq![c] =~= esc_char(c));
                assert(out@ =~= old(out)@ + escape(s@.take(i as int)) + esc_char(c));
            }
        }
        proof {
            lemma_escape_push(s@.take(i as int), c);
            assert(s@.take(i as int).push(c) =~= s@.take(i + 1));
            assert(out@ =~= old(out)@ + escape(s@.take(i + 1)));
        }
        i += 1;
    }
    proof {
        assert(s@.take(n as int) =~= s@);
    }
}

} // verus!
