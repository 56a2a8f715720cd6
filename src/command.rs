//! Reading a request frame: its whitespace-separated tokens, the verb, and
//! the id argument of `GET`.

use vstd::prelude::*;

use crate::chars::chars_of;

verus! {

/// The separators between tokens: ASCII whitespace.
pub open spec fn is_space(c: char) -> bool {
    c == ' ' || c == '\t' || c == '\n' || c == '\r' || c == '\x0C'
}

/// Reading `s` from the left: the tokens already ended by a separator, and
/// the characters of the token being read.
pub open spec fn scan_tokens(s: Seq<char>) -> (Seq<Seq<char>>, Seq<char>)
    decreases s.len(),
{
    if s.len() == 0 {
        (seq![], seq![])
    } else {
        let (done, cur) = scan_tokens(s.drop_last());
        if is_space(s.last()) {
            if cur.len() > 0 {
                (done.push(cur), seq![])
            } else {
                (done, seq![])
            }
        } else {
            (done, cur.push(s.last()))
        }
    }
}

/// The maximal runs of non-separators in `s`, in order.
pub open spec fn tokens(s: Seq<char>) -> Seq<Seq<char>> {
    let (done, cur) = scan_tokens(s);
    if cur.len() > 0 {
        done.push(cur)
    } else {
        done
    }
}

pub open spec fn is_digit(c: char) -> bool {
    '0' <= c && c <= '9'
}

/// One or more decimal digits.
pub open spec fn all_digits(s: Seq<char>) -> bool {
    s.len() > 0 && forall|i: int| 0 <= i < s.len() ==> is_digit(#[trigger] s[i])
}

/// The number that the digits of `s` write in decimal.
pub open spec fn digits_value(s: Seq<char>) -> int
    decreases s.len(),
{
    if s.len() == 0 {
        0
    } else {
        digits_value(s.drop_last()) * 10 + (s.last() as int - '0' as int)
    }
}

/// The integer that `s` writes: decimal digits, with an optional leading
/// `+` or `-`.
pub open spec fn int_of(s: Seq<char>) -> Option<int> {
    if s.len() > 0 && (s[0] == '-' || s[0] == '+') {
        let d = s.drop_first();
        if !all_digits(d) {
            None
        } else if s[0] == '-' {
            Some(-digits_value(d))
        } else {
            Some(digits_value(d))
        }
    } else if all_digits(s) {
        Some(digits_value(s))
    } else {
        None
    }
}

/// The id that `s` names: its integer, where that fits an `i64`.
pub open spec fn id_of(s: Seq<char>) -> Option<i64> {
    match int_of(s) {
        Some(v) => if i64::MIN <= v <= i64::MAX {
            Some(v as i64)
        } else {
            None
        },
        None => None,
    }
}

/// A request, as its verb and arguments select it.
#[derive(Debug, Clone, Copy, PartialEq, Eq, Structural)]
pub enum Command {
    /// `GET n`; `None` where the argument is missing or names no id.
    Get(Option<i64>),
    /// `QUIT`: end this session.
    Quit,
    /// `SHUTDOWN`: end the whole process.
    Shutdown,
    /// Any other verb, or none.
    Unrecognized,
}

/// The command that the frame `frame` asks for. The verb must match exactly;
/// arguments after the ones a verb reads are ignored.
pub open spec fn command_of(frame: Seq<char>) -> Command {
    let ts = tokens(frame);
    if ts.len() == 0 {
        Command::Unrecognized
    } else if ts[0] == "GET"@ {
        Command::Get(
            if ts.len() > 1 {
                id_of(ts[1])
            } else {
                None
            },
        )
    } else if ts[0] == "QUIT"@ {
        Command::Quit
    } else if ts[0] == "SHUTDOWN"@ {
        Command::Shutdown
    } else {
        Command::Unrecognized
    }
}

proof fn lemma_digits_value_nonneg(s: Seq<char>)
    requires
        forall|i: int| 0 <= i < s.len() ==> is_digit(#[trigger] s[i]),
    ensures
        digits_value(s) >= 0,
    decreases s.len(),
{
    if s.len() > 0 {
        lemma_digits_value_nonneg(s.drop_last());
    }
}

/// A number's leading digits write no more than the whole number.
proof fn lemma_digits_value_prefix(s: Seq<char>, k: int)
    requires
        0 <= k <= s.len(),
        forall|i: int| 0 <= i < s.len() ==> is_digit(#[trigger] s[i]),
    ensures
        digits_value(s.subrange(0, k)) <= digits_value(s),
    decreases s.len(),
{
    if k < s.len() {
        let p = s.drop_last();
        lemma_digits_value_prefix(p, k);
        lemma_digits_value_nonneg(p);
        assert(p.subrange(0, k) == s.subrange(0, k));
    } else {
        assert(s.subrange(0, k) == s);
    }
}

/// The id that the characters `t` name, if any.
pub fn parse_id(t: &[char]) -> (r: Option<i64>)
    ensures
        r == id_of(t@),
{
    let n = t.len();
    if n == 0 {
        return None;
    }
    let neg = t[0] == '-';
    let start: usize = if t[0] == '-' || t[0] == '+' { 1 } else { 0 };
    let ghost d = t@.subrange(start as int, n as int);
    assert(start == 1 ==> d == t@.drop_first());
    assert(start == 0 ==> d == t@);
    if start == n {
        return None;
    }
    let mut acc: u128 = 0;
    let mut i: usize = start;
    while i < n
        invariant
            start <= i <= n,
            n == t@.len(),
            n > 0,
            neg == (t@[0] == '-'),
            start == (if t@[0] == '-' || t@[0] == '+' { 1usize } else { 0usize }),
            d == t@.subrange(start as int, n as int),
            start == 1 ==> d == t@.drop_first(),
            start == 0 ==> d == t@,
            acc as int == digits_value(d.subrange(0, i - start)),
            acc <= 0x8000_0000_0000_0000,
            forall|j: int| 0 <= j < i - start ==> is_digit(#[trigger] d[j]),
        decreases n - i,
    {
        let c = t[i];
        assert(c == d[i - start]);
        if !('0' <= c && c <= '9') {
            assert(!is_digit(d[i - start]));
            return None;
        }
        let next: u128 = acc * 10 + (c as u128 - '0' as u128);
        assert(d.subrange(0, i + 1 - start).drop_last() == d.subrange(0, i - start));
        if next > 0x8000_0000_0000_0000 {
            proof {
                let k = i + 1 - start;
                let dk = d.subrange(0, k);
                assert(dk.last() == c);
                assert(digits_value(dk) == next);
                if all_digits(d) {
                    lemma_digits_value_prefix(d, k);
                }
            }
            return None;
        }
        acc = next;
        i = i + 1;
    }
    assert(d.subrange(0, n - start) == d);
    if neg {
        Some((0 - (acc as i128)) as i64)
    } else if acc <= 0x7FFF_FFFF_FFFF_FFFF {
        Some(acc as i64)
    } else {
        None
    }
}

/// The views of a vector of character vectors.
pub open spec fn char_views(v: Seq<Vec<char>>) -> Seq<Seq<char>> {
    v.map_values(|t: Vec<char>| t@)
}

/// The tokens of `cs`.
pub fn split_tokens(cs: &Vec<char>) -> (r: Vec<Vec<char>>)
    ensures
        char_views(r@) == tokens(cs@),
{
    let mut out: Vec<Vec<char>> = Vec::new();
    let mut cur: Vec<char> = Vec::new();
    let mut i: usize = 0;
    while i < cs.len()
        invariant
            i <= cs.len(),
            scan_tokens(cs@.subrange(0, i as int)) == (char_views(out@), cur@),
        decreases cs.len() - i,
    {
        let c = cs[i];
        proof {
            let p = cs@.subrange(0, i + 1);
            assert(p.drop_last() == cs@.subrange(0, i as int));
            assert(p.last() == c);
        }
        if c == ' ' || c == '\t' || c == '\n' || c == '\r' || c == '\x0C' {
            if cur.len() > 0 {
                let ghost w = cur@;
                out.push(cur);
                assert(char_views(out@) == char_views(out@.drop_last()).push(w));
                cur = Vec::new();
            }
        } else {
            cur.push(c);
        }
        i = i + 1;
    }
    assert(cs@.subrange(0, cs@.len() as int) == cs@);
    if cur.len() > 0 {
        let ghost w = cur@;
        out.push(cur);
        assert(char_views(out@) == char_views(out@.drop_last()).push(w));
    }
    out
}

/// Whether the characters `t` are exactly the word `w`.
fn is_word(t: &Vec<char>, w: &str) -> (r: bool)
    ensures
        r == (t@ == w@),
{
    let n = w.unicode_len();
    if t.len() != n {
        return false;
    }
    let mut i: usize = 0;
    while i < n
        invariant
            n == w@.len(),
            t@.len() == n,
            i <= n,
            forall|j: int| 0 <= j < i ==> t@[j] == w@[j],
        decreases n - i,
    {
        if t[i] != w.get_char(i) {
            return false;
        }
        i = i + 1;
    }
    assert(t@ == w@);
    true
}

/// The command that the request frame `frame` asks for.
pub fn parse_command(frame: &str) -> (r: Command)
    ensures
        r == command_of(frame@),
{
    let ts = split_tokens(&chars_of(frame));
    assert(forall|k: int| 0 <= k < ts@.len() ==> #[trigger] char_views(ts@)[k] == ts@[k]@);
    if ts.len() == 0 {
        Command::Unrecognized
    } else if is_word(&ts[0], "GET") {
        if ts.len() > 1 {
            Command::Get(parse_id(ts[1].as_slice()))
        } else {
            Command::Get(None)
        }
    } else if is_word(&ts[0], "QUIT") {
        Command::Quit
    } else if is_word(&ts[0], "SHUTDOWN") {
        Command::Shutdown
    } else {
        Command::Unrecognized
    }
}

} // verus!
