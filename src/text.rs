//! Text helpers: decimal rendering of numbers and parsing of the process-id
//! listings printed by the system's lookup tools.
use vstd::prelude::*;

verus! {

/// The ASCII character of a decimal digit.
pub open spec fn digit_char(d: nat) -> char {
    if d == 0 { '0' }
    else if d == 1 { '1' }
    else if d == 2 { '2' }
    else if d == 3 { '3' }
    else if d == 4 { '4' }
    else if d == 5 { '5' }
    else if d == 6 { '6' }
    else if d == 7 { '7' }
    else if d == 8 { '8' }
    else { '9' }
}

/// The decimal rendering of `n`, without sign or leading zeros.
pub open spec fn decimal(n: nat) -> Seq<char>
    decreases n,
{
    if n < 10 {
        seq![digit_char(n)]
    } else {
        decimal(n / 10) + seq![digit_char(n % 10)]
    }
}

fn digit_str(d: u32) -> (r: &'static str)
    requires
        d < 10,
    ensures
        r@ == seq![digit_char(d as nat)],
{
    proof {
        reveal_strlit("0");
        reveal_strlit("1");
        reveal_strlit("2");
        reveal_strlit("3");
        reveal_strlit("4");
        reveal_strlit("5");
        reveal_strlit("6");
        reveal_strlit("7");
        reveal_strlit("8");
        reveal_strlit("9");
    }
    if d == 0 { "0" }
    else if d == 1 { "1" }
    else if d == 2 { "2" }
    else if d == 3 { "3" }
    else if d == 4 { "4" }
    else if d == 5 { "5" }
    else if d == 6 { "6" }
    else if d == 7 { "7" }
    else if d == 8 { "8" }
    else { "9" }
}

/// Appends the decimal rendering of `n` to `s`.
pub fn push_decimal(s: &mut String, n: u32)
    ensures
        final(s)@ == old(s)@ + decimal(n as nat),
    decreases n,
{
    if n >= 10 {
        push_decimal(s, n / 10);
    }
    s.append(digit_str(n % 10));
    assert(s@ =~= old(s)@ + decimal(n as nat));
}

/// The decimal rendering of `n` as a new string.
pub fn decimal_string(n: u32) -> (r: String)
    ensures
        r@ == decimal(n as nat),
{
    let mut s = String::new();
    push_decimal(&mut s, n);
    assert(s@ =~= decimal(n as nat));
    s
}

/// Whitespace as `char::is_whitespace` defines it: the characters with the
/// Unicode `White_Space` property.
pub open spec fn is_space(c: char) -> bool {
    let u = c as u32;
    (0x9 <= u <= 0xd) || u == 0x20 || u == 0x85 || u == 0xa0 || u == 0x1680 || (0x2000 <= u
        <= 0x200a) || u == 0x2028 || u == 0x2029 || u == 0x202f || u == 0x205f || u == 0x3000
}

/// `s` without its leading whitespace.
pub open spec fn trim_start(s: Seq<char>) -> Seq<char>
    decreases s.len(),
{
    if s.len() > 0 && is_space(s[0]) {
        trim_start(s.drop_first())
    } else {
        s
    }
}

/// `s` without its trailing whitespace.
pub open spec fn trim_end(s: Seq<char>) -> Seq<char>
    decreases s.len(),
{
    if s.len() > 0 && is_space(s.last()) {
        trim_end(s.drop_last())
    } else {
        s
    }
}

/// `s` without leading or trailing whitespace.
pub open spec fn trim(s: Seq<char>) -> Seq<char> {
    trim_end(trim_start(s))
}

pub open spec fn is_digit(c: char) -> bool {
    '0' <= c && c <= '9'
}

pub open spec fn digit_value(c: char) -> nat {
    (c as u32 - '0' as u32) as nat
}

/// The number that the decimal digits `d` spell, most significant first.
pub open spec fn digits_value(d: Seq<char>) -> nat
    decreases d.len(),
{
    if d.len() == 0 {
        0
    } else {
        digits_value(d.drop_last()) * 10 + digit_value(d.last())
    }
}

/// `s` without one leading `+`, if it has one.
pub open spec fn strip_plus(s: Seq<char>) -> Seq<char> {
    if s.len() > 0 && s[0] == '+' {
        s.drop_first()
    } else {
        s
    }
}

/// The value of `d` if it is one or more decimal digits whose value fits
/// in 32 bits.
pub open spec fn parse_digits(d: Seq<char>) -> Option<u32> {
    if d.len() > 0 && (forall|k: int| 0 <= k < d.len() ==> is_digit(#[trigger] d[k])) && digits_value(d)
        <= u32::MAX {
        Some(digits_value(d) as u32)
    } else {
        None
    }
}

/// What parsing `s` as a `u32` gives: an optional `+`, then one or more
/// decimal digits whose value fits in 32 bits.
pub open spec fn parse_u32(s: Seq<char>) -> Option<u32> {
    parse_digits(strip_plus(s))
}

/// The process id that one line of a listing names, if it names one.
pub open spec fn line_pid(line: Seq<char>) -> Option<u32> {
    parse_u32(trim(line))
}

pub open spec fn option_seq(o: Option<u32>) -> Seq<u32> {
    match o {
        Some(v) => seq![v],
        None => seq![],
    }
}

/// The process ids named by `line + t`, where `line` is the start of a line
/// already read: the text is cut at each `'\n'`, and every line that holds,
/// but for surrounding whitespace, a number that fits in 32 bits gives one id,
/// in the order of the lines. Other lines are passed over.
pub open spec fn scan_pids(t: Seq<char>, line: Seq<char>) -> Seq<u32>
    decreases t.len(),
{
    if t.len() == 0 {
        option_seq(line_pid(line))
    } else if t[0] == '\n' {
        option_seq(line_pid(line)) + scan_pids(t.drop_first(), seq![])
    } else {
        scan_pids(t.drop_first(), line.push(t[0]))
    }
}

/// The process ids that a listing names, one per line.
pub open spec fn pid_list(t: Seq<char>) -> Seq<u32> {
    scan_pids(t, seq![])
}

pub fn is_space_char(c: char) -> (r: bool)
    ensures
        r == is_space(c),
{
    let u = c as u32;
    (0x9 <= u && u <= 0xd) || u == 0x20 || u == 0x85 || u == 0xa0 || u == 0x1680 || (0x2000 <= u
        && u <= 0x200a) || u == 0x2028 || u == 0x2029 || u == 0x202f || u == 0x205f || u == 0x3000
}

proof fn lemma_prefix_value_le(d: Seq<char>, k: int)
    requires
        0 <= k <= d.len(),
    ensures
        digits_value(d.subrange(0, k)) <= digits_value(d),
    decreases d.len(),
{
    if k < d.len() {
        lemma_prefix_value_le(d.drop_last(), k);
        assert(d.drop_last().subrange(0, k) =~= d.subrange(0, k));
    } else {
        assert(d.subrange(0, k) =~= d);
    }
}

/// Parses `text[start..end]` as a `u32`, as `str::parse` does.
pub fn parse_u32_at(text: &Vec<char>, start: usize, end: usize) -> (r: Option<u32>)
    requires
        start <= end <= text@.len(),
    ensures
        r == parse_u32(text@.subrange(start as int, end as int)),
{
    let ghost s = text@.subrange(start as int, end as int);
    let mut a = start;
    if a < end && text[a] == '+' {
        a = a + 1;
        assert(s.drop_first() =~= text@.subrange(a as int, end as int));
    }
    let ghost d = text@.subrange(a as int, end as int);
    assert(d =~= strip_plus(s));
    if a == end {
        return None;
    }
    let mut v: u64 = 0;
    let mut k = a;
    while k < end
        invariant
            start <= a <= k <= end <= text@.len(),
            d == text@.subrange(a as int, end as int),
            s == text@.subrange(start as int, end as int),
            d == strip_plus(s),
            v <= u32::MAX,
            v == digits_value(d.subrange(0, k - a)),
            forall|i: int| 0 <= i < k - a ==> is_digit(#[trigger] d[i]),
        decreases end - k,
    {
        let c = text[k];
        if !('0' <= c && c <= '9') {
            assert(!is_digit(d[k - a]));
            return None;
        }
        let ghost p = d.subrange(0, k + 1 - a);
        assert(p.drop_last() =~= d.subrange(0, k - a));
        v = v * 10 + (c as u32 - '0' as u32) as u64;
        k = k + 1;
        if v > u32::MAX as u64 {
            proof {
                if forall|i: int| 0 <= i < d.len() ==> is_digit(#[trigger] d[i]) {
                    lemma_prefix_value_le(d, k - a);
                }
            }
            return None;
        }
    }
    assert(d.subrange(0, k - a) =~= d);
    Some(v as u32)
}

/// The process id on `text[start..end]`, read as `str::trim` and
/// `str::parse` read it.
pub fn line_pid_at(text: &Vec<char>, start: usize, end: usize) -> (r: Option<u32>)
    requires
        start <= end <= text@.len(),
    ensures
        r == line_pid(text@.subrange(start as int, end as int)),
{
    let mut i = start;
    while i < end && is_space_char(text[i])
        invariant
            start <= i <= end <= text@.len(),
            trim_start(text@.subrange(start as int, end as int)) == trim_start(
                text@.subrange(i as int, end as int),
            ),
        decreases end - i,
    {
        assert(text@.subrange(i as int, end as int).drop_first() =~= text@.subrange(
            i + 1,
            end as int,
        ));
        i = i + 1;
    }
    let mut j = end;
    while j > i && is_space_char(text[j - 1])
        invariant
            start <= i <= j <= end <= text@.len(),
            trim_end(text@.subrange(i as int, end as int)) == trim_end(
                text@.subrange(i as int, j as int),
            ),
        decreases j,
    {
        assert(text@.subrange(i as int, j as int).drop_last() =~= text@.subrange(
            i as int,
            j - 1,
        ));
        j = j - 1;
    }
    parse_u32_at(text, i, j)
}

/// The process ids that a listing names, one per line, in order.
pub fn parse_pid_list(text: &Vec<char>) -> (r: Vec<u32>)
    ensures
        r@ == pid_list(text@),
{
    let n = text.len();
    let mut out: Vec<u32> = Vec::new();
    let mut start: usize = 0;
    let mut i: usize = 0;
    assert(text@.subrange(0, n as int) =~= text@);
    assert(text@.subrange(0, 0) =~= Seq::<char>::empty());
    assert(out@ + pid_list(text@) =~= pid_list(text@));
    while i < n
        invariant
            n == text@.len(),
            start <= i <= n,
            out@ + scan_pids(text@.subrange(i as int, n as int), text@.subrange(start as int, i as int))
                == pid_list(text@),
        decreases n - i,
    {
        let ghost rest = text@.subrange(i as int, n as int);
        assert(rest.drop_first() =~= text@.subrange(i + 1, n as int));
        if text[i] == '\n' {
            let ghost before = out@;
            match line_pid_at(text, start, i) {
                Some(p) => out.push(p),
                None => {},
            }
            assert(out@ =~= before + option_seq(line_pid(text@.subrange(start as int, i as int))));
            assert(text@.subrange(i + 1, i + 1) =~= Seq::<char>::empty());
            assert(out@ + scan_pids(text@.subrange(i + 1, n as int), seq![]) =~= before + (
            option_seq(line_pid(text@.subrange(start as int, i as int))) + scan_pids(
                text@.subrange(i + 1, n as int),
                seq![],
            )));
            start = i + 1;
        } else {
            assert(text@.subrange(start as int, i as int).push(text@[i as int]) =~= text@.subrange(
                start as int,
                i + 1,
            ));
        }
        i = i + 1;
    }
    assert(text@.subrange(n as int, n as int) =~= Seq::<char>::empty());
    assert(out@ =~= out@ + Seq::<u32>::empty());
    assert(text@.subrange(0, n as int) =~= text@);
    match line_pid_at(text, start, n) {
        Some(p) => out.push(p),
        None => {},
    }
    assert(out@ =~= pid_list(text@));
    out
}

/// What `String::from_utf8_lossy` makes of `b`: the text `b` decodes to,
/// with each ill-formed sequence replaced by U+FFFD.
pub uninterp spec fn lossy_text(b: Seq<u8>) -> Seq<char>;

/// Relies on `String::from_utf8_lossy`, for the text that a tool printed.
#[verifier::external_body]
fn decode_lossy(bytes: &[u8]) -> (r: Vec<char>)
    ensures
        r@ == lossy_text(bytes@),
{
    String::from_utf8_lossy(bytes).chars().collect()
}

/// The process ids that a lookup tool printed, one per line.
pub fn pids_in_output(stdout: &[u8]) -> (r: Vec<u32>)
    ensures
        r@ == pid_list(lossy_text(stdout@)),
{
    let text = decode_lossy(stdout);
    parse_pid_list(&text)
}

} // verus!
