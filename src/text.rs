use vstd::prelude::*;

verus! {

/// ASCII whitespace, as `char::is_whitespace` classifies the bytes below 128.
pub open spec fn is_space(b: u8) -> bool {
    b == 32 || (9 <= b && b <= 13)
}

/// End of the line that starts at or before `i`: the index of the next `\n`, or the length.
pub open spec fn line_end(s: Seq<u8>, i: int) -> int
    decreases s.len() - i,
{
    if i >= s.len() {
        s.len() as int
    } else if s[i] == 10 {
        i
    } else {
        line_end(s, i + 1)
    }
}

/// The first line of `s`, without its terminating `\n`.
pub open spec fn first_line(s: Seq<u8>) -> Seq<u8> {
    s.subrange(0, line_end(s, 0))
}

/// Index of the first byte of `s` past the last `\n` strictly before `j`.
pub open spec fn line_start(s: Seq<u8>, j: int) -> int
    decreases j,
{
    if j <= 0 {
        0
    } else if s[j - 1] == 10 {
        j
    } else {
        line_start(s, j - 1)
    }
}

/// `s` without one terminating `\n`, as `str::lines` reads it.
pub open spec fn without_final_break(s: Seq<u8>) -> Seq<u8> {
    if s.len() > 0 && s.last() == 10 {
        s.drop_last()
    } else {
        s
    }
}

/// The last line of `s`, or `None` when `s` holds no line at all.
pub open spec fn last_line(s: Seq<u8>) -> Option<Seq<u8>> {
    if s.len() == 0 {
        None
    } else {
        let t = without_final_break(s);
        Some(t.subrange(line_start(t, t.len() as int), t.len() as int))
    }
}

pub fn first_line_end(s: &[u8]) -> (r: usize)
    ensures
        r as int == line_end(s@, 0),
        r <= s@.len(),
{
    let mut i: usize = 0;
    while i < s.len()
        invariant
            i <= s.len(),
            line_end(s@, 0) == line_end(s@, i as int),
        decreases s.len() - i,
    {
        if s[i] == 10 {
            return i;
        }
        i = i + 1;
    }
    i
}


/// Index of the first byte of the last line of `t`.
pub fn last_line_start(t: &[u8], len: usize) -> (r: usize)
    requires
        len <= t@.len(),
    ensures
        r as int == line_start(t@.subrange(0, len as int), len as int),
        r <= len,
{
    let ghost u = t@.subrange(0, len as int);
    let mut j: usize = len;
    while j > 0
        invariant
            j <= len <= t@.len(),
            u == t@.subrange(0, len as int),
            line_start(u, len as int) == line_start(u, j as int),
        decreases j,
    {
        if t[j - 1] == 10 {
            return j;
        }
        j = j - 1;
    }
    0
}

/// The words of `s` from position `i` on, where a word whose first byte is at
/// `start` is still open when `start < i`.
pub open spec fn words_from(s: Seq<u8>, i: int, start: int) -> Seq<Seq<u8>>
    decreases s.len() - i,
{
    if i >= s.len() {
        if start < s.len() {
            seq![s.subrange(start, s.len() as int)]
        } else {
            seq![]
        }
    } else if is_space(s[i]) {
        if start < i {
            seq![s.subrange(start, i)] + words_from(s, i + 1, i + 1)
        } else {
            words_from(s, i + 1, i + 1)
        }
    } else {
        words_from(s, i + 1, start)
    }
}

/// The maximal runs of non-whitespace bytes of `s`, in order (`str::split_whitespace`).
pub open spec fn words(s: Seq<u8>) -> Seq<Seq<u8>> {
    words_from(s, 0, 0)
}

pub open spec fn views(v: Seq<Vec<u8>>) -> Seq<Seq<u8>> {
    v.map_values(|w: Vec<u8>| w@)
}

/// Splits `s[from..to]` into its words.
pub fn split_words(s: &[u8], from: usize, to: usize) -> (r: Vec<Vec<u8>>)
    requires
        from <= to <= s@.len(),
    ensures
        views(r@) == words(s@.subrange(from as int, to as int)),
{
    let ghost u = s@.subrange(from as int, to as int);
    let mut acc: Vec<Vec<u8>> = Vec::new();
    let mut cur: Vec<u8> = Vec::new();
    let mut i: usize = from;
    let ghost mut start: int = 0;
    while i < to
        invariant
            from <= i <= to <= s@.len(),
            u == s@.subrange(from as int, to as int),
            0 <= start <= i - from,
            cur@ == u.subrange(start, i - from),
            views(acc@) + words_from(u, i - from, start) == words(u),
        decreases to - i,
    {
        let b = s[i];
        let ghost k: int = i - from;
        assert(u[k] == b);
        if is_space_byte(b) {
            if cur.len() > 0 {
                assert(views(acc@.push(cur)) == views(acc@).push(cur@));
                assert(seq![u.subrange(start, k)] + words_from(u, k + 1, k + 1)
                    == seq![cur@] + words_from(u, k + 1, k + 1));
                assert(views(acc@) + (seq![cur@] + words_from(u, k + 1, k + 1))
                    == views(acc@).push(cur@) + words_from(u, k + 1, k + 1));
                acc.push(cur);
            }
            cur = Vec::new();
            proof {
                start = k + 1;
            }
            assert(cur@ == u.subrange(start, k + 1));
        } else {
            cur.push(b);
            assert(cur@ == u.subrange(start, k + 1));
        }
        i = i + 1;
    }
    if cur.len() > 0 {
        assert(views(acc@.push(cur)) == views(acc@).push(cur@));
        assert(views(acc@) + seq![cur@] == views(acc@).push(cur@));
        acc.push(cur);
    } else {
        assert(views(acc@) + seq![] == views(acc@));
    }
    acc
}

pub fn is_space_byte(b: u8) -> (r: bool)
    ensures
        r == is_space(b),
{
    b == 32 || (9 <= b && b <= 13)
}

pub open spec fn is_digit(b: u8) -> bool {
    48 <= b && b <= 57
}

pub open spec fn all_digits(w: Seq<u8>) -> bool {
    w.len() > 0 && forall|i: int| 0 <= i < w.len() ==> is_digit(#[trigger] w[i])
}

/// The number that the decimal digits of `w` write.
pub open spec fn digits_value(w: Seq<u8>) -> nat
    decreases w.len(),
{
    if w.len() == 0 {
        0
    } else {
        digits_value(w.drop_last()) * 10 + (w.last() - 48) as nat
    }
}

/// What `str::parse` reads from `w` as an unsigned number: digits, after an optional `+`.
pub open spec fn nat_value(w: Seq<u8>) -> Option<nat> {
    if w.len() > 0 && w[0] == 43 && all_digits(w.drop_first()) {
        Some(digits_value(w.drop_first()))
    } else if all_digits(w) {
        Some(digits_value(w))
    } else {
        None
    }
}

/// What `str::parse` reads from `w` as a signed number.
pub open spec fn int_value(w: Seq<u8>) -> Option<int> {
    if w.len() > 0 && w[0] == 45 && all_digits(w.drop_first()) {
        Some(-digits_value(w.drop_first()))
    } else {
        match nat_value(w) {
            Some(n) => Some(n as int),
            None => None,
        }
    }
}

/// `w` read as a `u64`, `None` where it is no number or out of range.
pub open spec fn u64_value(w: Seq<u8>) -> Option<u64> {
    match nat_value(w) {
        Some(n) => if n <= u64::MAX { Some(n as u64) } else { None },
        None => None,
    }
}

/// `w` read as an `i64`, `None` where it is no number or out of range.
pub open spec fn i64_value(w: Seq<u8>) -> Option<i64> {
    match int_value(w) {
        Some(n) => if i64::MIN <= n <= i64::MAX { Some(n as i64) } else { None },
        None => None,
    }
}

proof fn lemma_digits_prefix(w: Seq<u8>, i: int)
    requires
        0 <= i <= w.len(),
    ensures
        digits_value(w.subrange(0, i)) <= digits_value(w),
    decreases w.len(),
{
    if i < w.len() {
        assert(w.subrange(0, i) == w.drop_last().subrange(0, i));
        lemma_digits_prefix(w.drop_last(), i);
    } else {
        assert(w.subrange(0, i) == w);
    }
}

/// Reads the decimal digits `s[from..to]`; `None` where the value exceeds `u64::MAX`.
fn parse_digits(s: &[u8], from: usize, to: usize) -> (r: Option<u64>)
    requires
        from <= to <= s@.len(),
        all_digits(s@.subrange(from as int, to as int)),
    ensures
        r == (if digits_value(s@.subrange(from as int, to as int)) <= u64::MAX {
            Some(digits_value(s@.subrange(from as int, to as int)) as u64)
        } else {
            None::<u64>
        }),
{
    let ghost w = s@.subrange(from as int, to as int);
    let mut v: u64 = 0;
    let mut i: usize = from;
    while i < to
        invariant
            from <= i <= to <= s@.len(),
            w == s@.subrange(from as int, to as int),
            all_digits(w),
            v as nat == digits_value(w.subrange(0, i - from)),
        decreases to - i,
    {
        let ghost k: int = i - from;
        assert(is_digit(w[k]));
        assert(w.subrange(0, k + 1).drop_last() == w.subrange(0, k));
        let d: u64 = (s[i] - 48) as u64;
        match v.checked_mul(10) {
            Some(t) => match t.checked_add(d) {
                Some(n) => {
                    v = n;
                },
                None => {
                    proof {
                        lemma_digits_prefix(w, k + 1);
                    }
                    return None;
                },
            },
            None => {
                proof {
                    lemma_digits_prefix(w, k + 1);
                }
                return None;
            },
        }
        i = i + 1;
    }
    assert(w.subrange(0, w.len() as int) == w);
    Some(v)
}

fn check_digits(s: &[u8], from: usize, to: usize) -> (r: bool)
    requires
        from <= to <= s@.len(),
    ensures
        r == all_digits(s@.subrange(from as int, to as int)),
{
    let ghost w = s@.subrange(from as int, to as int);
    if from == to {
        return false;
    }
    let mut i: usize = from;
    while i < to
        invariant
            from <= i <= to <= s@.len(),
            w == s@.subrange(from as int, to as int),
            forall|j: int| 0 <= j < i - from ==> is_digit(#[trigger] w[j]),
        decreases to - i,
    {
        if !(48 <= s[i] && s[i] <= 57) {
            assert(!is_digit(w[i - from]));
            return false;
        }
        i = i + 1;
    }
    true
}

/// Parses `w` as `str::parse::<u64>` does.
pub fn parse_u64(w: &[u8]) -> (r: Option<u64>)
    ensures
        r == u64_value(w@),
{
    let n = w.len();
    assert(w@.subrange(0, n as int) == w@);
    if n > 0 && w[0] == 43 {
        assert(w@.subrange(1, n as int) == w@.drop_first());
        if check_digits(w, 1, n) {
            return parse_digits(w, 1, n);
        }
    }
    if check_digits(w, 0, n) {
        parse_digits(w, 0, n)
    } else {
        None
    }
}

/// Parses `w` as `str::parse::<i64>` does.
pub fn parse_i64(w: &[u8]) -> (r: Option<i64>)
    ensures
        r == i64_value(w@),
{
    let n = w.len();
    if n > 0 && w[0] == 45 {
        assert(w@.subrange(1, n as int) == w@.drop_first());
        if check_digits(w, 1, n) {
            return match parse_digits(w, 1, n) {
                Some(v) => if v <= 9223372036854775808 {
                    if v == 9223372036854775808 {
                        Some(i64::MIN)
                    } else {
                        Some(-(v as i64))
                    }
                } else {
                    None
                },
                None => None,
            };
        }
    }
    match parse_u64(w) {
        Some(v) => if v <= 9223372036854775807 {
            Some(v as i64)
        } else {
            None
        },
        None => None,
    }
}


pub open spec fn digit_char(d: nat) -> char {
    if d == 0 { '0' } else if d == 1 { '1' } else if d == 2 { '2' } else if d == 3 { '3' }
    else if d == 4 { '4' } else if d == 5 { '5' } else if d == 6 { '6' } else if d == 7 { '7' }
    else if d == 8 { '8' } else { '9' }
}

/// The decimal digits of `n`, most significant first, without leading zeros.
pub open spec fn decimal(n: nat) -> Seq<char>
    decreases n,
{
    if n < 10 {
        seq![digit_char(n)]
    } else {
        decimal(n / 10).push(digit_char(n % 10))
    }
}

/// `n / 10` written with one decimal place: `tenths(123) == "12.3"`.
pub open spec fn tenths(n: nat) -> Seq<char> {
    decimal(n / 10) + seq!['.'] + seq![digit_char(n % 10)]
}

/// `t / 10` written with one decimal place and a sign where it is negative.
pub open spec fn signed_tenths(t: int) -> Seq<char> {
    if t < 0 {
        seq!['-'] + tenths((-t) as nat)
    } else {
        tenths(t as nat)
    }
}

fn push_digit(s: &mut String, d: u64)
    requires
        d < 10,
    ensures
        final(s)@ == old(s)@.push(digit_char(d as nat)),
{
    let lit: &str = if d == 0 { "0" } else if d == 1 { "1" } else if d == 2 { "2" }
        else if d == 3 { "3" } else if d == 4 { "4" } else if d == 5 { "5" }
        else if d == 6 { "6" } else if d == 7 { "7" } else if d == 8 { "8" } else { "9" };
    proof {
        reveal_strlit("0");
        reveal_strlit("1");
        reveal_strlit("2");
        reveal_strlit("3");
        reveal_strlit("4");
        reveal_strlit("5");
        reveal_strlit("6");
        reveal_strlit("7");
        reveal_strlit("8");
        reveal_strlit("9");
    }
    assert(lit@ == seq![digit_char(d as nat)]);
    s.append(lit);
}

/// Appends the decimal digits of `n` to `s`.
pub fn push_decimal(s: &mut String, n: u64)
    ensures
        final(s)@ == old(s)@ + decimal(n as nat),
    decreases n,
{
    if n >= 10 {
        push_decimal(s, n / 10);
        push_digit(s, n % 10);
        assert(old(s)@ + decimal(n as nat) == old(s)@ + decimal((n / 10) as nat) + seq![digit_char((n % 10) as nat)]);
    } else {
        push_digit(s, n);
        assert(old(s)@ + decimal(n as nat) == old(s)@.push(digit_char(n as nat)));
    }
}

/// Appends `n / 10` with one decimal place to `s`.
pub fn push_tenths(s: &mut String, n: u64)
    ensures
        final(s)@ == old(s)@ + tenths(n as nat),
{
    push_decimal(s, n / 10);
    s.append(".");
    proof {
        reveal_strlit(".");
    }
    push_digit(s, n % 10);
    assert(s@ == old(s)@ + tenths(n as nat));
}

/// Appends `t / 10` with one decimal place, and its sign, to `s`.
pub fn push_signed_tenths(s: &mut String, t: i64)
    ensures
        final(s)@ == old(s)@ + signed_tenths(t as int),
{
    if t < 0 {
        s.append("-");
        proof {
            reveal_strlit("-");
        }
        let m: u64 = if t == i64::MIN { 9223372036854775808u64 } else { (-t) as u64 };
        push_tenths(s, m);
        assert(s@ == old(s)@ + signed_tenths(t as int));
    } else {
        push_tenths(s, t as u64);
    }
}

} // verus!
