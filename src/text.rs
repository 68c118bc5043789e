use vstd::prelude::*;

verus! {

/// Unicode `White_Space` characters: the separators between the tokens of a command line.
pub open spec fn is_ws(c: char) -> bool {
    let u = c as u32;
    (0x09 <= u && u <= 0x0D) || u == 0x20 || u == 0x85 || u == 0xA0 || u == 0x1680 || (0x2000
        <= u && u <= 0x200A) || u == 0x2028 || u == 0x2029 || u == 0x202F || u == 0x205F || u
        == 0x3000
}

/// Length of the run of non-whitespace characters at the start of `s`.
pub open spec fn word_len(s: Seq<char>) -> nat
    decreases s.len(),
{
    if s.len() == 0 || is_ws(s[0]) {
        0
    } else {
        1 + word_len(s.drop_first())
    }
}

/// The maximal runs of non-whitespace characters of `s`, in order.
pub open spec fn tokens(s: Seq<char>) -> Seq<Seq<char>>
    decreases s.len()
        via tokens_decreases
{
    if s.len() == 0 {
        seq![]
    } else if is_ws(s[0]) {
        tokens(s.drop_first())
    } else {
        let n = word_len(s);
        seq![s.take(n as int)] + tokens(s.skip(n as int))
    }
}

proof fn lemma_word_len_bound(s: Seq<char>)
    ensures
        word_len(s) <= s.len(),
        s.len() > 0 && !is_ws(s[0]) ==> word_len(s) >= 1,
    decreases s.len(),
{
    if s.len() > 0 && !is_ws(s[0]) {
        lemma_word_len_bound(s.drop_first());
    }
}

#[via_fn]
proof fn tokens_decreases(s: Seq<char>) {
    lemma_word_len_bound(s);
}

proof fn lemma_word_len_ws_suffix(a: Seq<char>, t1: Seq<char>, t2: Seq<char>)
    requires
        t1.len() > 0,
        t2.len() > 0,
        is_ws(t1[0]),
        is_ws(t2[0]),
    ensures
        word_len(a + t1) == word_len(a + t2),
        word_len(a + t1) <= a.len(),
    decreases a.len(),
{
    let x = a + t1;
    let y = a + t2;
    if a.len() == 0 {
        assert(x[0] == t1[0]);
        assert(y[0] == t2[0]);
    } else {
        assert(x[0] == a[0]);
        assert(y[0] == a[0]);
        if !is_ws(a[0]) {
            assert(x.drop_first() =~= a.drop_first() + t1);
            assert(y.drop_first() =~= a.drop_first() + t2);
            lemma_word_len_ws_suffix(a.drop_first(), t1, t2);
        }
    }
}

/// Widening a run of whitespace by one more whitespace character changes no word.
pub proof fn lemma_tokens_wider_gap(a: Seq<char>, w: char, w2: char, b: Seq<char>)
    requires
        is_ws(w),
        is_ws(w2),
    ensures
        tokens(a + seq![w, w2] + b) == tokens(a + seq![w] + b),
    decreases a.len(),
{
    let t1 = seq![w, w2] + b;
    let t2 = seq![w] + b;
    let x = a + seq![w, w2] + b;
    let y = a + seq![w] + b;
    assert(x =~= a + t1);
    assert(y =~= a + t2);
    if a.len() == 0 {
        assert(x.drop_first() =~= seq![w2] + b);
        assert((seq![w2] + b).drop_first() =~= b);
        assert(y.drop_first() =~= b);
        assert(tokens(x) == tokens(seq![w2] + b));
    } else if is_ws(a[0]) {
        assert(x.drop_first() =~= a.drop_first() + seq![w, w2] + b);
        assert(y.drop_first() =~= a.drop_first() + seq![w] + b);
        lemma_tokens_wider_gap(a.drop_first(), w, w2, b);
    } else {
        lemma_word_len_ws_suffix(a, t1, t2);
        lemma_word_len_bound(a + t1);
        let n = word_len(x) as int;
        assert(x.take(n) =~= y.take(n));
        assert(x.skip(n) =~= a.skip(n) + seq![w, w2] + b);
        assert(y.skip(n) =~= a.skip(n) + seq![w] + b);
        lemma_tokens_wider_gap(a.skip(n), w, w2, b);
    }
}

/// The words of `ws` separated by single spaces.
pub open spec fn join_words(ws: Seq<Seq<char>>) -> Seq<char>
    decreases ws.len(),
{
    if ws.len() == 0 {
        seq![]
    } else if ws.len() == 1 {
        ws[0]
    } else {
        join_words(ws.drop_last()) + seq![' '] + ws.last()
    }
}

/// The character views of a sequence of strings.
pub open spec fn views(v: Seq<String>) -> Seq<Seq<char>> {
    v.map_values(|t: String| t@)
}

pub fn is_whitespace(c: char) -> (r: bool)
    ensures
        r == is_ws(c),
{
    let u = c as u32;
    (0x09 <= u && u <= 0x0D) || u == 0x20 || u == 0x85 || u == 0xA0 || u == 0x1680 || (0x2000
        <= u && u <= 0x200A) || u == 0x2028 || u == 0x2029 || u == 0x202F || u == 0x205F || u
        == 0x3000
}

proof fn lemma_word_len_exact(s: Seq<char>, m: int)
    requires
        0 <= m <= s.len(),
        forall|k: int| 0 <= k < m ==> !is_ws(#[trigger] s[k]),
        m == s.len() || is_ws(s[m]),
    ensures
        word_len(s) == m,
    decreases m,
{
    if m > 0 {
        lemma_word_len_exact(s.drop_first(), m - 1);
    }
}

/// Splits `line` on runs of whitespace.
pub fn split_words(line: &str) -> (r: Vec<String>)
    ensures
        views(r@) == tokens(line@),
{
    let n = line.unicode_len();
    let mut out: Vec<String> = Vec::new();
    let mut i: usize = 0;
    assert(line@.skip(0) =~= line@);
    assert(views(out@) =~= seq![]);
    while i < n
        invariant
            i <= n,
            n == line@.len(),
            tokens(line@) == views(out@) + tokens(line@.skip(i as int)),
        decreases n - i,
    {
        let c = line.get_char(i);
        let ghost rest = line@.skip(i as int);
        if is_whitespace(c) {
            assert(rest.drop_first() =~= line@.skip(i + 1));
            i = i + 1;
        } else {
            let start = i;
            i = i + 1;
            loop
                invariant
                    start < i <= n,
                    n == line@.len(),
                    forall|k: int| start <= k < i ==> !is_ws(#[trigger] line@[k]),
                ensures
                    start < i <= n,
                    forall|k: int| start <= k < i ==> !is_ws(#[trigger] line@[k]),
                    i == n || is_ws(line@[i as int]),
                decreases n - i,
            {
                if i == n || is_whitespace(line.get_char(i)) {
                    break;
                }
                i = i + 1;
            }
            let w = line.substring_char(start, i);
            let t = String::from_str(w);
            proof {
                assert forall|k: int| 0 <= k < i - start implies !is_ws(#[trigger] rest[k]) by {
                    assert(rest[k] == line@[start + k]);
                }
                if i < n {
                    assert(rest[i - start] == line@[i as int]);
                }
                lemma_word_len_exact(rest, i - start);
                assert(rest.take(i - start) =~= line@.subrange(start as int, i as int));
                assert(rest.skip(i - start) =~= line@.skip(i as int));
            }
            let ghost prev = out@;
            out.push(t);
            assert(views(out@) =~= views(prev).push(line@.subrange(start as int, i as int)));
        }
    }
    assert(line@.skip(n as int) =~= seq![]);
    out
}

/// Joins `words[from..]` with single spaces.
pub fn join_from(words: &Vec<String>, from: usize) -> (r: String)
    requires
        from <= words@.len(),
    ensures
        r@ == join_words(views(words@).skip(from as int)),
{
    let ghost ws = views(words@);
    let mut out = String::new();
    if from == words.len() {
        assert(ws.skip(from as int) =~= seq![]);
        return out;
    }
    out.append(words[from].as_str());
    let mut i: usize = from + 1;
    assert(ws.subrange(from as int, i as int) =~= seq![ws[from as int]]);
    while i < words.len()
        invariant
            from < i <= words.len(),
            ws == views(words@),
            out@ == join_words(ws.subrange(from as int, i as int)),
        decreases words.len() - i,
    {
        let ghost sub = ws.subrange(from as int, i + 1);
        proof {
            reveal_strlit(" ");
            assert(sub.drop_last() =~= ws.subrange(from as int, i as int));
        }
        out.append(" ");
        out.append(words[i].as_str());
        i = i + 1;
    }
    assert(ws.subrange(from as int, words.len() as int) =~= ws.skip(from as int));
    out
}

/// Character-wise equality of two texts.
pub fn same_text(a: &str, b: &str) -> (r: bool)
    ensures
        r == (a@ == b@),
{
    let n = a.unicode_len();
    if n != b.unicode_len() {
        return false;
    }
    let mut i: usize = 0;
    while i < n
        invariant
            i <= n,
            n == a@.len(),
            n == b@.len(),
            forall|k: int| 0 <= k < i ==> a@[k] == b@[k],
        decreases n - i,
    {
        if a.get_char(i) != b.get_char(i) {
            return false;
        }
        i = i + 1;
    }
    assert(a@ =~= b@);
    true
}

/// The decimal digit character of `d`.
pub open spec fn digit_char(d: nat) -> char {
    seq!['0', '1', '2', '3', '4', '5', '6', '7', '8', '9'][d as int]
}

/// Decimal notation of `n`, without leading zeros.
pub open spec fn decimal(n: nat) -> Seq<char>
    decreases n,
{
    if n < 10 {
        seq![digit_char(n)]
    } else {
        decimal(n / 10) + seq![digit_char(n % 10)]
    }
}

fn digit_str(d: u32) -> (r: &'static str)
    requires
        d < 10,
    ensures
        r@ == seq![digit_char(d as nat)],
{
    let all = "0123456789";
    proof {
        reveal_strlit("0123456789");
    }
    let r = all.substring_char(d as usize, d as usize + 1);
    assert(r@ =~= seq![digit_char(d as nat)]);
    r
}

/// Decimal notation of `n`.
pub fn decimal_string(n: u32) -> (r: String)
    ensures
        r@ == decimal(n as nat),
    decreases n,
{
    if n < 10 {
        String::from_str(digit_str(n))
    } else {
        let mut r = decimal_string(n / 10);
        r.append(digit_str(n % 10));
        r
    }
}

pub open spec fn is_digit(c: char) -> bool {
    '0' <= c && c <= '9'
}

pub open spec fn digit_value(c: char) -> int {
    c as int - '0' as int
}

/// Value of a run of decimal digits, most significant first.
pub open spec fn digits_value(s: Seq<char>) -> int
    decreases s.len(),
{
    if s.len() == 0 {
        0
    } else {
        digits_value(s.drop_last()) * 10 + digit_value(s.last())
    }
}

pub open spec fn all_digits(s: Seq<char>) -> bool {
    forall|k: int| 0 <= k < s.len() ==> is_digit(#[trigger] s[k])
}

/// A signed decimal integer: an optional `+` or `-`, then one or more digits.
pub open spec fn int_text(s: Seq<char>) -> Option<int> {
    if s.len() > 0 && (s[0] == '+' || s[0] == '-') {
        let d = s.drop_first();
        if d.len() > 0 && all_digits(d) {
            Some(if s[0] == '-' { -digits_value(d) } else { digits_value(d) })
        } else {
            None
        }
    } else if s.len() > 0 && all_digits(s) {
        Some(digits_value(s))
    } else {
        None
    }
}

/// The `i32` written by `s`, if it is one and in range.
pub open spec fn i32_text(s: Seq<char>) -> Option<i32> {
    match int_text(s) {
        Some(v) => if i32::MIN <= v <= i32::MAX {
            Some(v as i32)
        } else {
            None
        },
        None => None,
    }
}

proof fn lemma_digits_value_nonneg(s: Seq<char>)
    requires
        all_digits(s),
    ensures
        digits_value(s) >= 0,
    decreases s.len(),
{
    if s.len() > 0 {
        lemma_digits_value_nonneg(s.drop_last());
    }
}

/// Reads a signed decimal `i32`; `None` where `s` is not one or is out of range.
pub fn parse_i32(s: &str) -> (r: Option<i32>)
    ensures
        r == i32_text(s@),
{
    let n = s.unicode_len();
    if n == 0 {
        return None;
    }
    let first = s.get_char(0);
    let negative = first == '-';
    let start: usize = if first == '+' || first == '-' { 1 } else { 0 };
    if start == n {
        return None;
    }
    let ghost d = s@.skip(start as int);
    assert(start == 1 ==> s@.drop_first() =~= d);
    assert(start == 0 ==> s@ =~= d);
    // Once the magnitude passes 2^31 no i32 is written, whatever follows.
    let limit: i64 = 0x8000_0000;
    let mut acc: i64 = 0;
    let mut over = false;
    let mut i: usize = start;
    while i < n
        invariant
            start <= i <= n,
            n == s@.len(),
            d == s@.skip(start as int),
            start == 1 <==> (s@[0] == '+' || s@[0] == '-'),
            start == 0 || start == 1,
            negative == (s@[0] == '-'),
            all_digits(s@.subrange(start as int, i as int)),
            0 <= acc <= limit,
            limit == 0x8000_0000,
            !over ==> acc == digits_value(s@.subrange(start as int, i as int)),
            over ==> digits_value(s@.subrange(start as int, i as int)) > limit,
        decreases n - i,
    {
        let c = s.get_char(i);
        if !('0' <= c && c <= '9') {
            assert(!is_digit(s@[i as int]));
            assert(d[i - start] == s@[i as int]);
            assert(!all_digits(d));
            return None;
        }
        let ghost pre = s@.subrange(start as int, i as int);
        let ghost next = s@.subrange(start as int, i + 1);
        proof {
            assert(next.drop_last() =~= pre);
            assert(next.last() == c);
            assert(all_digits(next)) by {
                assert forall|k: int| 0 <= k < next.len() implies is_digit(#[trigger] next[k]) by {
                    if k < pre.len() {
                        assert(next[k] == pre[k]);
                    }
                }
            }
            lemma_digits_value_nonneg(pre);
        }
        if !over {
            let v = acc * 10 + (c as i64 - '0' as i64);
            if v > limit {
                over = true;
            } else {
                acc = v;
            }
        }
        i = i + 1;
    }
    assert(s@.subrange(start as int, n as int) =~= d);
    if over {
        return None;
    }
    if negative {
        Some((-acc) as i32)
    } else if acc < limit {
        Some(acc as i32)
    } else {
        None
    }
}

} // verus!
