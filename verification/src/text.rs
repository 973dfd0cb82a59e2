//! Small verified text helpers: decimal rendering of integers, equality of
//! string slices, lexicographic ordering of names and joining of lists.
use vstd::prelude::*;

verus! {

/// The character for a decimal digit.
pub open spec fn digit_char(d: nat) -> char {
    if d == 0 { '0' }
    else if d == 1 { '1' }
    else if d == 2 { '2' }
    else if d == 3 { '3' }
    else if d == 4 { '4' }
    else if d == 5 { '5' }
    else if d == 6 { '6' }
    else if d == 7 { '7' }
    else if d == 8 { '8' }
    else { '9' }
}

/// Decimal digits of a natural number, most significant first, without
/// leading zeros (zero itself is "0").
pub open spec fn decimal(n: nat) -> Seq<char>
    decreases n,
{
    if n < 10 {
        seq![digit_char(n)]
    } else {
        decimal(n / 10).push(digit_char(n % 10))
    }
}

/// Decimal rendering of an integer, with a leading '-' when negative.
pub open spec fn signed_decimal(i: int) -> Seq<char> {
    if i < 0 {
        seq!['-'] + decimal((-i) as nat)
    } else {
        decimal(i as nat)
    }
}

fn push_digit(s: &mut String, d: u64)
    requires
        d < 10,
    ensures
        final(s)@ == old(s)@.push(digit_char(d as nat)),
{
    proof {
        reveal_strlit("0");
        reveal_strlit("1");
        reveal_strlit("2");
        reveal_strlit("3");
        reveal_strlit("4");
        reveal_strlit("5");
        reveal_strlit("6");
        reveal_strlit("7");
        reveal_strlit("8");
        reveal_strlit("9");
    }
    if d == 0 {
        s.append("0");
    } else if d == 1 {
        s.append("1");
    } else if d == 2 {
        s.append("2");
    } else if d == 3 {
        s.append("3");
    } else if d == 4 {
        s.append("4");
    } else if d == 5 {
        s.append("5");
    } else if d == 6 {
        s.append("6");
    } else if d == 7 {
        s.append("7");
    } else if d == 8 {
        s.append("8");
    } else {
        s.append("9");
    }
}

/// Appends the decimal digits of `n` to `s`.
pub fn push_decimal(s: &mut String, n: u64)
    ensures
        final(s)@ == old(s)@ + decimal(n as nat),
    decreases n,
{
    if n >= 10 {
        push_decimal(s, n / 10);
    }
    push_digit(s, n % 10);
    proof {
        if n >= 10 {
            assert(decimal(n as nat) == decimal((n / 10) as nat).push(digit_char((n % 10) as nat)));
        } else {
            assert(decimal(n as nat) == seq![digit_char(n as nat)]);
        }
    }
}

/// Appends the signed decimal rendering of `n` to `s`.
pub fn push_signed_decimal(s: &mut String, n: i64)
    ensures
        final(s)@ == old(s)@ + signed_decimal(n as int),
{
    proof {
        reveal_strlit("-");
    }
    if n < 0 {
        s.append("-");
        let ghost mid = s@;
        let magnitude: u64 = if n == i64::MIN {
            9223372036854775808u64
        } else {
            (-n) as u64
        };
        push_decimal(s, magnitude);
        assert(s@ == old(s)@ + (seq!['-'] + decimal((-n) as nat)));
    } else {
        push_decimal(s, n as u64);
    }
}

/// The decimal rendering of an unsigned size.
pub fn usize_to_decimal(n: usize) -> (r: String)
    ensures
        r@ == decimal(n as nat),
{
    let mut s = String::new();
    push_decimal(&mut s, n as u64);
    assert(s@ =~= decimal(n as nat));
    s
}

/// The decimal rendering of a 32-bit signed integer.
pub fn i32_to_decimal(n: i32) -> (r: String)
    ensures
        r@ == signed_decimal(n as int),
{
    let mut s = String::new();
    push_signed_decimal(&mut s, n as i64);
    assert(s@ =~= signed_decimal(n as int));
    s
}

/// Equality of two string slices, character by character.
pub fn text_eq(a: &str, b: &str) -> (r: bool)
    ensures
        r == (a@ == b@),
{
    let n = a.unicode_len();
    let m = b.unicode_len();
    if n != m {
        return false;
    }
    let mut i: usize = 0;
    while i < n
        invariant
            n == a@.len(),
            m == b@.len(),
            n == m,
            i <= n,
            forall|k: int| 0 <= k < i ==> a@[k] == b@[k],
        decreases n - i,
    {
        if a.get_char(i) != b.get_char(i) {
            return false;
        }
        i = i + 1;
    }
    assert(a@ =~= b@);
    true
}

/// Three-way lexicographic comparison of character sequences by code point:
/// negative when `a` orders first, zero when equal, positive otherwise.
/// This is the order of Rust's `String` comparison.
pub open spec fn lex_order(a: Seq<char>, b: Seq<char>) -> int
    decreases a.len(),
{
    if a.len() == 0 {
        if b.len() == 0 { 0 } else { -1 }
    } else if b.len() == 0 {
        1
    } else if a[0] != b[0] {
        if a[0] < b[0] { -1 } else { 1 }
    } else {
        lex_order(a.drop_first(), b.drop_first())
    }
}

/// `a` orders before or equal to `b`.
pub open spec fn lex_le(a: Seq<char>, b: Seq<char>) -> bool {
    lex_order(a, b) <= 0
}

/// The comparison is zero exactly on equal sequences.
pub proof fn lemma_lex_order_eq(a: Seq<char>, b: Seq<char>)
    ensures
        (lex_order(a, b) == 0) <==> (a == b),
    decreases a.len(),
{
    if a.len() == 0 && b.len() == 0 {
        assert(a =~= b);
    }
    if a.len() > 0 && b.len() > 0 && a[0] == b[0] {
        lemma_lex_order_eq(a.drop_first(), b.drop_first());
        if a.drop_first() == b.drop_first() {
            assert(a =~= seq![a[0]] + a.drop_first());
            assert(b =~= seq![b[0]] + b.drop_first());
        }
        if a == b {
            assert(a.drop_first() =~= b.drop_first());
        }
    }
}

/// The comparison is antisymmetric in sign.
pub proof fn lemma_lex_order_antisym(a: Seq<char>, b: Seq<char>)
    ensures
        lex_order(a, b) == -lex_order(b, a),
    decreases a.len(),
{
    if a.len() > 0 && b.len() > 0 && a[0] == b[0] {
        lemma_lex_order_antisym(a.drop_first(), b.drop_first());
    }
}

/// The order is transitive.
pub proof fn lemma_lex_le_trans(a: Seq<char>, b: Seq<char>, c: Seq<char>)
    requires
        lex_le(a, b),
        lex_le(b, c),
    ensures
        lex_le(a, c),
    decreases a.len(),
{
    if a.len() > 0 && b.len() > 0 && c.len() > 0 && a[0] == b[0] && b[0] == c[0] {
        lemma_lex_le_trans(a.drop_first(), b.drop_first(), c.drop_first());
    }
}

/// Any two sequences are ordered one way or the other.
pub proof fn lemma_lex_le_total(a: Seq<char>, b: Seq<char>)
    ensures
        lex_le(a, b) || lex_le(b, a),
{
    lemma_lex_order_antisym(a, b);
}


/// Three-way comparison of two names, returned as a number in {-1, 0, 1}
/// that agrees with `lex_order`.
pub fn compare_text(a: &str, b: &str) -> (r: i8)
    ensures
        r as int == lex_order(a@, b@),
{
    let n = a.unicode_len();
    let m = b.unicode_len();
    let mut i: usize = 0;
    assert(a@.skip(0) =~= a@);
    assert(b@.skip(0) =~= b@);
    while i < n && i < m
        invariant
            n == a@.len(),
            m == b@.len(),
            i <= n,
            i <= m,
            lex_order(a@, b@) == lex_order(a@.skip(i as int), b@.skip(i as int)),
        decreases n - i,
    {
        let x = a.get_char(i);
        let y = b.get_char(i);
        assert(a@.skip(i as int)[0] == x);
        assert(b@.skip(i as int)[0] == y);
        if x != y {
            if x < y {
                return -1;
            } else {
                return 1;
            }
        }
        assert(a@.skip(i as int).drop_first() =~= a@.skip(i + 1));
        assert(b@.skip(i as int).drop_first() =~= b@.skip(i + 1));
        i = i + 1;
    }
    if i == n && i == m {
        assert(a@.skip(i as int).len() == 0);
        0
    } else if i == n {
        -1
    } else {
        1
    }
}

/// The items joined with `sep` between consecutive ones.
pub open spec fn join(items: Seq<Seq<char>>, sep: Seq<char>) -> Seq<char>
    decreases items.len(),
{
    if items.len() == 0 {
        Seq::empty()
    } else if items.len() == 1 {
        items[0]
    } else {
        join(items.drop_last(), sep) + sep + items.last()
    }
}

/// The character sequences of a list of strings.
pub open spec fn texts(list: Seq<String>) -> Seq<Seq<char>> {
    list.map_values(|s: String| s@)
}

/// The texts of a list of string pairs.
pub open spec fn pair_texts(s: Seq<(String, String)>) -> Seq<(Seq<char>, Seq<char>)> {
    s.map_values(|e: (String, String)| (e.0@, e.1@))
}

/// Joins a list of strings with a separator between consecutive items.
pub fn join_strings(list: &Vec<String>, sep: &str) -> (r: String)
    ensures
        r@ == join(texts(list@), sep@),
{
    let mut r = String::new();
    let n = list.len();
    let mut i: usize = 0;
    while i < n
        invariant
            n == list@.len(),
            i <= n,
            r@ == join(texts(list@).take(i as int), sep@),
        decreases n - i,
    {
        let ghost before = texts(list@).take(i as int);
        if i > 0 {
            r.append(sep);
        }
        r.append(list[i].as_str());
        proof {
            let after = texts(list@).take(i + 1);
            assert(after.drop_last() =~= before);
            assert(after.last() == list@[i as int]@);
            if i == 0 {
                assert(r@ =~= after[0]);
            }
        }
        i = i + 1;
    }
    assert(texts(list@).take(n as int) =~= texts(list@));
    r
}

/// `t` with `w` before every character and at its end: what replacing the
/// empty pattern does.
pub open spec fn interleaved(t: Seq<char>, w: Seq<char>) -> Seq<char>
    decreases t.len(),
{
    if t.len() == 0 {
        w
    } else {
        w + seq![t[0]] + interleaved(t.skip(1), w)
    }
}

/// `t` with every occurrence of `p` replaced by `w`, the occurrences taken
/// from left to right without overlap (the behaviour of `str::replace`).
pub open spec fn replaced(t: Seq<char>, p: Seq<char>, w: Seq<char>) -> Seq<char>
    decreases t.len(),
{
    if p.len() == 0 {
        interleaved(t, w)
    } else if t.len() < p.len() {
        t
    } else if t.take(p.len() as int) == p {
        w + replaced(t.skip(p.len() as int), p, w)
    } else {
        seq![t[0]] + replaced(t.skip(1), p, w)
    }
}

/// Replaces every occurrence of `pattern` in `text` by `with`, as
/// `str::replace` does.
pub fn replace_all(text: &str, pattern: &str, with: &str) -> (r: String)
    ensures
        r@ == replaced(text@, pattern@, with@),
{
    let n = text.unicode_len();
    let plen = pattern.unicode_len();
    let mut r = String::new();
    let mut i: usize = 0;
    assert(text@.skip(0) =~= text@);
    if plen == 0 {
        while i < n
            invariant
                n == text@.len(),
                pattern@.len() == 0,
                i <= n,
                r@ + interleaved(text@.skip(i as int), with@) == interleaved(text@, with@),
            decreases n - i,
        {
            let c = text.substring_char(i, i + 1);
            proof {
                let rest = text@.skip(i as int);
                assert(c@ =~= seq![rest[0]]);
                assert(rest.skip(1) =~= text@.skip(i + 1));
                assert(r@ + with@ + c@ + interleaved(text@.skip(i + 1), with@) =~= r@
                    + interleaved(rest, with@));
            }
            r.append(with);
            r.append(c);
            i = i + 1;
        }
        r.append(with);
        assert(r@ =~= interleaved(text@, with@));
        return r;
    }
    while i < n
        invariant
            n == text@.len(),
            plen == pattern@.len(),
            plen > 0,
            i <= n,
            r@ + replaced(text@.skip(i as int), pattern@, with@) == replaced(
                text@,
                pattern@,
                with@,
            ),
        decreases n - i,
    {
        let rest = Ghost(text@.skip(i as int));
        if n - i < plen {
            let tail = text.substring_char(i, n);
            assert(tail@ =~= rest@);
            r.append(tail);
            assert(text@.skip(n as int).len() == 0);
            i = n;
        } else {
            let candidate = text.substring_char(i, i + plen);
            assert(candidate@ =~= rest@.take(plen as int));
            if text_eq(candidate, pattern) {
                proof {
                    assert(rest@.skip(plen as int) =~= text@.skip(i + plen));
                    assert(r@ + with@ + replaced(text@.skip(i + plen), pattern@, with@) =~= r@
                        + replaced(rest@, pattern@, with@));
                }
                r.append(with);
                i = i + plen;
            } else {
                let c = text.substring_char(i, i + 1);
                proof {
                    assert(c@ =~= seq![rest@[0]]);
                    assert(rest@.skip(1) =~= text@.skip(i + 1));
                    assert(r@ + c@ + replaced(text@.skip(i + 1), pattern@, with@) =~= r@
                        + replaced(rest@, pattern@, with@));
                }
                r.append(c);
                i = i + 1;
            }
        }
    }
    assert(text@.skip(n as int).len() == 0);
    assert(replaced(text@.skip(n as int), pattern@, with@) == text@.skip(n as int));
    assert(r@ =~= replaced(text@, pattern@, with@));
    r
}

/// The pieces of `t` between line feeds, as `str::split('\n')` yields
/// them: one more piece than there are line feeds.
pub open spec fn split_lines(t: Seq<char>) -> Seq<Seq<char>>
    decreases t.len(),
{
    if t.len() == 0 {
        seq![Seq::empty()]
    } else {
        let before = split_lines(t.drop_last());
        if t.last() == '\n' {
            before.push(Seq::empty())
        } else {
            before.update(before.len() - 1, before.last().push(t.last()))
        }
    }
}

/// Every split has at least one piece.
pub proof fn lemma_split_lines_nonempty(t: Seq<char>)
    ensures
        split_lines(t).len() >= 1,
    decreases t.len(),
{
    if t.len() > 0 {
        lemma_split_lines_nonempty(t.drop_last());
    }
}

/// Appending a character to the last item appends it to the joined text.
proof fn lemma_join_extend_last(items: Seq<Seq<char>>, sep: Seq<char>, c: char)
    requires
        items.len() >= 1,
    ensures
        join(items.update(items.len() - 1, items.last().push(c)), sep) == join(items, sep).push(c),
{
    let updated = items.update(items.len() - 1, items.last().push(c));
    if items.len() > 1 {
        assert(updated.drop_last() =~= items.drop_last());
        assert(join(updated, sep) == join(items.drop_last(), sep) + sep + items.last().push(c));
        assert(join(updated, sep) =~= join(items, sep).push(c));
    }
}

/// Splitting a text at its line feeds and joining the pieces with line
/// feeds gives the text back.
pub proof fn law_split_then_join(t: Seq<char>)
    ensures
        join(split_lines(t), "\n"@) == t,
    decreases t.len(),
{
    reveal_strlit("\n");
    if t.len() == 0 {
        assert(join(seq![Seq::<char>::empty()], "\n"@) == Seq::<char>::empty());
    } else {
        let front = t.drop_last();
        law_split_then_join(front);
        lemma_split_lines_nonempty(front);
        let pieces = split_lines(front);
        if t.last() == '\n' {
            let pushed = pieces.push(Seq::<char>::empty());
            assert(pushed.drop_last() =~= pieces);
            assert(join(pushed, "\n"@) =~= front + "\n"@);
            assert(front + "\n"@ =~= t);
        } else {
            lemma_join_extend_last(pieces, "\n"@, t.last());
            assert(front.push(t.last()) =~= t);
        }
    }
}

/// Splits `text` at each line feed, as `str::split('\n')` does.
pub fn split_at_newlines(text: &str) -> (r: Vec<String>)
    ensures
        texts(r@) == split_lines(text@),
{
    let n = text.unicode_len();
    let mut done: Vec<String> = Vec::new();
    let mut current = String::new();
    let mut i: usize = 0;
    assert(text@.take(0) =~= Seq::<char>::empty());
    assert(texts(done@).push(current@) =~= split_lines(text@.take(0)));
    while i < n
        invariant
            n == text@.len(),
            i <= n,
            texts(done@).push(current@) == split_lines(text@.take(i as int)),
        decreases n - i,
    {
        let c = text.substring_char(i, i + 1);
        let ghost prefix = text@.take(i + 1);
        proof {
            assert(prefix.drop_last() =~= text@.take(i as int));
            assert(prefix.last() == text@[i as int]);
            assert(c@ =~= seq![text@[i as int]]);
            lemma_split_lines_nonempty(text@.take(i as int));
        }
        if text.get_char(i) == '\n' {
            let finished = current;
            done.push(finished);
            current = String::new();
            assert(texts(done@).push(current@) =~= split_lines(prefix));
        } else {
            let ghost before = split_lines(text@.take(i as int));
            let ghost old_current = current@;
            current.append(c);
            proof {
                assert(before.last() == old_current);
                assert(split_lines(prefix) == before.update(
                    before.len() - 1,
                    before.last().push(prefix.last()),
                ));
                assert(current@ =~= old_current.push(prefix.last()));
            }
            assert(texts(done@).push(current@) =~= split_lines(prefix));
        }
        i = i + 1;
    }
    assert(text@.take(n as int) =~= text@);
    done.push(current);
    assert(texts(done@) =~= split_lines(text@));
    done
}

/// `c` is an ASCII decimal digit.
pub open spec fn is_digit(c: char) -> bool {
    '0' <= c && c <= '9'
}

/// The value of a string of decimal digits, most significant first.
pub open spec fn digits_value(digits: Seq<char>) -> int
    decreases digits.len(),
{
    if digits.len() == 0 {
        0
    } else {
        digits_value(digits.drop_last()) * 10 + (digits.last() as int - '0' as int)
    }
}

/// The digits of a decimal integer after its optional sign.
pub open spec fn unsigned_part(text: Seq<char>) -> Seq<char> {
    if text.len() > 0 && (text[0] == '-' || text[0] == '+') {
        text.drop_first()
    } else {
        text
    }
}

/// What `str::parse::<i64>` reads from `text`: an optional '+' or '-'
/// followed by one or more decimal digits and nothing else, whose value
/// fits in an `i64`; `None` for any other text.
pub open spec fn parsed_i64(text: Seq<char>) -> Option<int> {
    let digits = unsigned_part(text);
    let magnitude = digits_value(digits);
    let value = if text.len() > 0 && text[0] == '-' { -magnitude } else { magnitude };
    if digits.len() == 0 || exists|i: int| 0 <= i < digits.len() && !is_digit(#[trigger] digits[i]) {
        None
    } else if value < i64::MIN || value > i64::MAX {
        None
    } else {
        Some(value)
    }
}

/// A bound above the magnitude of every `i64`.
const MAGNITUDE_CAP: i128 = 9223372036854775809;

/// Reads a decimal `i64` from `text` as `str::parse::<i64>` does.
pub fn parse_i64(text: &str) -> (r: Option<i64>)
    ensures
        match parsed_i64(text@) {
            Some(v) => r == Some(v as i64),
            None => r is None,
        },
{
    let n = text.unicode_len();
    let negative = n > 0 && text.get_char(0) == '-';
    let signed = n > 0 && (text.get_char(0) == '-' || text.get_char(0) == '+');
    let start: usize = if signed { 1 } else { 0 };
    let ghost digits = unsigned_part(text@);
    assert(digits =~= text@.subrange(start as int, n as int));
    if start == n {
        return None;
    }
    let mut magnitude: i128 = 0;
    let mut i: usize = start;
    while i < n
        invariant
            n == text@.len(),
            start <= i <= n,
            digits == unsigned_part(text@),
            start == (if n > 0 && (text@[0] == '-' || text@[0] == '+') { 1int } else { 0int }),
            negative == (n > 0 && text@[0] == '-'),
            digits =~= text@.subrange(start as int, n as int),
            forall|k: int| 0 <= k < i - start ==> is_digit(#[trigger] digits[k]),
            0 <= magnitude <= MAGNITUDE_CAP,
            magnitude == (if digits_value(digits.take(i - start)) < MAGNITUDE_CAP {
                digits_value(digits.take(i - start))
            } else {
                MAGNITUDE_CAP as int
            }),
            digits_value(digits.take(i - start)) >= 0,
        decreases n - i,
    {
        let c = text.get_char(i);
        if !('0' <= c && c <= '9') {
            proof {
                let k: int = i - start;
                assert(digits[k] == c);
                assert(0 <= k < digits.len() && !is_digit(digits[k]));
                assert(exists|j: int| 0 <= j < digits.len() && !is_digit(#[trigger] digits[j]));
            }
            return None;
        }
        let d: i128 = (c as u32 - '0' as u32) as i128;
        let ghost before = digits.take(i - start);
        let ghost after = digits.take(i - start + 1);
        assert(after.drop_last() =~= before);
        assert(digits_value(after) == digits_value(before) * 10 + d);
        let next = magnitude * 10 + d;
        magnitude = if next < MAGNITUDE_CAP { next } else { MAGNITUDE_CAP };
        i = i + 1;
    }
    assert(digits.take(n - start) =~= digits);
    if negative {
        if magnitude > 9223372036854775808 {
            None
        } else {
            Some((-magnitude) as i64)
        }
    } else {
        if magnitude > 9223372036854775807 {
            None
        } else {
            Some(magnitude as i64)
        }
    }
}

} // verus!
