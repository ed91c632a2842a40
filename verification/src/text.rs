//! Character-level helpers on strings, each with an exact contract.

use vstd::prelude::*;
use vstd::string::*;

verus! {

/// The characters of each string.
pub open spec fn strings_view(s: Seq<String>) -> Seq<Seq<char>> {
    s.map_values(|x: String| x@)
}

/// `char::is_whitespace`: the Unicode `White_Space` property.
pub open spec fn is_whitespace(c: char) -> bool {
    let u = c as u32;
    ||| 0x09 <= u <= 0x0d
    ||| u == 0x20
    ||| u == 0x85
    ||| u == 0xa0
    ||| u == 0x1680
    ||| 0x2000 <= u <= 0x200a
    ||| u == 0x2028
    ||| u == 0x2029
    ||| u == 0x202f
    ||| u == 0x205f
    ||| u == 0x3000
}

/// `s` without its leading whitespace.
pub open spec fn trim_start(s: Seq<char>) -> Seq<char>
    decreases s.len(),
{
    if s.len() > 0 && is_whitespace(s[0]) {
        trim_start(s.drop_first())
    } else {
        s
    }
}

/// `s` without its trailing whitespace.
pub open spec fn trim_end(s: Seq<char>) -> Seq<char>
    decreases s.len(),
{
    if s.len() > 0 && is_whitespace(s.last()) {
        trim_end(s.drop_last())
    } else {
        s
    }
}

/// `str::trim`: `s` without leading and trailing whitespace.
pub open spec fn trim(s: Seq<char>) -> Seq<char> {
    trim_end(trim_start(s))
}

pub fn is_whitespace_char(c: char) -> (r: bool)
    ensures
        r == is_whitespace(c),
{
    let u = c as u32;
    (0x09 <= u && u <= 0x0d) || u == 0x20 || u == 0x85 || u == 0xa0 || u == 0x1680 || (0x2000
        <= u && u <= 0x200a) || u == 0x2028 || u == 0x2029 || u == 0x202f || u == 0x205f || u
        == 0x3000
}

/// The characters of `s`, in order.
pub fn chars_of(s: &str) -> (r: Vec<char>)
    ensures
        r@ == s@,
{
    let n = s.unicode_len();
    let mut v: Vec<char> = Vec::new();
    let mut i: usize = 0;
    while i < n
        invariant
            n == s@.len(),
            i <= n,
            v@ == s@.subrange(0, i as int),
        decreases n - i,
    {
        v.push(s.get_char(i));
        i += 1;
        assert(v@ =~= s@.subrange(0, i as int));
    }
    assert(v@ =~= s@);
    v
}

/// `String::push`: appends one character.
#[verifier::external_body]
pub(crate) fn push_char(s: &mut String, c: char)
    ensures
        final(s)@ == old(s)@.push(c),
{
    s.push(c);
}

/// A string holding the characters `cs[from..to]`.
pub fn string_of_range(cs: &Vec<char>, from: usize, to: usize) -> (r: String)
    requires
        from <= to <= cs@.len(),
    ensures
        r@ == cs@.subrange(from as int, to as int),
{
    let mut r = String::new();
    let mut i = from;
    while i < to
        invariant
            from <= i <= to <= cs@.len(),
            r@ == cs@.subrange(from as int, i as int),
        decreases to - i,
    {
        push_char(&mut r, cs[i]);
        i += 1;
        assert(r@ =~= cs@.subrange(from as int, i as int));
    }
    r
}

/// A string holding the characters `cs`.
pub fn string_of_chars(cs: &Vec<char>) -> (r: String)
    ensures
        r@ == cs@,
{
    let r = string_of_range(cs, 0, cs.len());
    assert(cs@.subrange(0, cs@.len() as int) =~= cs@);
    r
}

/// Whether the two strings hold the same characters.
pub fn str_eq(a: &str, b: &str) -> (r: bool)
    ensures
        r == (a@ == b@),
{
    let n = a.unicode_len();
    let m = b.unicode_len();
    if n != m {
        return false;
    }
    let mut i: usize = 0;
    while i < n
        invariant
            n == a@.len(),
            m == b@.len(),
            n == m,
            i <= n,
            forall|k: int| 0 <= k < i ==> a@[k] == b@[k],
        decreases n - i,
    {
        if a.get_char(i) != b.get_char(i) {
            return false;
        }
        i += 1;
    }
    assert(a@ =~= b@);
    true
}

/// Whether `s` holds the character `c`.
pub fn contains_char(s: &str, c: char) -> (r: bool)
    ensures
        r == s@.contains(c),
{
    let n = s.unicode_len();
    let mut i: usize = 0;
    while i < n
        invariant
            n == s@.len(),
            i <= n,
            forall|k: int| 0 <= k < i ==> s@[k] != c,
        decreases n - i,
    {
        if s.get_char(i) == c {
            assert(s@[i as int] == c);
            return true;
        }
        i += 1;
    }
    false
}

proof fn lemma_trim_start_step(s: Seq<char>, i: int)
    requires
        0 <= i < s.len(),
        is_whitespace(s[i]),
    ensures
        trim_start(s.subrange(i, s.len() as int)) == trim_start(s.subrange(i + 1, s.len() as int)),
{
    assert(s.subrange(i, s.len() as int).drop_first() =~= s.subrange(i + 1, s.len() as int));
}

proof fn lemma_trim_end_step(s: Seq<char>, j: int)
    requires
        0 < j <= s.len(),
        is_whitespace(s[j - 1]),
    ensures
        trim_end(s.subrange(0, j)) == trim_end(s.subrange(0, j - 1)),
{
    assert(s.subrange(0, j).drop_last() =~= s.subrange(0, j - 1));
}

/// Bounds `(a, b)` such that `cs[a..b]` is `cs[from..to]` trimmed.
pub fn trim_bounds(cs: &Vec<char>, from: usize, to: usize) -> (r: (usize, usize))
    requires
        from <= to <= cs@.len(),
    ensures
        from <= r.0 <= r.1 <= to,
        cs@.subrange(r.0 as int, r.1 as int) == trim(cs@.subrange(from as int, to as int)),
{
    let ghost s = cs@.subrange(from as int, to as int);
    let mut i: usize = from;
    assert(s.subrange(0, s.len() as int) =~= s);
    while i < to && is_whitespace_char(cs[i])
        invariant
            from <= i <= to <= cs@.len(),
            s == cs@.subrange(from as int, to as int),
            trim_start(s) == trim_start(s.subrange(i - from, s.len() as int)),
        decreases to - i,
    {
        proof {
            lemma_trim_start_step(s, i - from);
        }
        i += 1;
    }
    let ghost rest = s.subrange(i - from, s.len() as int);
    assert(trim_start(s) == rest);
    assert(rest =~= cs@.subrange(i as int, to as int));
    let mut j: usize = to;
    assert(rest.subrange(0, rest.len() as int) =~= rest);
    while j > i && is_whitespace_char(cs[j - 1])
        invariant
            from <= i <= j <= to <= cs@.len(),
            rest == cs@.subrange(i as int, to as int),
            trim_end(rest) == trim_end(rest.subrange(0, j - i)),
        decreases j,
    {
        proof {
            lemma_trim_end_step(rest, j - i);
        }
        j -= 1;
    }
    assert(rest.subrange(0, j - i) =~= cs@.subrange(i as int, j as int));
    (i, j)
}

/// `str::trim`: the characters of `s` without leading and trailing whitespace.
pub fn trim_chars(s: &str) -> (r: Vec<char>)
    ensures
        r@ == trim(s@),
{
    let cs = chars_of(s);
    let n = cs.len();
    assert(cs@.subrange(0, n as int) =~= cs@);
    let (i, j) = trim_bounds(&cs, 0, n);
    let mut r: Vec<char> = Vec::new();
    let mut k = i;
    while k < j
        invariant
            i <= k <= j <= n,
            n == cs@.len(),
            r@ == cs@.subrange(i as int, k as int),
        decreases j - k,
    {
        r.push(cs[k]);
        k += 1;
        assert(r@ =~= cs@.subrange(i as int, k as int));
    }
    r
}

/// Whether `cs[from..to]` holds exactly the characters of `lit`.
pub fn range_eq(cs: &Vec<char>, from: usize, to: usize, lit: &str) -> (r: bool)
    requires
        from <= to <= cs@.len(),
    ensures
        r == (cs@.subrange(from as int, to as int) == lit@),
{
    let n = lit.unicode_len();
    if to - from != n {
        return false;
    }
    let mut k: usize = 0;
    while k < n
        invariant
            n == lit@.len(),
            to - from == n,
            from <= to <= cs@.len(),
            k <= n,
            forall|m: int| 0 <= m < k ==> cs@[from + m] == lit@[m],
        decreases n - k,
    {
        if cs[from + k] != lit.get_char(k) {
            assert(cs@.subrange(from as int, to as int)[k as int] != lit@[k as int]);
            return false;
        }
        k += 1;
    }
    assert(cs@.subrange(from as int, to as int) =~= lit@);
    true
}

/// The number of characters of `s` before the first `c`, or `s.len()`.
pub open spec fn count_before(s: Seq<char>, c: char) -> nat
    decreases s.len(),
{
    if s.len() == 0 {
        0
    } else if s[0] == c {
        0
    } else {
        1 + count_before(s.drop_first(), c)
    }
}

pub proof fn lemma_count_before(s: Seq<char>, c: char, k: int)
    requires
        0 <= k <= s.len(),
        forall|j: int| 0 <= j < k ==> s[j] != c,
        k == s.len() || s[k] == c,
    ensures
        count_before(s, c) == k,
    decreases k,
{
    if k > 0 {
        lemma_count_before(s.drop_first(), c, k - 1);
    }
}

/// The index of the first `c` in `cs[from..to]`, or `to`.
pub fn find_char_in(cs: &Vec<char>, from: usize, to: usize, c: char) -> (r: usize)
    requires
        from <= to <= cs@.len(),
    ensures
        from <= r <= to,
        r - from == count_before(cs@.subrange(from as int, to as int), c),
        forall|j: int| from <= j < r ==> cs@[j] != c,
        r < to ==> cs@[r as int] == c,
{
    let mut i = from;
    while i < to && cs[i] != c
        invariant
            from <= i <= to <= cs@.len(),
            forall|j: int| from <= j < i ==> cs@[j] != c,
        decreases to - i,
    {
        i += 1;
    }
    proof {
        let t = cs@.subrange(from as int, to as int);
        lemma_count_before(t, c, i - from);
    }
    i
}

} // verus!

verus! {

/// Lexicographic order by code point: the order of `String`'s `Ord`.
pub open spec fn seq_lt(a: Seq<char>, b: Seq<char>) -> bool
    decreases a.len(),
{
    if a.len() == 0 {
        b.len() > 0
    } else if b.len() == 0 {
        false
    } else if a[0] != b[0] {
        a[0] < b[0]
    } else {
        seq_lt(a.drop_first(), b.drop_first())
    }
}

pub proof fn lemma_seq_lt_irreflexive(a: Seq<char>)
    ensures
        !seq_lt(a, a),
    decreases a.len(),
{
    if a.len() > 0 {
        lemma_seq_lt_irreflexive(a.drop_first());
    }
}

pub proof fn lemma_seq_lt_transitive(a: Seq<char>, b: Seq<char>, c: Seq<char>)
    requires
        seq_lt(a, b),
        seq_lt(b, c),
    ensures
        seq_lt(a, c),
    decreases a.len(),
{
    if a.len() > 0 && b.len() > 0 && c.len() > 0 {
        if a[0] == b[0] && b[0] == c[0] {
            lemma_seq_lt_transitive(a.drop_first(), b.drop_first(), c.drop_first());
        }
    }
}

pub proof fn lemma_seq_lt_total(a: Seq<char>, b: Seq<char>)
    requires
        a != b,
    ensures
        seq_lt(a, b) || seq_lt(b, a),
    decreases a.len(),
{
    if a.len() > 0 && b.len() > 0 {
        if a[0] == b[0] {
            if a.drop_first() == b.drop_first() {
                assert(a =~= seq![a[0]] + a.drop_first());
                assert(b =~= seq![b[0]] + b.drop_first());
            }
            lemma_seq_lt_total(a.drop_first(), b.drop_first());
        }
    } else if a.len() == 0 && b.len() == 0 {
        assert(a =~= b);
    }
}

pub proof fn lemma_seq_lt_asymmetric(a: Seq<char>, b: Seq<char>)
    requires
        seq_lt(a, b),
    ensures
        !seq_lt(b, a),
{
    if seq_lt(b, a) {
        lemma_seq_lt_transitive(a, b, a);
        lemma_seq_lt_irreflexive(a);
    }
}

proof fn lemma_seq_lt_skip(a: Seq<char>, b: Seq<char>, i: int)
    requires
        0 <= i <= a.len(),
        i <= b.len(),
        a.subrange(0, i) == b.subrange(0, i),
    ensures
        seq_lt(a, b) == seq_lt(a.skip(i), b.skip(i)),
    decreases i,
{
    if i > 0 {
        assert(a[0] == a.subrange(0, i)[0]);
        assert(b[0] == b.subrange(0, i)[0]);
        assert(a.drop_first().subrange(0, i - 1) =~= a.subrange(0, i).drop_first());
        assert(b.drop_first().subrange(0, i - 1) =~= b.subrange(0, i).drop_first());
        lemma_seq_lt_skip(a.drop_first(), b.drop_first(), i - 1);
        assert(a.drop_first().skip(i - 1) =~= a.skip(i));
        assert(b.drop_first().skip(i - 1) =~= b.skip(i));
    } else {
        assert(a.skip(0) =~= a);
        assert(b.skip(0) =~= b);
    }
}

/// Whether `a` comes strictly before `b` in code-point order.
pub fn chars_less(a: &Vec<char>, b: &Vec<char>) -> (r: bool)
    ensures
        r == seq_lt(a@, b@),
{
    let n = a.len();
    let m = b.len();
    let mut i: usize = 0;
    while i < n && i < m && a[i] == b[i]
        invariant
            i <= n,
            i <= m,
            n == a@.len(),
            m == b@.len(),
            a@.subrange(0, i as int) == b@.subrange(0, i as int),
        decreases n - i,
    {
        assert(a@.subrange(0, i + 1) =~= a@.subrange(0, i as int).push(a@[i as int]));
        assert(b@.subrange(0, i + 1) =~= b@.subrange(0, i as int).push(b@[i as int]));
        i += 1;
    }
    proof {
        lemma_seq_lt_skip(a@, b@, i as int);
    }
    if i == n {
        i < m
    } else if i == m {
        false
    } else {
        assert(a@.skip(i as int)[0] == a@[i as int]);
        assert(b@.skip(i as int)[0] == b@[i as int]);
        a[i] < b[i]
    }
}

} // verus!

verus! {

/// The ASCII digit for `d < 16`, lower-case beyond nine.
pub open spec fn digit_char(d: nat) -> char {
    if d < 10 {
        (48 + d) as char
    } else {
        (87 + d) as char
    }
}

/// The decimal digits of `n`, without leading zeros.
pub open spec fn decimal(n: nat) -> Seq<char>
    decreases n,
{
    if n < 10 {
        seq![digit_char(n)]
    } else {
        decimal(n / 10).push(digit_char(n % 10))
    }
}

/// The last `k` hexadecimal digits of `n`, zero-padded.
pub open spec fn hex_padded(n: nat, k: nat) -> Seq<char>
    decreases k,
{
    if k == 0 {
        Seq::empty()
    } else {
        hex_padded(n / 16, (k - 1) as nat).push(digit_char(n % 16))
    }
}

fn digit_exec(d: u128) -> (c: char)
    requires
        d < 16,
    ensures
        c == digit_char(d as nat),
{
    let table: [char; 16] = ['0', '1', '2', '3', '4', '5', '6', '7', '8', '9', 'a', 'b', 'c', 'd', 'e', 'f'];
    let c = table[d as usize];
    assert(c == digit_char(d as nat)) by {
        assert(table@[d as int] == digit_char(d as nat));
    }
    c
}

/// `n` in decimal.
pub fn decimal_string(n: u128) -> (r: String)
    ensures
        r@ == decimal(n as nat),
{
    let mut acc: Vec<char> = Vec::new();
    let mut q = n;
    while q >= 10
        invariant
            decimal(n as nat) == decimal(q as nat) + acc@,
        decreases q,
    {
        let d = digit_exec(q % 10);
        let ghost before = acc@;
        acc.insert(0, d);
        assert(decimal(q as nat) == decimal((q / 10) as nat).push(digit_char((q % 10) as nat)));
        assert(decimal((q / 10) as nat).push(d) + before =~= decimal((q / 10) as nat) + acc@);
        q = q / 10;
    }
    let d = digit_exec(q);
    let ghost before = acc@;
    acc.insert(0, d);
    assert(decimal(q as nat) + before =~= acc@);
    string_of_chars(&acc)
}

/// The last `k` hexadecimal digits of `n`, zero-padded.
pub fn hex_string(n: u128, k: usize) -> (r: String)
    ensures
        r@ == hex_padded(n as nat, k as nat),
{
    let mut acc: Vec<char> = Vec::new();
    let mut q = n;
    let mut i: usize = k;
    while i > 0
        invariant
            i <= k,
            hex_padded(n as nat, k as nat) == hex_padded(q as nat, i as nat) + acc@,
        decreases i,
    {
        let d = digit_exec(q % 16);
        let ghost before = acc@;
        acc.insert(0, d);
        assert(hex_padded(q as nat, i as nat) == hex_padded((q / 16) as nat, (i - 1) as nat).push(
            digit_char((q % 16) as nat),
        ));
        assert(hex_padded((q / 16) as nat, (i - 1) as nat).push(d) + before =~= hex_padded(
            (q / 16) as nat,
            (i - 1) as nat,
        ) + acc@);
        q = q / 16;
        i = i - 1;
    }
    assert(hex_padded(q as nat, 0) + acc@ =~= acc@);
    string_of_chars(&acc)
}

} // verus!

verus! {

/// Lines joined by `\n`.
pub open spec fn join_lines(d: Seq<Seq<char>>) -> Seq<char>
    decreases d.len(),
{
    if d.len() == 0 {
        Seq::empty()
    } else if d.len() == 1 {
        d[0]
    } else {
        join_lines(d.drop_last()) + seq!['\n'] + d.last()
    }
}

/// Lines joined by `\n`.
pub fn join_strings(data: &Vec<String>) -> (r: String)
    ensures
        r@ == join_lines(strings_view(data@)),
{
    let ghost d = strings_view(data@);
    let n = data.len();
    if n == 0 {
        return String::new();
    }
    let mut r = data[0].clone();
    assert(d.take(1).drop_last() =~= Seq::<Seq<char>>::empty());
    assert(join_lines(d.take(1)) == d.take(1)[0]);
    let mut i: usize = 1;
    while i < n
        invariant
            1 <= i <= n,
            n == data@.len(),
            d == strings_view(data@),
            r@ == join_lines(d.take(i as int)),
        decreases n - i,
    {
        push_char(&mut r, '\n');
        r.append(data[i].as_str());
        assert(d.take(i + 1).drop_last() =~= d.take(i as int));
        assert(d.take(i + 1).last() == data@[i as int]@);
        i += 1;
    }
    assert(d.take(n as int) =~= d);
    r
}

} // verus!

verus! {

/// `str::split('\n')`: the lines of `s`, the last one possibly empty.
pub open spec fn split_newlines(s: Seq<char>) -> Seq<Seq<char>>
    decreases s.len(),
{
    let k = count_before(s, '\n') as int;
    if k < s.len() {
        seq![s.take(k)] + split_newlines(s.skip(k + 1))
    } else {
        seq![s]
    }
}

pub open spec fn ranges_view(cs: Seq<char>, b: Seq<(usize, usize)>) -> Seq<Seq<char>> {
    b.map_values(|p: (usize, usize)| cs.subrange(p.0 as int, p.1 as int))
}

/// The bounds of the lines of `cs`, as `str::split('\n')` cuts them.
pub fn line_bounds(cs: &Vec<char>) -> (r: Vec<(usize, usize)>)
    ensures
        ranges_view(cs@, r@) == split_newlines(cs@),
        forall|i: int| 0 <= i < r@.len() ==> #[trigger] r@[i].0 <= r@[i].1 <= cs@.len(),
{
    let n = cs.len();
    let mut r: Vec<(usize, usize)> = Vec::new();
    let mut start: usize = 0;
    assert(cs@.skip(0) =~= cs@);
    assert(ranges_view(cs@, r@) + split_newlines(cs@.skip(0)) =~= split_newlines(cs@));
    loop
        invariant_except_break
            start <= n,
            split_newlines(cs@) == ranges_view(cs@, r@) + split_newlines(cs@.skip(start as int)),
        invariant
            n == cs@.len(),
            forall|i: int| 0 <= i < r@.len() ==> #[trigger] r@[i].0 <= r@[i].1 <= cs@.len(),
        ensures
            split_newlines(cs@) == ranges_view(cs@, r@),
        decreases n - start,
    {
        let k = find_char_in(cs, start, n, '\n');
        let ghost t = cs@.skip(start as int);
        assert(cs@.subrange(start as int, n as int) =~= t);
        let ghost before = r@;
        r.push((start, k));
        assert(ranges_view(cs@, r@) =~= ranges_view(cs@, before).push(cs@.subrange(start as int, k as int)));
        if k < n {
            assert(t.take(k - start) =~= cs@.subrange(start as int, k as int));
            assert(t.skip(k - start + 1) =~= cs@.skip(k + 1));
            assert(ranges_view(cs@, before) + split_newlines(t) =~= ranges_view(cs@, r@) + split_newlines(cs@.skip(k + 1)));
            start = k + 1;
        } else {
            assert(t =~= cs@.subrange(start as int, k as int));
            assert(ranges_view(cs@, before) + split_newlines(t) =~= ranges_view(cs@, r@));
            break;
        }
    }
    r
}

/// `str::split('\n')`, each piece as a `String`.
pub fn split_lines(s: &str) -> (r: Vec<String>)
    ensures
        strings_view(r@) == split_newlines(s@),
{
    let cs = chars_of(s);
    let bounds = line_bounds(&cs);
    let mut r: Vec<String> = Vec::new();
    let mut i: usize = 0;
    while i < bounds.len()
        invariant
            i <= bounds@.len(),
            forall|j: int| 0 <= j < bounds@.len() ==> #[trigger] bounds@[j].0 <= bounds@[j].1 <= cs@.len(),
            strings_view(r@) == ranges_view(cs@, bounds@).take(i as int),
        decreases bounds@.len() - i,
    {
        let (from, to) = bounds[i];
        let line = string_of_range(&cs, from, to);
        let ghost before = r@;
        r.push(line);
        assert(ranges_view(cs@, bounds@)[i as int] == cs@.subrange(from as int, to as int));
        assert(strings_view(r@) =~= strings_view(before).push(line@));
        assert(ranges_view(cs@, bounds@).take(i + 1) =~= ranges_view(cs@, bounds@).take(i as int).push(
            ranges_view(cs@, bounds@)[i as int],
        ));
        i += 1;
    }
    assert(ranges_view(cs@, bounds@).take(i as int) =~= ranges_view(cs@, bounds@));
    r
}

} // verus!

verus! {

/// `s` without the copies of `c` at its end.
pub open spec fn strip_trailing(s: Seq<char>, c: char) -> Seq<char>
    decreases s.len(),
{
    if s.len() > 0 && s.last() == c {
        strip_trailing(s.drop_last(), c)
    } else {
        s
    }
}

/// The end of `cs[..to]` once the copies of `c` at its end are dropped.
pub fn strip_trailing_end(cs: &Vec<char>, to: usize, c: char) -> (r: usize)
    requires
        to <= cs@.len(),
    ensures
        r <= to,
        cs@.take(r as int) == strip_trailing(cs@.take(to as int), c),
{
    let mut end = to;
    while end > 0 && cs[end - 1] == c
        invariant
            end <= to <= cs@.len(),
            strip_trailing(cs@.take(to as int), c) == strip_trailing(cs@.take(end as int), c),
        decreases end,
    {
        assert(cs@.take(end as int).drop_last() =~= cs@.take(end - 1));
        end -= 1;
    }
    end
}

} // verus!

verus! {

pub open spec fn is_digit(c: char) -> bool {
    '0' <= c && c <= '9'
}

pub open spec fn digit_value(c: char) -> nat {
    (c as u32 - '0' as u32) as nat
}

/// The value of a string of decimal digits.
pub open spec fn digits_value(s: Seq<char>) -> nat
    decreases s.len(),
{
    if s.len() == 0 {
        0
    } else {
        digits_value(s.drop_last()) * 10 + digit_value(s.last())
    }
}

/// `s` without a leading `+`.
pub open spec fn unsigned_body(s: Seq<char>) -> Seq<char> {
    if s.len() > 0 && s[0] == '+' {
        s.drop_first()
    } else {
        s
    }
}

pub open spec fn all_digits(s: Seq<char>) -> bool {
    forall|i: int| 0 <= i < s.len() ==> is_digit(#[trigger] s[i])
}

/// `str::parse` for an unsigned type whose largest value is `max`: an
/// optional `+`, then one digit or more, of a value up to `max`.
pub open spec fn parse_unsigned(s: Seq<char>, max: nat) -> Option<nat> {
    let body = unsigned_body(s);
    if body.len() > 0 && all_digits(body) && digits_value(body) <= max {
        Some(digits_value(body))
    } else {
        None
    }
}

proof fn lemma_digits_value_grows(s: Seq<char>, i: int)
    requires
        0 <= i <= s.len(),
    ensures
        digits_value(s.take(i)) <= digits_value(s),
    decreases s.len() - i,
{
    if i < s.len() {
        lemma_digits_value_grows(s, i + 1);
        assert(s.take(i + 1).drop_last() =~= s.take(i));
    } else {
        assert(s.take(i) =~= s);
    }
}

/// `cs` read as an unsigned number up to `max`, as `str::parse` reads it.
pub fn parse_unsigned_chars(cs: &Vec<char>, max: u64) -> (r: Option<u64>)
    ensures
        match parse_unsigned(cs@, max as nat) {
            Some(v) => r == Some(v as u64),
            None => r is None,
        },
{
    let n = cs.len();
    let mut start: usize = 0;
    if n > 0 && cs[0] == '+' {
        start = 1;
    }
    let ghost body = cs@.skip(start as int);
    assert(body =~= unsigned_body(cs@));
    if start >= n {
        return None;
    }
    let mut i = start;
    while i < n
        invariant
            start <= i <= n,
            n == cs@.len(),
            body == cs@.skip(start as int),
            body == unsigned_body(cs@),
            forall|k: int| start <= k < i ==> is_digit(#[trigger] cs@[k]),
        decreases n - i,
    {
        let c = cs[i];
        if !('0' <= c && c <= '9') {
            assert(!is_digit(body[i - start]));
            assert(!all_digits(body));
            return None;
        }
        i += 1;
    }
    let mut v: u64 = 0;
    let mut j = start;
    while j < n
        invariant
            start <= j <= n,
            n == cs@.len(),
            body == cs@.skip(start as int),
            body == unsigned_body(cs@),
            forall|k: int| 0 <= k < body.len() ==> is_digit(#[trigger] body[k]),
            v == digits_value(body.take(j - start)),
            v <= max,
        decreases n - j,
    {
        let c = cs[j];
        assert(c == body[j - start]);
        let d = (c as u32 - '0' as u32) as u64;
        assert(body.take(j - start + 1).drop_last() =~= body.take(j - start));
        assert(body.take(j - start + 1).last() == c);
        assert(digits_value(body.take(j - start + 1)) == v * 10 + d);
        if d > max || v > (max - d) / 10 {
            assert(v * 10 + d > max) by (nonlinear_arith)
                requires
                    d > max || v > (max - d) / 10,
                    d <= max ==> (max - d) / 10 * 10 + 10 > max - d,
            ;
            proof {
                lemma_digits_value_grows(body, j - start + 1);
            }
            return None;
        }
        assert(v * 10 + d <= max) by (nonlinear_arith)
            requires
                v <= (max - d) / 10,
                d <= max,
        ;
        v = v * 10 + d;
        j += 1;
    }
    assert(body.take(n - start) =~= body);
    Some(v)
}

} // verus!
