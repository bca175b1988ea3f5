//! Plain-text helpers: decimal numbers, white space, substrings and Unix paths.
//!
//! Every contract speaks of a string as the sequence of its characters.

use vstd::prelude::*;
use vstd::string::*;

verus! {

/// The decimal digit for `d`, a number below ten.
pub open spec fn digit(d: int) -> char {
    (('0' as int) + d) as char
}

/// The decimal notation of `n`, without leading zeros.
pub open spec fn decimal(n: nat) -> Seq<char>
    decreases n,
{
    if n < 10 {
        seq![digit(n as int)]
    } else {
        decimal(n / 10).push(digit((n % 10) as int))
    }
}

/// The decimal notation of an integer: a minus sign leads a negative one.
pub open spec fn decimal_int(n: int) -> Seq<char> {
    if n < 0 {
        seq!['-'] + decimal((-n) as nat)
    } else {
        decimal(n as nat)
    }
}

/// The text of one digit.
fn digit_text(d: u64) -> (s: &'static str)
    requires
        d < 10,
    ensures
        s@ == seq![digit(d as int)],
{
    proof {
        reveal_strlit("0");
        reveal_strlit("1");
        reveal_strlit("2");
        reveal_strlit("3");
        reveal_strlit("4");
        reveal_strlit("5");
        reveal_strlit("6");
        reveal_strlit("7");
        reveal_strlit("8");
        reveal_strlit("9");
    }
    if d == 0 {
        "0"
    } else if d == 1 {
        "1"
    } else if d == 2 {
        "2"
    } else if d == 3 {
        "3"
    } else if d == 4 {
        "4"
    } else if d == 5 {
        "5"
    } else if d == 6 {
        "6"
    } else if d == 7 {
        "7"
    } else if d == 8 {
        "8"
    } else {
        "9"
    }
}

/// Writes `n` in decimal.
pub fn decimal_text(n: u64) -> (s: String)
    ensures
        s@ == decimal(n as nat),
    decreases n,
{
    if n < 10 {
        digit_text(n).to_string()
    } else {
        let mut s = decimal_text(n / 10);
        s.append(digit_text(n % 10));
        assert(s@ == decimal(n as nat));
        s
    }
}

/// Writes a signed number in decimal.
pub fn decimal_int_text(n: i64) -> (s: String)
    ensures
        s@ == decimal_int(n as int),
{
    if n < 0 {
        let magnitude: u64 = (-(n as i128)) as u64;
        proof {
            reveal_strlit("-");
        }
        let s = "-".to_string().concat(decimal_text(magnitude).as_str());
        assert("-"@ == seq!['-']);
        s
    } else {
        decimal_text(n as u64)
    }
}

/// The characters of a string, in order.
pub fn characters(s: &str) -> (v: Vec<char>)
    ensures
        v@ == s@,
{
    let mut v: Vec<char> = Vec::new();
    for c in it: s.chars()
        invariant
            it.seq() == s@,
            v@ == s@.take(it.index()),
    {
        v.push(c);
    }
    v
}

/// Whether two strings hold the same characters.
pub fn same(a: &str, b: &str) -> (r: bool)
    ensures
        r == (a@ == b@),
{
    let x = characters(a);
    let y = characters(b);
    if x.len() != y.len() {
        return false;
    }
    let mut i: usize = 0;
    while i < x.len()
        invariant
            x@ == a@,
            y@ == b@,
            x.len() == y.len(),
            i <= x.len(),
            forall|j: int| 0 <= j < i ==> x[j] == y[j],
        decreases x.len() - i,
    {
        if x[i] != y[i] {
            return false;
        }
        i += 1;
    }
    assert(a@ =~= b@);
    true
}

/// The Unicode White_Space property.
pub open spec fn is_white(c: char) -> bool {
    let n = c as u32;
    ||| 0x09 <= n <= 0x0D
    ||| n == 0x20
    ||| n == 0x85
    ||| n == 0xA0
    ||| n == 0x1680
    ||| 0x2000 <= n <= 0x200A
    ||| n == 0x2028
    ||| n == 0x2029
    ||| n == 0x202F
    ||| n == 0x205F
    ||| n == 0x3000
}

/// Whether `c` is white space.
pub fn white(c: char) -> (r: bool)
    ensures
        r == is_white(c),
{
    let n: u32 = c as u32;
    (0x09 <= n && n <= 0x0D) || n == 0x20 || n == 0x85 || n == 0xA0 || n == 0x1680 || (0x2000 <= n
        && n <= 0x200A) || n == 0x2028 || n == 0x2029 || n == 0x202F || n == 0x205F || n == 0x3000
}

/// A line that holds nothing but white space.
pub open spec fn is_blank(s: Seq<char>) -> bool {
    forall|i: int| 0 <= i < s.len() ==> is_white(#[trigger] s[i])
}

/// Whether a line holds nothing but white space.
pub fn blank(s: &str) -> (r: bool)
    ensures
        r == is_blank(s@),
{
    for c in it: s.chars()
        invariant
            it.seq() == s@,
            forall|i: int| 0 <= i < it.index() ==> is_white(#[trigger] s@[i]),
    {
        if !white(c) {
            assert(!is_white(s@[it.index()]));
            return false;
        }
    }
    true
}

/// `s` without the white space at its two ends.
pub open spec fn trimmed(s: Seq<char>) -> Seq<char>
    decreases s.len(),
{
    if s.len() == 0 {
        s
    } else if is_white(s[0]) {
        trimmed(s.drop_first())
    } else if is_white(s.last()) {
        trimmed(s.drop_last())
    } else {
        s
    }
}

/// Drops the white space at both ends of a string.
pub fn trim(s: &str) -> (r: String)
    ensures
        r@ == trimmed(s@),
{
    let v = characters(s);
    let mut lo: usize = 0;
    let mut hi: usize = v.len();
    assert(s@.subrange(0, hi as int) =~= s@);
    while lo < hi && white(v[lo])
        invariant
            v@ == s@,
            lo <= hi <= v.len(),
            trimmed(s@) == trimmed(s@.subrange(lo as int, hi as int)),
        decreases hi - lo,
    {
        assert(s@.subrange(lo as int, hi as int).drop_first() =~= s@.subrange(lo + 1, hi as int));
        lo += 1;
    }
    while lo < hi && white(v[hi - 1])
        invariant
            v@ == s@,
            lo <= hi <= v.len(),
            lo < hi ==> !is_white(s@[lo as int]),
            trimmed(s@) == trimmed(s@.subrange(lo as int, hi as int)),
        decreases hi - lo,
    {
        assert(s@.subrange(lo as int, hi as int).drop_last() =~= s@.subrange(lo as int, hi - 1));
        hi -= 1;
    }
    s.substring_char(lo, hi).to_string()
}

/// Whether the character `c` occurs in `s`.
pub fn has_char(s: &str, c: char) -> (r: bool)
    ensures
        r == s@.contains(c),
{
    for d in it: s.chars()
        invariant
            it.seq() == s@,
            forall|i: int| 0 <= i < it.index() ==> s@[i] != c,
    {
        if d == c {
            assert(s@[it.index()] == c);
            return true;
        }
    }
    false
}

/// `pattern` stands in `s` at position `i`.
pub open spec fn occurs_at(s: Seq<char>, pattern: Seq<char>, i: int) -> bool {
    0 <= i <= s.len() - pattern.len() && s.subrange(i, i + pattern.len()) == pattern
}

/// `pattern` occurs somewhere in `s`.
pub open spec fn occurs_in(s: Seq<char>, pattern: Seq<char>) -> bool {
    exists|i: int| occurs_at(s, pattern, i)
}

/// Whether `pattern` occurs in `s`.
pub fn has_text(s: &str, pattern: &str) -> (r: bool)
    ensures
        r == occurs_in(s@, pattern@),
{
    let v = characters(s);
    let p = characters(pattern);
    if p.len() > v.len() {
        return false;
    }
    let last: usize = v.len() - p.len();
    let mut i: usize = 0;
    loop
        invariant
            v@ == s@,
            p@ == pattern@,
            p.len() <= v.len(),
            last == v.len() - p.len(),
            i <= last,
            forall|k: int| 0 <= k < i ==> !occurs_at(s@, pattern@, k),
        decreases last - i,
    {
        let mut j: usize = 0;
        while j < p.len() && v[i + j] == p[j]
            invariant
                v@ == s@,
                p@ == pattern@,
                i + p.len() <= v.len(),
                j <= p.len(),
                forall|k: int| 0 <= k < j ==> v[i + k] == p[k],
            decreases p.len() - j,
        {
            j += 1;
        }
        if j == p.len() {
            assert(s@.subrange(i as int, i + pattern@.len()) =~= pattern@);
            assert(occurs_at(s@, pattern@, i as int));
            return true;
        }
        assert(!occurs_at(s@, pattern@, i as int)) by {
            assert(s@.subrange(i as int, i + pattern@.len())[j as int] == v[i + j]);
        }
        if i == last {
            return false;
        }
        i += 1;
    }
}

/// `child`, a relative path, below the directory `base`.
pub open spec fn joined(base: Seq<char>, child: Seq<char>) -> Seq<char> {
    if base.len() == 0 || base.last() == '/' {
        base + child
    } else {
        base.push('/') + child
    }
}

/// Joins a relative Unix path onto a directory.
pub fn join(base: &str, child: &str) -> (r: String)
    ensures
        r@ == joined(base@, child@),
{
    let v = characters(base);
    if v.len() == 0 || v[v.len() - 1] == '/' {
        base.to_string().concat(child)
    } else {
        proof {
            reveal_strlit("/");
        }
        assert(base@ + "/"@ =~= base@.push('/'));
        base.to_string().concat("/").concat(child)
    }
}

/// A component of `path` (a stretch between slashes) is `..`: it starts at `i`.
pub open spec fn parent_at(path: Seq<char>, i: int) -> bool {
    &&& 0 <= i
    &&& i + 2 <= path.len()
    &&& path[i] == '.'
    &&& path[i + 1] == '.'
    &&& i == 0 || path[i - 1] == '/'
    &&& i + 2 == path.len() || path[i + 2] == '/'
}

/// Some component of a Unix path is `..`.
pub open spec fn has_parent_component(path: Seq<char>) -> bool {
    exists|i: int| parent_at(path, i)
}

/// Whether some component of a Unix path is `..`.
pub fn has_parent_dir(path: &str) -> (r: bool)
    ensures
        r == has_parent_component(path@),
{
    let v = characters(path);
    let mut i: usize = 0;
    while i < v.len()
        invariant
            v@ == path@,
            i <= v.len(),
            forall|k: int| 0 <= k < i ==> !parent_at(path@, k),
        decreases v.len() - i,
    {
        if v.len() - i >= 2 && v[i] == '.' && v[i + 1] == '.' && (i == 0 || v[i - 1] == '/') && (
        v.len() - i == 2 || v[i + 2] == '/') {
            assert(parent_at(path@, i as int));
            return true;
        }
        i += 1;
    }
    false
}

/// A path ends with a slash that says nothing, or with a `.` behind a slash.
pub open spec fn has_idle_end(path: Seq<char>) -> bool {
    &&& path.len() > 1
    &&& path.last() == '/' || (path.last() == '.' && path[path.len() - 2] == '/')
}

/// `path` without its trailing slashes and `.` components; a lone leading slash stays.
pub open spec fn unslashed(path: Seq<char>) -> Seq<char>
    decreases path.len(),
{
    if has_idle_end(path) {
        unslashed(path.drop_last())
    } else {
        path
    }
}

/// `path` up to the slash before its last component, the slash included; the
/// empty path where there is no slash.
pub open spec fn up_to_slash(path: Seq<char>) -> Seq<char>
    decreases path.len(),
{
    if path.len() == 0 || path.last() == '/' {
        path
    } else {
        up_to_slash(path.drop_last())
    }
}

/// The directory above a path: `None` above the root and above the empty path.
pub open spec fn parent_of(path: Seq<char>) -> Option<Seq<char>> {
    let p = unslashed(path);
    if p.len() == 0 || p == seq!['/'] {
        None
    } else {
        Some(unslashed(up_to_slash(p)))
    }
}

proof fn lemma_up_to_slash_shrinks(path: Seq<char>)
    ensures
        up_to_slash(path).len() <= path.len(),
        path.len() > 0 && path.last() != '/' ==> up_to_slash(path).len() < path.len(),
    decreases path.len(),
{
    if path.len() > 0 && path.last() != '/' {
        lemma_up_to_slash_shrinks(path.drop_last());
    }
}

proof fn lemma_unslashed_shrinks(path: Seq<char>)
    ensures
        unslashed(path).len() <= path.len(),
        unslashed(path).len() > 1 ==> unslashed(path).last() != '/',
        path.len() > 0 ==> unslashed(path).len() > 0 && unslashed(path)[0] == path[0],
    decreases path.len(),
{
    if has_idle_end(path) {
        lemma_unslashed_shrinks(path.drop_last());
    }
}

/// The parent of a path is shorter than the path.
pub proof fn lemma_parent_is_shorter(path: Seq<char>)
    ensures
        parent_of(path) matches Some(p) ==> p.len() < path.len(),
{
    let p = unslashed(path);
    lemma_unslashed_shrinks(path);
    lemma_up_to_slash_shrinks(p);
    lemma_unslashed_shrinks(up_to_slash(p));
    if p.len() == 1 && p.last() == '/' {
        assert(p =~= seq!['/']);
    }
}

/// The path and every directory above it, from the path up.
pub open spec fn ancestors_of(path: Seq<char>) -> Seq<Seq<char>>
    decreases path.len(),
{
    proof {
        lemma_parent_is_shorter(path);
    }
    match parent_of(path) {
        Some(p) => seq![path] + ancestors_of(p),
        None => seq![path],
    }
}

/// The directory above a Unix path, where there is one.
pub fn parent(path: &str) -> (r: Option<String>)
    ensures
        match r {
            Some(p) => parent_of(path@) == Some(p@),
            None => parent_of(path@) is None,
        },
{
    let v = characters(path);
    assert(v@.take(v@.len() as int) =~= path@);
    let n: usize = unslashed_len(&v, v.len());
    if n == 0 || (n == 1 && v[0] == '/') {
        proof {
            if n == 1 {
                assert(v@.take(1) =~= seq!['/']);
            }
        }
        return None;
    }
    assert(unslashed(path@) != seq!['/']) by {
        assert(unslashed(path@) == v@.take(n as int));
        if v@.take(n as int) == seq!['/'] {
            assert(v@.take(n as int).len() == 1);
            assert(v@.take(n as int)[0] == v@[0]);
        }
    }
    let ghost p = v@.take(n as int);
    let mut k: usize = n;
    while k > 0 && v[k - 1] != '/'
        invariant
            v@ == path@,
            k <= n <= v.len(),
            p == v@.take(n as int),
            up_to_slash(p) == up_to_slash(v@.take(k as int)),
        decreases k,
    {
        assert(v@.take(k as int).drop_last() =~= v@.take(k - 1));
        k -= 1;
    }
    let m: usize = unslashed_len(&v, k);
    assert(path@.subrange(0, m as int) =~= v@.take(m as int));
    Some(path.substring_char(0, m).to_string())
}

/// How long a path is without its trailing slashes and `.` components.
fn unslashed_len(v: &Vec<char>, len: usize) -> (n: usize)
    requires
        len <= v.len(),
    ensures
        n <= len,
        unslashed(v@.take(len as int)) == v@.take(n as int),
{
    let mut n: usize = len;
    while n > 1 && (v[n - 1] == '/' || (v[n - 1] == '.' && v[n - 2] == '/'))
        invariant
            n <= len <= v.len(),
            unslashed(v@.take(len as int)) == unslashed(v@.take(n as int)),
        decreases n,
    {
        assert(v@.take(n as int).drop_last() =~= v@.take(n - 1));
        n -= 1;
    }
    n
}

/// A Unix path and every directory above it, from the path up.
pub fn ancestors(path: &str) -> (v: Vec<String>)
    ensures
        texts(v@) == ancestors_of(path@),
    decreases path@.len(),
{
    let mut v: Vec<String> = Vec::new();
    add_text(&mut v, path);
    proof {
        lemma_parent_is_shorter(path@);
    }
    match parent(path) {
        Some(p) => {
            let above = ancestors(p.as_str());
            add_texts(&mut v, &above);
            assert(texts(v@) =~= seq![path@] + ancestors_of(p@));
        },
        None => {
            assert(texts(v@) =~= seq![path@]);
        },
    }
    v
}

/// The texts of a list of strings.
pub open spec fn texts(v: Seq<String>) -> Seq<Seq<char>> {
    Seq::new(v.len(), |i: int| v[i]@)
}

/// Appends one text to a list.
pub fn add_text(v: &mut Vec<String>, s: &str)
    ensures
        texts(final(v)@) == texts(old(v)@).push(s@),
{
    v.push(s.to_string());
    assert(texts(v@) =~= texts(old(v)@).push(s@));
}

/// Appends every text of `other` to a list.
pub fn add_texts(v: &mut Vec<String>, other: &Vec<String>)
    ensures
        texts(final(v)@) == texts(old(v)@) + texts(other@),
{
    let ghost start = texts(v@);
    let mut i: usize = 0;
    while i < other.len()
        invariant
            i <= other.len(),
            texts(v@) == start + texts(other@).take(i as int),
        decreases other.len() - i,
    {
        add_text(v, other[i].as_str());
        assert(texts(other@).take(i + 1) =~= texts(other@).take(i as int).push(other@[i as int]@));
        i += 1;
    }
    assert(texts(other@).take(i as int) =~= texts(other@));
}

/// A decimal digit.
pub open spec fn is_digit(c: char) -> bool {
    '0' <= c <= '9'
}

/// The number that a run of digits stands for.
pub open spec fn number_of(digits: Seq<char>) -> nat
    decreases digits.len(),
{
    if digits.len() == 0 {
        0
    } else {
        number_of(digits.drop_last()) * 10 + (digits.last() as nat - '0' as nat) as nat
    }
}

/// One digit or more, and nothing else.
pub open spec fn is_digits(s: Seq<char>) -> bool {
    s.len() > 0 && forall|i: int| 0 <= i < s.len() ==> is_digit(#[trigger] s[i])
}

/// What follows the sign of a number, where it has one.
pub open spec fn unsigned_part(s: Seq<char>) -> Seq<char> {
    if s.len() > 0 && (s[0] == '-' || s[0] == '+') {
        s.drop_first()
    } else {
        s
    }
}

/// The 32-bit number that a text stands for: digits, a sign before them where
/// there is one, and nothing else. `None` where the text is not of this form or
/// the number is out of range.
pub open spec fn signed_number(s: Seq<char>) -> Option<int> {
    let digits = unsigned_part(s);
    let value = if s.len() > 0 && s[0] == '-' {
        -number_of(digits)
    } else {
        number_of(digits) as int
    };
    if is_digits(digits) && i32::MIN <= value <= i32::MAX {
        Some(value)
    } else {
        None
    }
}

proof fn lemma_number_grows(digits: Seq<char>, i: int)
    requires
        0 <= i <= digits.len(),
        forall|k: int| 0 <= k < digits.len() ==> is_digit(#[trigger] digits[k]),
    ensures
        number_of(digits.take(i)) <= number_of(digits),
    decreases digits.len(),
{
    if i < digits.len() {
        lemma_number_grows(digits.drop_last(), i);
        assert(digits.drop_last().take(i) =~= digits.take(i));
    } else {
        assert(digits.take(i) =~= digits);
    }
}

/// Reads a signed 32-bit number.
pub fn parse_i32(s: &str) -> (r: Option<i32>)
    ensures
        match r {
            Some(n) => signed_number(s@) == Some(n as int),
            None => signed_number(s@) is None,
        },
{
    let v = characters(s);
    let signed: bool = v.len() > 0 && (v[0] == '-' || v[0] == '+');
    let negative: bool = signed && v[0] == '-';
    let start: usize = if signed {
        1
    } else {
        0
    };
    if v.len() == start {
        return None;
    }
    let ghost digits = unsigned_part(s@);
    let mut i: usize = start;
    let mut value: u64 = 0;
    while i < v.len()
        invariant
            v@ == s@,
            start <= i <= v.len(),
            start == (if signed {
                1int
            } else {
                0int
            }),
            signed == (s@.len() > 0 && (s@[0] == '-' || s@[0] == '+')),
            digits == unsigned_part(s@),
            digits.len() == v.len() - start,
            forall|k: int| 0 <= k < i - start ==> is_digit(#[trigger] digits[k]),
            value == number_of(digits.take(i - start)),
            value <= 0x8000_0000,
        decreases v.len() - i,
    {
        let c = v[i];
        let ghost k = i - start;
        assert(digits[k] == c);
        if !('0' <= c && c <= '9') {
            assert(!is_digit(digits[k]));
            return None;
        }
        assert(digits.take(k + 1).drop_last() =~= digits.take(k));
        value = value * 10 + (c as u64 - '0' as u64);
        assert(value == number_of(digits.take(k + 1)));
        if value > 0x8000_0000 {
            proof {
                if is_digits(digits) {
                    lemma_number_grows(digits, k + 1);
                }
            }
            return None;
        }
        i += 1;
    }
    assert(digits.take(digits.len() as int) =~= digits);
    if negative {
        Some((-(value as i64)) as i32)
    } else if value == 0x8000_0000 {
        None
    } else {
        Some(value as i32)
    }
}

/// Reads a natural number: digits and nothing else. `None` where the text is not of
/// this form or the number is out of range.
pub fn parse_u64(s: &str) -> (r: Option<u64>)
    ensures
        match r {
            Some(n) => is_digits(s@) && number_of(s@) == n,
            None => !is_digits(s@) || number_of(s@) > u64::MAX,
        },
{
    let v = characters(s);
    if v.len() == 0 {
        return None;
    }
    let mut i: usize = 0;
    let mut value: u64 = 0;
    while i < v.len()
        invariant
            v@ == s@,
            i <= v.len(),
            forall|k: int| 0 <= k < i ==> is_digit(#[trigger] s@[k]),
            value == number_of(s@.take(i as int)),
        decreases v.len() - i,
    {
        let c = v[i];
        if !('0' <= c && c <= '9') {
            assert(!is_digit(s@[i as int]));
            return None;
        }
        assert(s@.take(i + 1).drop_last() =~= s@.take(i as int));
        let next: u128 = value as u128 * 10 + (c as u128 - '0' as u128);
        assert(next == number_of(s@.take(i + 1)));
        if next > u64::MAX as u128 {
            proof {
                if is_digits(s@) {
                    lemma_number_grows(s@, i + 1);
                }
            }
            return None;
        }
        value = next as u64;
        i += 1;
    }
    assert(s@.take(i as int) =~= s@);
    Some(value)
}

/// A number is read back from its decimal notation.
pub proof fn lemma_decimal_reads_back(n: nat)
    ensures
        is_digits(decimal(n)),
        number_of(decimal(n)) == n,
    decreases n,
{
    if n < 10 {
        let d = digit(n as int);
        assert(is_digit(d));
        assert(decimal(n).drop_last() =~= Seq::<char>::empty());
        assert(decimal(n).last() == d);
        assert(number_of(Seq::<char>::empty()) == 0);
    } else {
        lemma_decimal_reads_back(n / 10);
        let d = digit((n % 10) as int);
        assert(is_digit(d));
        assert(decimal(n).drop_last() =~= decimal(n / 10));
        assert(decimal(n).last() == d);
    }
}

/// The text of an optional string.
pub open spec fn optional(s: Option<String>) -> Option<Seq<char>> {
    match s {
        Some(t) => Some(t@),
        None => None,
    }
}

/// Two numbers are written alike only where they are the same.
pub proof fn lemma_decimals_differ(a: nat, b: nat)
    ensures
        decimal(a) == decimal(b) ==> a == b,
        decimal_int(a as int) == decimal(a),
        a > 0 ==> decimal_int(-(a as int)) == seq!['-'] + decimal(a),
{
    lemma_decimal_reads_back(a);
    lemma_decimal_reads_back(b);
}

/// A part of a text occurs in it.
pub proof fn lemma_a_part_occurs(before: Seq<char>, part: Seq<char>, after: Seq<char>)
    ensures
        occurs_in(before + part + after, part),
{
    let s = before + part + after;
    assert(s.subrange(before.len() as int, (before.len() + part.len()) as int) =~= part);
    assert(occurs_at(s, part, before.len() as int));
}

/// What occurs in a text is a part of it: the text is what stands before it, the pattern,
/// and what stands behind it.
pub proof fn lemma_what_occurs_is_a_part(s: Seq<char>, pattern: Seq<char>)
    ensures
        occurs_in(s, pattern) <==> exists|before: Seq<char>, after: Seq<char>|
            s == #[trigger] (before + pattern + after),
{
    if occurs_in(s, pattern) {
        let i = choose|i: int| occurs_at(s, pattern, i);
        let before = s.take(i);
        let after = s.skip(i + pattern.len());
        assert(s =~= before + pattern + after) by {
            assert forall|k: int| 0 <= k < s.len() implies s[k] == (before + pattern
                + after)[k] by {
                if i <= k < i + pattern.len() {
                    assert(s.subrange(i, i + pattern.len())[k - i] == s[k]);
                }
            }
        }
    }
    if exists|before: Seq<char>, after: Seq<char>| s == #[trigger] (before + pattern + after) {
        let (before, after) = choose|before: Seq<char>, after: Seq<char>|
            s == #[trigger] (before + pattern + after);
        lemma_a_part_occurs(before, pattern, after);
    }
}

/// A joined path starts with the directory and ends with the child, with nothing but a
/// slash between them, and with a slash wherever there is a directory.
pub proof fn lemma_a_joined_path_holds_both(base: Seq<char>, child: Seq<char>)
    ensures
        joined(base, child).take(base.len() as int) == base,
        joined(base, child).skip(joined(base, child).len() - child.len()) == child,
        joined(base, child).len() <= base.len() + 1 + child.len(),
        base.len() > 0 ==> joined(base, child)[joined(base, child).len() - child.len() - 1] == '/',
        base.len() == 0 ==> joined(base, child) == child,
        joined(base, child).len() == base.len() + 1 + child.len() <==> base.len() > 0
            && base.last() != '/',
{
    let j = joined(base, child);
    assert(j.take(base.len() as int) =~= base);
    assert(j.skip(j.len() - child.len()) =~= child);
    if base.len() == 0 {
        assert(j =~= child);
    }
}

/// Below one directory, other children are other paths.
pub proof fn lemma_children_stay_apart(base: Seq<char>, a: Seq<char>, b: Seq<char>)
    ensures
        joined(base, a) == joined(base, b) ==> a == b,
{
    if joined(base, a) == joined(base, b) {
        lemma_a_joined_path_holds_both(base, a);
        lemma_a_joined_path_holds_both(base, b);
    }
}

/// A trimmed text has no white space at its ends, and only white space was dropped: the
/// text is what was dropped before it, the trimmed text, and what was dropped behind it.
pub proof fn lemma_trimming_drops_white_space_alone(s: Seq<char>)
    ensures
        trimmed(s).len() > 0 ==> !is_white(trimmed(s)[0]) && !is_white(trimmed(s).last()),
        exists|before: Seq<char>, after: Seq<char>|
            is_blank(before) && is_blank(after) && s == #[trigger] (before + trimmed(s) + after),
        trimmed(trimmed(s)) == trimmed(s),
        trimmed(s).len() == 0 <==> is_blank(s),
    decreases s.len(),
{
    let t = trimmed(s);
    let none = Seq::<char>::empty();
    if s.len() == 0 {
        assert(s =~= none + t + none);
    } else if is_white(s[0]) {
        let rest = s.drop_first();
        lemma_trimming_drops_white_space_alone(rest);
        assert(t == trimmed(rest));
        let (before, after) = choose|before: Seq<char>, after: Seq<char>|
            is_blank(before) && is_blank(after) && rest == #[trigger] (before + trimmed(rest)
                + after);
        let longer = seq![s[0]] + before;
        assert(is_blank(longer));
        assert(s =~= seq![s[0]] + rest);
        assert(s =~= longer + t + after);
        assert(is_blank(rest) ==> is_blank(s)) by {
            assert forall|i: int| is_blank(rest) && 0 <= i < s.len() implies is_white(
                #[trigger] s[i],
            ) by {
                if i > 0 {
                    assert(rest[i - 1] == s[i]);
                }
            }
        }
        assert(is_blank(s) ==> is_blank(rest));
    } else if is_white(s.last()) {
        let rest = s.drop_last();
        lemma_trimming_drops_white_space_alone(rest);
        assert(t == trimmed(rest));
        let (before, after) = choose|before: Seq<char>, after: Seq<char>|
            is_blank(before) && is_blank(after) && rest == #[trigger] (before + trimmed(rest)
                + after);
        let longer = after.push(s.last());
        assert(is_blank(longer));
        assert(s =~= rest.push(s.last()));
        assert(s =~= before + t + longer);
        assert(!is_blank(s));
        assert(rest.len() > 0 && !is_white(rest[0]));
        assert(!is_blank(rest));
    } else {
        assert(s =~= none + t + none);
        assert(!is_blank(s));
    }
}

/// Space, tab and the line breaks are white space; letters, digits and the signs of a
/// JSON text are not. Beyond them there are the spaces of other writing systems.
pub proof fn lemma_which_characters_are_white(c: char)
    ensures
        c == ' ' || c == '\t' || c == '\n' || c == '\r' ==> is_white(c),
        '!' <= c <= '~' ==> !is_white(c),
        is_white(c) <==> {
            ||| c == '\t' || c == '\n' || c == '\u{b}' || c == '\u{c}' || c == '\r' || c == ' '
            ||| c == '\u{85}' || c == '\u{a0}' || c == '\u{1680}'
            ||| c == '\u{2000}' || c == '\u{2001}' || c == '\u{2002}' || c == '\u{2003}'
            ||| c == '\u{2004}' || c == '\u{2005}' || c == '\u{2006}' || c == '\u{2007}'
            ||| c == '\u{2008}' || c == '\u{2009}' || c == '\u{200a}'
            ||| c == '\u{2028}' || c == '\u{2029}' || c == '\u{202f}'
            ||| c == '\u{205f}' || c == '\u{3000}'
        },
{
}

/// What occurs in a text occurs in a longer one.
pub proof fn lemma_it_occurs_in_more(s: Seq<char>, pattern: Seq<char>, after: Seq<char>)
    requires
        occurs_in(s, pattern),
    ensures
        occurs_in(s + after, pattern),
{
    let i = choose|i: int| occurs_at(s, pattern, i);
    assert((s + after).subrange(i, i + pattern.len()) =~= s.subrange(i, i + pattern.len()));
    assert(occurs_at(s + after, pattern, i));
}

/// Three parts that follow each other occur together.
pub proof fn lemma_a_stretch_occurs(
    before: Seq<char>,
    a: Seq<char>,
    b: Seq<char>,
    c: Seq<char>,
)
    ensures
        occurs_in(before + a + b + c, a + b + c),
{
    let none = Seq::<char>::empty();
    assert(before + a + b + c =~= before + (a + b + c) + none);
    lemma_a_part_occurs(before, a + b + c, none);
}

/// What a text starts with and what it ends with occur in it.
pub proof fn lemma_the_ends_occur(start: Seq<char>, end: Seq<char>)
    ensures
        occurs_in(start + end, start),
        occurs_in(start + end, end),
{
    let none = Seq::<char>::empty();
    assert(none + start + end =~= start + end);
    assert(start + end + none =~= start + end);
    lemma_a_part_occurs(none, start, end);
    lemma_a_part_occurs(start, end, none);
}

/// A path goes up exactly where `..` stands in it alone between slashes or ends.
pub proof fn lemma_a_path_goes_up_by_two_dots_alone(path: Seq<char>)
    ensures
        has_parent_component(path) <==> exists|before: Seq<char>, after: Seq<char>|
            {
                &&& before.len() == 0 || before.last() == '/'
                &&& after.len() == 0 || after[0] == '/'
                &&& path == #[trigger] (before.push('.').push('.') + after)
            },
{
    if has_parent_component(path) {
        let i = choose|i: int| parent_at(path, i);
        let before = path.take(i);
        let after = path.skip(i + 2);
        assert(path =~= before.push('.').push('.') + after);
    }
    if exists|before: Seq<char>, after: Seq<char>|
        {
            &&& before.len() == 0 || before.last() == '/'
            &&& after.len() == 0 || after[0] == '/'
            &&& path == #[trigger] (before.push('.').push('.') + after)
        } {
        let (before, after) = choose|before: Seq<char>, after: Seq<char>|
            {
                &&& before.len() == 0 || before.last() == '/'
                &&& after.len() == 0 || after[0] == '/'
                &&& path == #[trigger] (before.push('.').push('.') + after)
            };
        let i = before.len() as int;
        assert(path[i] == '.' && path[i + 1] == '.');
        if i > 0 {
            assert(path[i - 1] == before[i - 1]);
        }
        if i + 2 < path.len() {
            assert(path[i + 2] == after[0]);
        }
        assert(parent_at(path, i));
    }
}

proof fn lemma_up_to_slash_of_a_child(dir: Seq<char>, name: Seq<char>)
    requires
        !name.contains('/'),
        dir.len() > 0 ==> dir.last() == '/',
    ensures
        up_to_slash(dir + name) == dir,
    decreases name.len(),
{
    let p = dir + name;
    if name.len() == 0 {
        assert(p =~= dir);
    } else {
        assert(name.contains(name.last()));
        assert(p.last() == name.last());
        assert(p.drop_last() =~= dir + name.drop_last());
        assert(!name.drop_last().contains('/')) by {
            if name.drop_last().contains('/') {
                let k = choose|k: int| 0 <= k < name.len() - 1 && name.drop_last()[k] == '/';
                assert(name[k] == '/');
            }
        }
        lemma_up_to_slash_of_a_child(dir, name.drop_last());
    }
}

/// What a file stands in is found from the file's path: the directory above a name below
/// a directory is that directory, above a lone name it is the empty path, and above the
/// root and the empty path there is nothing.
pub proof fn lemma_the_parent_is_the_directory(dir: Seq<char>, name: Seq<char>)
    requires
        name.len() > 0,
        !name.contains('/'),
        name != seq!['.'],
    ensures
        dir.len() > 0 && !has_idle_end(dir) && dir.last() != '/' ==> parent_of(joined(dir, name))
            == Some(dir),
        parent_of(joined(seq!['/'], name)) == Some(seq!['/']),
        parent_of(name) == Some(Seq::<char>::empty()),
        parent_of(seq!['/']) is None,
        parent_of(Seq::<char>::empty()) is None,
{
    let none = Seq::<char>::empty();
    assert(name.contains(name.last()));
    assert(none + name =~= name);
    if name.len() == 1 && name.last() == '.' {
        assert(name =~= seq!['.']);
    }
    if has_idle_end(name) {
        assert(name.contains(name[name.len() - 2]));
    }
    assert(unslashed(name) == name);
    lemma_up_to_slash_of_a_child(none, name);
    assert(name != seq!['/']) by {
        assert(name.contains(name[0]));
    }
    assert(unslashed(none) == none);
    let root = seq!['/'];
    let p = joined(root, name);
    assert(p == root + name);
    assert(p.last() == name.last());
    if has_idle_end(p) {
        if name.len() > 1 {
            assert(p[p.len() - 2] == name[name.len() - 2]);
            assert(name.contains(name[name.len() - 2]));
        } else {
            assert(name.last() == '.');
        }
    }
    assert(unslashed(p) == p);
    lemma_up_to_slash_of_a_child(root, name);
    assert(unslashed(root) == root);
    assert(p.len() >= 2);
    if dir.len() > 0 && !has_idle_end(dir) && dir.last() != '/' {
        let q = joined(dir, name);
        let slashed = dir.push('/');
        assert(q == slashed + name);
        assert(q.last() == name.last());
        if has_idle_end(q) {
            if name.len() > 1 {
                assert(q[q.len() - 2] == name[name.len() - 2]);
                assert(name.contains(name[name.len() - 2]));
            } else {
                assert(name.last() == '.');
            }
        }
        assert(unslashed(q) == q);
        lemma_up_to_slash_of_a_child(slashed, name);
        assert(slashed.drop_last() =~= dir);
        assert(has_idle_end(slashed));
        assert(unslashed(slashed) == unslashed(dir));
        assert(unslashed(dir) == dir);
        assert(q.len() >= 2);
    }
}

/// The directories above a path start with the path, each one is the parent of the one
/// before it, and the last one has no parent.
pub proof fn lemma_ancestors_climb(path: Seq<char>)
    ensures
        ancestors_of(path).len() > 0,
        ancestors_of(path)[0] == path,
        forall|i: int|
            0 <= i < ancestors_of(path).len() - 1 ==> parent_of(#[trigger] ancestors_of(path)[i])
                == Some(ancestors_of(path)[i + 1]),
        parent_of(ancestors_of(path).last()) is None,
    decreases path.len(),
{
    lemma_parent_is_shorter(path);
    match parent_of(path) {
        Some(p) => {
            lemma_ancestors_climb(p);
            let above = ancestors_of(p);
            let all = ancestors_of(path);
            assert(all == seq![path] + above);
            assert forall|i: int| 0 <= i < all.len() - 1 implies parent_of(#[trigger] all[i])
                == Some(all[i + 1]) by {
                if i > 0 {
                    assert(all[i] == above[i - 1]);
                    assert(all[i + 1] == above[i]);
                } else {
                    assert(all[1] == above[0]);
                }
            }
            assert(all.last() == above.last());
        },
        None => {},
    }
}

/// A sign belongs to its number: the text of a number in range stands for that number,
/// with a minus sign before it for its negative and with a plus sign for itself.
pub proof fn lemma_signed_numbers_read_back(n: nat)
    ensures
        n <= i32::MAX ==> signed_number(decimal(n)) == Some(n as int),
        n <= i32::MAX ==> signed_number(seq!['-'] + decimal(n)) == Some(-(n as int)),
        n <= i32::MAX ==> signed_number(seq!['+'] + decimal(n)) == Some(n as int),
        n > i32::MAX ==> signed_number(decimal(n)) is None,
        signed_number(Seq::empty()) is None,
        signed_number(seq!['-']) is None,
{
    lemma_decimal_reads_back(n);
    let d = decimal(n);
    assert(is_digit(d[0]));
    assert((seq!['-'] + d).drop_first() =~= d);
    assert((seq!['+'] + d).drop_first() =~= d);
    assert(unsigned_part(d) == d);
    assert(seq!['-'].drop_first() =~= Seq::<char>::empty());
}

/// The texts of some strings are theirs, one for one and in their order, and an optional
/// string has a text exactly where it is there.
pub proof fn lemma_strings_are_seen_as_their_texts(v: Seq<String>, i: int, s: Option<String>)
    ensures
        texts(v).len() == v.len(),
        0 <= i < v.len() ==> texts(v)[i] == v[i]@,
        optional(s) is Some <==> s is Some,
        s matches Some(t) ==> optional(s) == Some(t@),
{
}

} // verus!
