use vstd::prelude::*;
use vstd::std_specs::iter::IteratorSpec;

verus! {

broadcast use vstd::string::group_string_axioms;

// ===== Characters =====

/// White space in the sense of Unicode's White_Space property: the characters
/// that `str::trim` and `str::split_whitespace` treat as separators.
pub open spec fn is_space(c: char) -> bool {
    let u = c as u32;
    ||| 0x9 <= u <= 0xd
    ||| u == 0x20
    ||| u == 0x85
    ||| u == 0xa0
    ||| u == 0x1680
    ||| 0x2000 <= u <= 0x200a
    ||| u == 0x2028
    ||| u == 0x2029
    ||| u == 0x202f
    ||| u == 0x205f
    ||| u == 0x3000
}

pub fn space(c: char) -> (r: bool)
    ensures
        r == is_space(c),
{
    let u = c as u32;
    (0x9 <= u && u <= 0xd) || u == 0x20 || u == 0x85 || u == 0xa0 || u == 0x1680 || (0x2000
        <= u && u <= 0x200a) || u == 0x2028 || u == 0x2029 || u == 0x202f || u == 0x205f || u
        == 0x3000
}

/// The characters of `s`, in order.
pub fn chars_of(s: &str) -> (r: Vec<char>)
    ensures
        r@ == s@,
{
    let mut out: Vec<char> = Vec::new();
    let mut it = s.chars();
    loop
        invariant
            out@ + it.remaining() == s@,
            it.decrease() is Some,
        ensures
            out@ == s@,
        decreases it.decrease()->0,
    {
        match it.next() {
            Some(c) => {
                out.push(c);
            },
            None => {
                break ;
            },
        }
    }
    out
}

/// Relies on `String::push`: the character is appended at the end.
#[verifier::external_body]
fn push_char(s: &mut String, c: char)
    ensures
        final(s)@ == old(s)@.push(c),
{
    s.push(c);
}

/// The string made of the characters of `v`, in order.
pub fn string_of(v: &Vec<char>) -> (r: String)
    ensures
        r@ == v@,
{
    let mut out = String::new();
    let mut i: usize = 0;
    while i < v.len()
        invariant
            i <= v.len(),
            out@ == v@.subrange(0, i as int),
        decreases v.len() - i,
    {
        push_char(&mut out, v[i]);
        assert(v@.subrange(0, i + 1) =~= v@.subrange(0, i as int).push(v@[i as int]));
        i += 1;
    }
    assert(v@.subrange(0, v.len() as int) =~= v@);
    out
}

/// The string `a` followed by `b`.
pub fn join2(a: &str, b: &str) -> (r: String)
    ensures
        r@ == a@ + b@,
{
    let mut out = a.to_owned();
    out.append(b);
    out
}

/// The name of what `str::to_lowercase` returns: the Unicode lower-case
/// mapping of each character, which may change the length.
pub uninterp spec fn lower_of(s: Seq<char>) -> Seq<char>;

/// Relies on `str::to_lowercase`: the result depends on the characters alone.
#[verifier::external_body]
pub(crate) fn lowercase(s: &str) -> (r: String)
    ensures
        r@ == lower_of(s@),
{
    s.to_lowercase()
}

// ===== Slices =====

/// A copy of `v[from..to]`.
pub fn slice_of(v: &Vec<char>, from: usize, to: usize) -> (r: Vec<char>)
    requires
        from <= to <= v.len(),
    ensures
        r@ == v@.subrange(from as int, to as int),
{
    let mut out: Vec<char> = Vec::new();
    let mut k: usize = from;
    while k < to
        invariant
            from <= k <= to,
            to <= v.len(),
            out@ == v@.subrange(from as int, k as int),
        decreases to - k,
    {
        out.push(v[k]);
        assert(v@.subrange(from as int, k + 1) =~= v@.subrange(from as int, k as int).push(
            v@[k as int],
        ));
        k += 1;
    }
    out
}

// ===== Trimming =====

pub open spec fn trim_start(s: Seq<char>) -> Seq<char>
    decreases s.len(),
{
    if s.len() > 0 && is_space(s[0]) {
        trim_start(s.drop_first())
    } else {
        s
    }
}

pub open spec fn trim_end(s: Seq<char>) -> Seq<char>
    decreases s.len(),
{
    if s.len() > 0 && is_space(s.last()) {
        trim_end(s.drop_last())
    } else {
        s
    }
}

/// `s` without its leading and trailing white space, as `str::trim` gives it.
pub open spec fn trim(s: Seq<char>) -> Seq<char> {
    trim_end(trim_start(s))
}

#[verifier::rlimit(30)]
pub fn trimmed(v: &Vec<char>) -> (r: Vec<char>)
    ensures
        r@ == trim(v@),
{
    let n = v.len();
    let mut i: usize = 0;
    assert(v@.subrange(0, n as int) =~= v@);
    while i < n && space(v[i])
        invariant
            i <= n == v.len(),
            trim_start(v@) == trim_start(v@.subrange(i as int, n as int)),
        decreases n - i,
    {
        assert(v@.subrange(i as int, n as int).drop_first() =~= v@.subrange(i + 1, n as int));
        i += 1;
    }
    assert(trim_start(v@) == v@.subrange(i as int, n as int));
    let mut j: usize = n;
    while j > i && space(v[j - 1])
        invariant
            i <= j <= n == v.len(),
            trim(v@) == trim_end(v@.subrange(i as int, j as int)),
        decreases j,
    {
        assert(v@.subrange(i as int, j as int).drop_last() =~= v@.subrange(i as int, j - 1));
        j -= 1;
    }
    slice_of(v, i, j)
}

pub fn trim_str(s: &str) -> (r: Vec<char>)
    ensures
        r@ == trim(s@),
{
    let v = chars_of(s);
    trimmed(&v)
}

// ===== Searching =====

/// `p` occurs in `s` starting at index `i`.
pub open spec fn occurs_at(s: Seq<char>, p: Seq<char>, i: int) -> bool {
    0 <= i && i + p.len() <= s.len() && s.subrange(i, i + p.len()) == p
}

/// `p` is a substring of `s`, as `str::contains` decides it.
pub open spec fn contains(s: Seq<char>, p: Seq<char>) -> bool {
    exists|i: int| occurs_at(s, p, i)
}

/// `s` begins with `p`, as `str::starts_with` decides it.
pub open spec fn starts_with(s: Seq<char>, p: Seq<char>) -> bool {
    occurs_at(s, p, 0)
}

pub fn matches_at(s: &Vec<char>, p: &Vec<char>, i: usize) -> (r: bool)
    ensures
        r == occurs_at(s@, p@, i as int),
{
    if i > s.len() || p.len() > s.len() - i {
        return false;
    }
    let mut k: usize = 0;
    while k < p.len()
        invariant
            k <= p.len(),
            i + p.len() <= s.len(),
            forall|j: int| 0 <= j < k ==> s@[i + j] == p@[j],
        decreases p.len() - k,
    {
        if s[i + k] != p[k] {
            assert(s@.subrange(i as int, i + p.len())[k as int] != p@[k as int]);
            return false;
        }
        k += 1;
    }
    assert(s@.subrange(i as int, i + p.len()) =~= p@);
    true
}

pub fn starts(s: &Vec<char>, p: &Vec<char>) -> (r: bool)
    ensures
        r == starts_with(s@, p@),
{
    matches_at(s, p, 0)
}

/// The first index at which `p` occurs in `s`, from index `from` on.
pub fn find_from(s: &Vec<char>, p: &Vec<char>, from: usize) -> (r: Option<usize>)
    ensures
        match r {
            Some(i) => from <= i && occurs_at(s@, p@, i as int) && forall|j: int|
                from <= j < i ==> !occurs_at(s@, p@, j),
            None => forall|j: int| from <= j ==> !occurs_at(s@, p@, j),
        },
{
    if p.len() > s.len() || from > s.len() - p.len() {
        return None;
    }
    let last = s.len() - p.len();
    let mut i: usize = from;
    loop
        invariant
            from <= i <= last,
            last == s.len() - p.len(),
            forall|j: int| from <= j < i ==> !occurs_at(s@, p@, j),
        decreases last - i,
    {
        if matches_at(s, p, i) {
            return Some(i);
        }
        if i == last {
            return None;
        }
        i += 1;
    }
}

pub fn find(s: &Vec<char>, p: &Vec<char>) -> (r: Option<usize>)
    ensures
        match r {
            Some(i) => occurs_at(s@, p@, i as int) && forall|j: int|
                0 <= j < i ==> !occurs_at(s@, p@, j),
            None => !contains(s@, p@),
        },
{
    find_from(s, p, 0)
}

pub fn has(s: &Vec<char>, p: &Vec<char>) -> (r: bool)
    ensures
        r == contains(s@, p@),
{
    match find(s, p) {
        Some(_) => true,
        None => false,
    }
}

/// Whether the text `s` contains the literal `p`.
pub fn has_str(s: &Vec<char>, p: &str) -> (r: bool)
    ensures
        r == contains(s@, p@),
{
    let pv = chars_of(p);
    has(s, &pv)
}

/// Whether the text `s` begins with the literal `p`.
pub fn starts_str(s: &Vec<char>, p: &str) -> (r: bool)
    ensures
        r == starts_with(s@, p@),
{
    let pv = chars_of(p);
    starts(s, &pv)
}

// ===== Splitting =====

/// The texts held by a vector of character vectors.
pub open spec fn views(v: Seq<Vec<char>>) -> Seq<Seq<char>> {
    Seq::new(v.len(), |i: int| v[i]@)
}

/// The pieces of `s` between occurrences of `sep`, as `str::split` with a
/// character gives them: always at least one piece, possibly empty.
pub open spec fn split_on(s: Seq<char>, sep: char) -> Seq<Seq<char>>
    decreases s.len(),
{
    if s.len() == 0 {
        seq![Seq::<char>::empty()]
    } else {
        let prev = split_on(s.drop_last(), sep);
        if s.last() == sep {
            prev.push(Seq::<char>::empty())
        } else {
            prev.update(prev.len() - 1, prev.last().push(s.last()))
        }
    }
}

pub proof fn lemma_split_on_nonempty(s: Seq<char>, sep: char)
    ensures
        split_on(s, sep).len() >= 1,
    decreases s.len(),
{
    if s.len() > 0 {
        lemma_split_on_nonempty(s.drop_last(), sep);
    }
}

pub fn split_char(v: &Vec<char>, sep: char) -> (r: Vec<Vec<char>>)
    ensures
        views(r@) == split_on(v@, sep),
{
    let mut pieces: Vec<Vec<char>> = Vec::new();
    let mut cur: Vec<char> = Vec::new();
    let mut i: usize = 0;
    assert(v@.subrange(0, 0) =~= Seq::<char>::empty());
    assert(views(pieces@).push(cur@) =~= seq![Seq::<char>::empty()]);
    while i < v.len()
        invariant
            i <= v.len(),
            views(pieces@).push(cur@) == split_on(v@.subrange(0, i as int), sep),
        decreases v.len() - i,
    {
        let ghost before = v@.subrange(0, i as int);
        let ghost after = v@.subrange(0, i + 1);
        assert(after.drop_last() =~= before);
        proof {
            lemma_split_on_nonempty(before, sep);
        }
        let c = v[i];
        if c == sep {
            let done = cur;
            pieces.push(done);
            cur = Vec::new();
            assert(views(pieces@).push(cur@) =~= split_on(before, sep).push(
                Seq::<char>::empty(),
            ));
        } else {
            cur.push(c);
            let ghost prev = split_on(before, sep);
            assert(views(pieces@).push(cur@) =~= prev.update(
                prev.len() - 1,
                prev.last().push(c),
            ));
        }
        i += 1;
    }
    assert(v@.subrange(0, v.len() as int) =~= v@);
    pieces.push(cur);
    assert(views(pieces@) =~= split_on(v@, sep));
    pieces
}

/// The maximal runs of non-space characters of `s`, scanned from the left:
/// the runs completed so far, and the run still open.
pub open spec fn words_scan(s: Seq<char>) -> (Seq<Seq<char>>, Seq<char>)
    decreases s.len(),
{
    if s.len() == 0 {
        (Seq::empty(), Seq::empty())
    } else {
        let (done, cur) = words_scan(s.drop_last());
        if is_space(s.last()) {
            if cur.len() > 0 {
                (done.push(cur), Seq::empty())
            } else {
                (done, Seq::empty())
            }
        } else {
            (done, cur.push(s.last()))
        }
    }
}

/// The words of `s`, as `str::split_whitespace` gives them.
pub open spec fn words(s: Seq<char>) -> Seq<Seq<char>> {
    let (done, cur) = words_scan(s);
    if cur.len() > 0 {
        done.push(cur)
    } else {
        done
    }
}

pub fn split_words(v: &Vec<char>) -> (r: Vec<Vec<char>>)
    ensures
        views(r@) == words(v@),
{
    let mut done: Vec<Vec<char>> = Vec::new();
    let mut cur: Vec<char> = Vec::new();
    let mut i: usize = 0;
    assert(v@.subrange(0, 0) =~= Seq::<char>::empty());
    assert(views(done@) =~= Seq::<Seq<char>>::empty());
    while i < v.len()
        invariant
            i <= v.len(),
            (views(done@), cur@) == words_scan(v@.subrange(0, i as int)),
        decreases v.len() - i,
    {
        let ghost before = v@.subrange(0, i as int);
        let ghost after = v@.subrange(0, i + 1);
        assert(after.drop_last() =~= before);
        let c = v[i];
        if space(c) {
            if cur.len() > 0 {
                let w = cur;
                done.push(w);
                cur = Vec::new();
                assert(views(done@) =~= words_scan(before).0.push(words_scan(before).1));
            }
            assert(cur@ =~= Seq::<char>::empty());
        } else {
            cur.push(c);
        }
        i += 1;
    }
    assert(v@.subrange(0, v.len() as int) =~= v@);
    if cur.len() > 0 {
        let w = cur;
        done.push(w);
        assert(views(done@) =~= words_scan(v@).0.push(words_scan(v@).1));
    }
    done
}

// ===== Decimal numbers =====

pub open spec fn is_digit(c: char) -> bool {
    '0' <= c <= '9'
}

pub open spec fn all_digits(s: Seq<char>) -> bool {
    forall|i: int| 0 <= i < s.len() ==> is_digit(s[i])
}

/// The value of a string of decimal digits.
pub open spec fn digits_value(s: Seq<char>) -> nat
    decreases s.len(),
{
    if s.len() == 0 {
        0
    } else {
        digits_value(s.drop_last()) * 10 + ((s.last() as u32) - ('0' as u32)) as nat
    }
}

/// The digits of an unsigned number, after an optional leading `+`.
pub open spec fn unsigned_body(s: Seq<char>) -> Seq<char> {
    if s.len() > 0 && s[0] == '+' {
        s.drop_first()
    } else {
        s
    }
}

/// The value of `s` read as an unsigned decimal number the way Rust's
/// `FromStr` for the unsigned integers reads it, before any bound is applied.
pub open spec fn unsigned_value(s: Seq<char>) -> Option<nat> {
    let d = unsigned_body(s);
    if d.len() > 0 && all_digits(d) {
        Some(digits_value(d))
    } else {
        None
    }
}

/// `s` read as a `u64`, as `str::parse::<u64>` reads it.
pub open spec fn u64_value(s: Seq<char>) -> Option<u64> {
    match unsigned_value(s) {
        Some(n) => if n <= u64::MAX {
            Some(n as u64)
        } else {
            None
        },
        None => None,
    }
}

/// `s` read as a `u32`, as `str::parse::<u32>` reads it.
pub open spec fn u32_value(s: Seq<char>) -> Option<u32> {
    match unsigned_value(s) {
        Some(n) => if n <= u32::MAX {
            Some(n as u32)
        } else {
            None
        },
        None => None,
    }
}

/// `s` read as an `i32`, as `str::parse::<i32>` reads it: an optional sign,
/// then decimal digits.
pub open spec fn i32_value(s: Seq<char>) -> Option<i32> {
    if s.len() > 0 && s[0] == '-' {
        let d = s.drop_first();
        if d.len() > 0 && all_digits(d) && digits_value(d) <= 0x8000_0000 {
            Some((0 - digits_value(d)) as i32)
        } else {
            None
        }
    } else {
        match unsigned_value(s) {
            Some(n) => if n <= i32::MAX {
                Some(n as i32)
            } else {
                None
            },
            None => None,
        }
    }
}

proof fn lemma_digits_value_grows(s: Seq<char>, i: int)
    requires
        0 <= i <= s.len(),
    ensures
        digits_value(s.subrange(0, i)) <= digits_value(s),
    decreases s.len() - i,
{
    if i < s.len() {
        lemma_digits_value_grows(s, i + 1);
        assert(s.subrange(0, i + 1).drop_last() =~= s.subrange(0, i));
    } else {
        assert(s.subrange(0, i) =~= s);
    }
}

/// The value of the digits `v[from..]`, when all are digits and it fits in a `u64`.
fn digits_u64(v: &Vec<char>, from: usize) -> (r: Option<u64>)
    requires
        from <= v.len(),
    ensures
        ({
            let d = v@.subrange(from as int, v.len() as int);
            r == (if all_digits(d) && digits_value(d) <= u64::MAX {
                Some(digits_value(d) as u64)
            } else {
                None
            })
        }),
{
    let ghost d = v@.subrange(from as int, v.len() as int);
    let mut acc: u64 = 0;
    let mut k: usize = from;
    while k < v.len()
        invariant
            from <= k <= v.len(),
            d == v@.subrange(from as int, v.len() as int),
            all_digits(v@.subrange(from as int, k as int)),
            acc as nat == digits_value(v@.subrange(from as int, k as int)),
        decreases v.len() - k,
    {
        let c = v[k];
        let ghost pre = v@.subrange(from as int, k as int);
        let ghost next = v@.subrange(from as int, k + 1);
        assert(next.drop_last() =~= pre);
        assert(d[k - from] == c);
        if !('0' <= c && c <= '9') {
            assert(!all_digits(d));
            return None;
        }
        let digit = (c as u32 - '0' as u32) as u64;
        match acc.checked_mul(10) {
            Some(m) => match m.checked_add(digit) {
                Some(a) => {
                    acc = a;
                },
                None => {
                    proof {
                        assert(d.subrange(0, k + 1 - from) =~= next);
                        lemma_digits_value_grows(d, k + 1 - from);
                    }
                    if all_digits_from(v, k + 1) {
                        proof {
                            assert forall|i: int| 0 <= i < d.len() implies is_digit(d[i]) by {
                                if i < k - from {
                                    assert(pre[i] == d[i]);
                                } else if i > k - from {
                                    assert(v@.subrange(k + 1, v.len() as int)[i - (k + 1 - from)]
                                        == d[i]);
                                }
                            }
                        }
                    }
                    return None;
                },
            },
            None => {
                proof {
                    assert(d.subrange(0, k + 1 - from) =~= next);
                    lemma_digits_value_grows(d, k + 1 - from);
                }
                return None;
            },
        }
        proof {
            assert forall|i: int| 0 <= i < next.len() implies is_digit(next[i]) by {
                if i < pre.len() {
                    assert(next[i] == pre[i]);
                }
            }
        }
        k += 1;
    }
    assert(v@.subrange(from as int, v.len() as int) =~= d);
    Some(acc)
}

fn all_digits_from(v: &Vec<char>, from: usize) -> (r: bool)
    requires
        from <= v.len(),
    ensures
        r == all_digits(v@.subrange(from as int, v.len() as int)),
{
    let mut k: usize = from;
    while k < v.len()
        invariant
            from <= k <= v.len(),
            forall|i: int| from <= i < k ==> is_digit(v@[i]),
        decreases v.len() - k,
    {
        if !('0' <= v[k] && v[k] <= '9') {
            assert(v@.subrange(from as int, v.len() as int)[k - from] == v@[k as int]);
            return false;
        }
        k += 1;
    }
    proof {
        assert forall|i: int|
            0 <= i < v@.subrange(from as int, v.len() as int).len() implies is_digit(
            v@.subrange(from as int, v.len() as int)[i],
        ) by {
            assert(v@.subrange(from as int, v.len() as int)[i] == v@[from + i]);
        }
    }
    true
}

/// `s` read as a `u64`, as `str::parse::<u64>` reads it.
pub fn parse_u64(v: &Vec<char>) -> (r: Option<u64>)
    ensures
        r == u64_value(v@),
{
    let from: usize = if v.len() > 0 && v[0] == '+' {
        1
    } else {
        0
    };
    assert(unsigned_body(v@) =~= v@.subrange(from as int, v.len() as int));
    if from == v.len() {
        return None;
    }
    digits_u64(v, from)
}

/// `s` read as a `u32`, as `str::parse::<u32>` reads it.
pub fn parse_u32(v: &Vec<char>) -> (r: Option<u32>)
    ensures
        r == u32_value(v@),
{
    match parse_u64(v) {
        Some(n) => if n <= u32::MAX as u64 {
            Some(n as u32)
        } else {
            None
        },
        None => {
            assert(unsigned_value(v@) is Some ==> unsigned_value(v@)->0 > u64::MAX);
            None
        },
    }
}

/// `s` read as an `i32`, as `str::parse::<i32>` reads it.
pub fn parse_i32(v: &Vec<char>) -> (r: Option<i32>)
    ensures
        r == i32_value(v@),
{
    if v.len() > 0 && v[0] == '-' {
        assert(v@.drop_first() =~= v@.subrange(1, v.len() as int));
        if v.len() == 1 {
            return None;
        }
        match digits_u64(v, 1) {
            Some(n) => if n <= 0x8000_0000 {
                Some((0 - (n as i64)) as i32)
            } else {
                None
            },
            None => None,
        }
    } else {
        match parse_u64(v) {
            Some(n) => if n <= i32::MAX as u64 {
                Some(n as i32)
            } else {
                None
            },
            None => None,
        }
    }
}

// ===== Equality, single characters, numbers as text =====

pub fn same_text(a: &Vec<char>, b: &Vec<char>) -> (r: bool)
    ensures
        r == (a@ == b@),
{
    if a.len() != b.len() {
        return false;
    }
    let r = matches_at(a, b, 0);
    assert(a@.subrange(0, a@.len() as int) =~= a@);
    r
}

pub fn same_str(a: &Vec<char>, b: &str) -> (r: bool)
    ensures
        r == (a@ == b@),
{
    let bv = chars_of(b);
    same_text(a, &bv)
}

/// The index of the first `c` in `s`, if there is one.
pub open spec fn index_of(s: Seq<char>, c: char) -> Option<int>
    decreases s.len(),
{
    if s.len() == 0 {
        None
    } else if s[0] == c {
        Some(0)
    } else {
        match index_of(s.drop_first(), c) {
            Some(i) => Some(i + 1),
            None => None,
        }
    }
}

pub proof fn lemma_index_of_bounds(s: Seq<char>, c: char)
    ensures
        match index_of(s, c) {
            Some(i) => 0 <= i < s.len() && s[i] == c,
            None => true,
        },
    decreases s.len(),
{
    if s.len() > 0 && s[0] != c {
        lemma_index_of_bounds(s.drop_first(), c);
    }
}

pub fn find_char(v: &Vec<char>, c: char) -> (r: Option<usize>)
    ensures
        match r {
            Some(i) => index_of(v@, c) == Some(i as int),
            None => index_of(v@, c) is None,
        },
{
    let n = v.len();
    let mut i: usize = 0;
    assert(v@.subrange(0, n as int) =~= v@);
    while i < n
        invariant
            i <= n == v.len(),
            forall|j: int| 0 <= j < i ==> v@[j] != c,
            index_of(v@, c) == (match index_of(v@.subrange(i as int, n as int), c) {
                Some(k) => Some(k + i),
                None => None,
            }),
        decreases n - i,
    {
        let ghost rest = v@.subrange(i as int, n as int);
        if v[i] == c {
            assert(rest[0] == c);
            return Some(i);
        }
        assert(rest.drop_first() =~= v@.subrange(i + 1, n as int));
        i += 1;
    }
    None
}

/// The decimal digits of `n`, as `u64`'s `Display` writes them.
pub open spec fn decimal_text(n: nat) -> Seq<char>
    decreases n,
{
    if n < 10 {
        seq![digit_char(n)]
    } else {
        decimal_text(n / 10).push(digit_char(n % 10))
    }
}

pub open spec fn digit_char(d: nat) -> char {
    if d == 0 {
        '0'
    } else if d == 1 {
        '1'
    } else if d == 2 {
        '2'
    } else if d == 3 {
        '3'
    } else if d == 4 {
        '4'
    } else if d == 5 {
        '5'
    } else if d == 6 {
        '6'
    } else if d == 7 {
        '7'
    } else if d == 8 {
        '8'
    } else {
        '9'
    }
}

fn digit(d: u64) -> (r: char)
    requires
        d < 10,
    ensures
        r == digit_char(d as nat),
{
    if d == 0 {
        '0'
    } else if d == 1 {
        '1'
    } else if d == 2 {
        '2'
    } else if d == 3 {
        '3'
    } else if d == 4 {
        '4'
    } else if d == 5 {
        '5'
    } else if d == 6 {
        '6'
    } else if d == 7 {
        '7'
    } else if d == 8 {
        '8'
    } else {
        '9'
    }
}

pub fn decimal(n: u64) -> (r: Vec<char>)
    ensures
        r@ == decimal_text(n as nat),
    decreases n,
{
    if n < 10 {
        let mut v: Vec<char> = Vec::new();
        v.push(digit(n));
        assert(v@ =~= seq![digit_char(n as nat)]);
        v
    } else {
        let mut v = decimal(n / 10);
        v.push(digit(n % 10));
        v
    }
}

/// The first index, from `i` on, at which `p` occurs in `s`, as `str::find` reports it.
pub open spec fn first_from(s: Seq<char>, p: Seq<char>, i: int) -> Option<int>
    decreases s.len() + 1 - i,
{
    if i < 0 || i + p.len() > s.len() {
        None
    } else if occurs_at(s, p, i) {
        Some(i)
    } else {
        first_from(s, p, i + 1)
    }
}

proof fn lemma_first_from_found(s: Seq<char>, p: Seq<char>, j: int, i: int)
    requires
        0 <= j <= i,
        occurs_at(s, p, i),
        forall|k: int| j <= k < i ==> !occurs_at(s, p, k),
    ensures
        first_from(s, p, j) == Some(i),
    decreases i - j,
{
    if j < i {
        lemma_first_from_found(s, p, j + 1, i);
    }
}

proof fn lemma_first_from_none(s: Seq<char>, p: Seq<char>, j: int)
    requires
        0 <= j,
        forall|k: int| j <= k ==> !occurs_at(s, p, k),
    ensures
        first_from(s, p, j) is None,
    decreases s.len() + 1 - j,
{
    if j + p.len() <= s.len() {
        lemma_first_from_none(s, p, j + 1);
    }
}

/// The first index at which `p` occurs in `s`, as `first_from` from the start.
pub fn find_first(s: &Vec<char>, p: &Vec<char>) -> (r: Option<usize>)
    ensures
        match r {
            Some(i) => first_from(s@, p@, 0) == Some(i as int) && occurs_at(s@, p@, i as int),
            None => first_from(s@, p@, 0) is None,
        },
{
    let r = find_from(s, p, 0);
    proof {
        match r {
            Some(i) => lemma_first_from_found(s@, p@, 0, i as int),
            None => lemma_first_from_none(s@, p@, 0),
        }
    }
    r
}

/// The number of spaces that `trim_start` removes.
pub open spec fn lead_spaces(s: Seq<char>) -> nat
    decreases s.len(),
{
    if s.len() > 0 && is_space(s[0]) {
        1 + lead_spaces(s.drop_first())
    } else {
        0
    }
}

/// The number of spaces that `trim_end` removes.
pub open spec fn trail_spaces(s: Seq<char>) -> nat
    decreases s.len(),
{
    if s.len() > 0 && is_space(s.last()) {
        1 + trail_spaces(s.drop_last())
    } else {
        0
    }
}

proof fn lemma_trim_start_shape(s: Seq<char>)
    ensures
        lead_spaces(s) <= s.len(),
        trim_start(s) == s.subrange(lead_spaces(s) as int, s.len() as int),
        forall|j: int| 0 <= j < lead_spaces(s) ==> is_space(s[j]),
        lead_spaces(s) < s.len() ==> !is_space(s[lead_spaces(s) as int]),
    decreases s.len(),
{
    if s.len() > 0 && is_space(s[0]) {
        let t = s.drop_first();
        lemma_trim_start_shape(t);
        assert(t.subrange(lead_spaces(t) as int, t.len() as int) =~= s.subrange(
            lead_spaces(s) as int,
            s.len() as int,
        ));
        assert forall|j: int| 0 <= j < lead_spaces(s) implies is_space(s[j]) by {
            if j > 0 {
                assert(s[j] == t[j - 1]);
            }
        }
        if lead_spaces(s) < s.len() {
            assert(s[lead_spaces(s) as int] == t[lead_spaces(t) as int]);
        }
    } else {
        assert(s.subrange(0, s.len() as int) =~= s);
    }
}

proof fn lemma_trim_end_shape(s: Seq<char>)
    ensures
        trail_spaces(s) <= s.len(),
        trim_end(s) == s.subrange(0, s.len() - trail_spaces(s)),
        forall|j: int| s.len() - trail_spaces(s) <= j < s.len() ==> is_space(s[j]),
        trail_spaces(s) < s.len() ==> !is_space(s[s.len() - trail_spaces(s) - 1]),
    decreases s.len(),
{
    if s.len() > 0 && is_space(s.last()) {
        let t = s.drop_last();
        lemma_trim_end_shape(t);
        assert(t.subrange(0, t.len() - trail_spaces(t)) =~= s.subrange(
            0,
            s.len() - trail_spaces(s),
        ));
        assert forall|j: int| s.len() - trail_spaces(s) <= j < s.len() implies is_space(s[j]) by {
            if j < s.len() - 1 {
                assert(s[j] == t[j]);
            }
        }
    } else {
        assert(s.subrange(0, s.len() as int) =~= s);
    }
}

/// A pattern that begins and ends with a non-space character occurs in the
/// trimmed text whenever it occurs in the text.
pub proof fn lemma_contains_trim(s: Seq<char>, p: Seq<char>)
    requires
        p.len() > 0,
        !is_space(p[0]),
        !is_space(p.last()),
        contains(s, p),
    ensures
        contains(trim(s), p),
{
    let i = choose|i: int| occurs_at(s, p, i);
    lemma_trim_start_shape(s);
    let a = lead_spaces(s) as int;
    let t = trim_start(s);
    assert(s.subrange(i, i + p.len())[0] == s[i]);
    assert(i >= a);
    lemma_trim_end_shape(t);
    let b = t.len() - trail_spaces(t);
    let last = i + p.len() - 1 - a;
    assert(t[last] == s[i + p.len() - 1]);
    assert(s.subrange(i, i + p.len())[p.len() - 1] == s[i + p.len() - 1]);
    assert(last < b);
    let u = trim(s);
    assert(u == t.subrange(0, b));
    assert(u.subrange(i - a, i - a + p.len()) =~= s.subrange(i, i + p.len()));
    assert(occurs_at(u, p, i - a));
}

/// `s` with every occurrence of `p` removed, scanning from the left, as
/// `str::replace(p, "")` gives it.
pub open spec fn remove_all(s: Seq<char>, p: Seq<char>) -> Seq<char>
    decreases s.len(),
{
    if p.len() == 0 || s.len() < p.len() {
        s
    } else if s.subrange(0, p.len() as int) == p {
        remove_all(s.subrange(p.len() as int, s.len() as int), p)
    } else {
        seq![s[0]] + remove_all(s.drop_first(), p)
    }
}

pub fn remove_str(v: &Vec<char>, p: &str) -> (r: Vec<char>)
    ensures
        r@ == remove_all(v@, p@),
{
    let pv = chars_of(p);
    if pv.len() == 0 {
        return slice_of(v, 0, v.len());
    }
    let n = v.len();
    let mut out: Vec<char> = Vec::new();
    let mut i: usize = 0;
    assert(v@.subrange(0, n as int) =~= v@);
    while i < n
        invariant
            i <= n == v.len(),
            pv@ == p@,
            pv@.len() > 0,
            out@ + remove_all(v@.subrange(i as int, n as int), p@) == remove_all(v@, p@),
        decreases n - i,
    {
        let ghost rest = v@.subrange(i as int, n as int);
        if matches_at(v, &pv, i) {
            assert(rest.subrange(0, pv@.len() as int) =~= v@.subrange(i as int, i + pv@.len()));
            assert(rest.subrange(pv@.len() as int, rest.len() as int) =~= v@.subrange(
                i + pv@.len(),
                n as int,
            ));
            i = i + pv.len();
        } else {
            assert(rest.len() >= pv@.len() ==> rest.subrange(0, pv@.len() as int) =~= v@.subrange(
                i as int,
                i + pv@.len(),
            ));
            assert(rest.drop_first() =~= v@.subrange(i + 1, n as int));
            let ghost before = out@;
            out.push(v[i]);
            assert(out@ + remove_all(v@.subrange(i + 1, n as int), p@) =~= before + (seq![rest[0]]
                + remove_all(rest.drop_first(), p@)));
            i += 1;
        }
    }
    assert(v@.subrange(n as int, n as int) =~= Seq::<char>::empty());
    assert(out@ + Seq::<char>::empty() =~= out@);
    out
}

/// Text with the separator at index `k` splits into at least two pieces.
pub proof fn lemma_split_count(s: Seq<char>, sep: char, k: int)
    requires
        occurs_at(s, seq![sep], k),
    ensures
        split_on(s, sep).len() >= 2,
    decreases s.len(),
{
    assert(s.subrange(k, k + 1)[0] == s[k]);
    if k == s.len() - 1 {
        lemma_split_on_nonempty(s.drop_last(), sep);
    } else {
        assert(s.drop_last().subrange(k, k + 1) =~= s.subrange(k, k + 1));
        lemma_split_count(s.drop_last(), sep, k);
    }
}

} // verus!
