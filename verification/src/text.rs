//! Text helpers over the characters of a string: whitespace trimming, substring
//! search, comparison, path-prefix stripping and decimal rendering.
//!
//! Every function is specified over `Seq<char>`, the view of `str` and `String`.

use vstd::prelude::*;

verus! {

/// The characters of an optional string.
pub open spec fn opt_text(s: Option<String>) -> Option<Seq<char>> {
    match s {
        Some(t) => Some(t@),
        None => None,
    }
}

/// Whether `c` has the Unicode property `White_Space`.
pub open spec fn is_space(c: char) -> bool {
    let u = c as u32;
    ||| 0x09 <= u <= 0x0d
    ||| u == 0x20
    ||| u == 0x85
    ||| u == 0xa0
    ||| u == 0x1680
    ||| 0x2000 <= u <= 0x200a
    ||| u == 0x2028
    ||| u == 0x2029
    ||| u == 0x202f
    ||| u == 0x205f
    ||| u == 0x3000
}

/// `s` without its leading whitespace.
pub open spec fn trim_front(s: Seq<char>) -> Seq<char>
    decreases s.len(),
{
    if s.len() > 0 && is_space(s[0]) {
        trim_front(s.drop_first())
    } else {
        s
    }
}

/// `s` without its trailing whitespace.
pub open spec fn trim_back(s: Seq<char>) -> Seq<char>
    decreases s.len(),
{
    if s.len() > 0 && is_space(s.last()) {
        trim_back(s.drop_last())
    } else {
        s
    }
}

/// `s` without the whitespace that surrounds it.
pub open spec fn trimmed(s: Seq<char>) -> Seq<char> {
    trim_back(trim_front(s))
}

/// Whether `needle` occurs in `hay` at offset `at`.
pub open spec fn occurs_at(hay: Seq<char>, needle: Seq<char>, at: int) -> bool {
    &&& 0 <= at
    &&& at + needle.len() <= hay.len()
    &&& hay.subrange(at, at + needle.len()) == needle
}

/// Whether `needle` occurs somewhere in `hay` as a contiguous run of characters.
pub open spec fn contains_text(hay: Seq<char>, needle: Seq<char>) -> bool {
    exists|at: int| occurs_at(hay, needle, at)
}

/// The offset just behind the last `'/'` of `s`, or 0 where `s` holds none.
pub open spec fn after_last_slash(s: Seq<char>) -> int
    decreases s.len(),
{
    if s.len() == 0 {
        0
    } else if s.last() == '/' {
        s.len() as int
    } else {
        after_last_slash(s.drop_last())
    }
}

/// `s` without any leading path: what follows its last `'/'`.
pub open spec fn short_name(s: Seq<char>) -> Seq<char> {
    s.skip(after_last_slash(s))
}

/// The decimal digit for `d`, which is below ten.
pub open spec fn digit(d: int) -> char {
    if d == 0 {
        '0'
    } else if d == 1 {
        '1'
    } else if d == 2 {
        '2'
    } else if d == 3 {
        '3'
    } else if d == 4 {
        '4'
    } else if d == 5 {
        '5'
    } else if d == 6 {
        '6'
    } else if d == 7 {
        '7'
    } else if d == 8 {
        '8'
    } else {
        '9'
    }
}

/// `n` in decimal notation, without leading zeros; zero is `"0"`.
pub open spec fn decimal(n: nat) -> Seq<char>
    decreases n,
{
    if n < 10 {
        seq![digit(n as int)]
    } else {
        decimal(n / 10).push(digit((n % 10) as int))
    }
}

/// The characters of `s`, in order, as a vector that can be indexed in constant time.
pub fn chars_of(s: &str) -> (v: Vec<char>)
    ensures
        v@ == s@,
{
    let mut v: Vec<char> = Vec::new();
    for c in it: s.chars()
        invariant
            v@ == it.seq().take(it.index() as int),
            it.seq() == s@,
    {
        v.push(c);
    }
    v
}

/// Whether `c` is a whitespace character.
pub fn is_whitespace(c: char) -> (b: bool)
    ensures
        b == is_space(c),
{
    let u: u32 = c as u32;
    (0x09 <= u && u <= 0x0d) || u == 0x20 || u == 0x85 || u == 0xa0 || u == 0x1680 || (0x2000 <= u
        && u <= 0x200a) || u == 0x2028 || u == 0x2029 || u == 0x202f || u == 0x205f || u == 0x3000
}

/// A copy of `s` with leading and trailing whitespace removed.
pub fn trim(s: &str) -> (r: String)
    ensures
        r@ == trimmed(s@),
{
    let v = chars_of(s);
    let n: usize = v.len();
    let mut a: usize = 0;
    assert(v@.skip(0) == v@);
    while a < n && is_whitespace(v[a])
        invariant
            a <= n,
            n == v@.len(),
            trim_front(v@) == trim_front(v@.skip(a as int)),
        decreases n - a,
    {
        assert(v@.skip(a as int).drop_first() == v@.skip(a as int + 1));
        a = a + 1;
    }
    assert(trim_front(v@) == v@.skip(a as int));
    let mut b: usize = n;
    while b > a && is_whitespace(v[b - 1])
        invariant
            a <= b <= n,
            n == v@.len(),
            trim_back(v@.skip(a as int)) == trim_back(v@.subrange(a as int, b as int)),
        decreases b,
    {
        assert(v@.subrange(a as int, b as int).drop_last() == v@.subrange(a as int, b as int - 1));
        b = b - 1;
    }
    assert(v@.skip(a as int) == v@.subrange(a as int, n as int));
    assert(trim_back(v@.subrange(a as int, b as int)) == v@.subrange(a as int, b as int));
    String::from_str(s.substring_char(a, b))
}

/// Whether `a` and `b` hold the same characters.
pub fn same_text(a: &str, b: &str) -> (r: bool)
    ensures
        r == (a@ == b@),
{
    let x = chars_of(a);
    let y = chars_of(b);
    if x.len() != y.len() {
        return false;
    }
    let n: usize = x.len();
    let mut i: usize = 0;
    while i < n
        invariant
            i <= n,
            n == x@.len(),
            n == y@.len(),
            x@ == a@,
            y@ == b@,
            forall|k: int| 0 <= k < i ==> x@[k] == y@[k],
        decreases n - i,
    {
        if x[i] != y[i] {
            return false;
        }
        i = i + 1;
    }
    assert(x@ =~= y@);
    true
}

/// Whether `needle` stands in `hay` at offset `at`.
fn matches_at(hay: &Vec<char>, needle: &Vec<char>, at: usize) -> (r: bool)
    requires
        at + needle@.len() <= hay@.len(),
    ensures
        r == occurs_at(hay@, needle@, at as int),
{
    let n: usize = needle.len();
    let m: usize = hay.len();
    let mut k: usize = 0;
    while k < n
        invariant
            k <= n,
            n == needle@.len(),
            m == hay@.len(),
            at + n <= m,
            forall|j: int| 0 <= j < k ==> hay@[at + j] == needle@[j],
        decreases n - k,
    {
        if hay[at + k] != needle[k] {
            assert(hay@.subrange(at as int, at + n)[k as int] != needle@[k as int]);
            return false;
        }
        k = k + 1;
    }
    assert(hay@.subrange(at as int, at + n) =~= needle@);
    true
}

/// Whether `needle` occurs in `hay`. The empty needle occurs in every string.
pub fn contains(hay: &str, needle: &str) -> (r: bool)
    ensures
        r == contains_text(hay@, needle@),
{
    let h = chars_of(hay);
    let p = chars_of(needle);
    if p.len() > h.len() {
        return false;
    }
    let last: usize = h.len() - p.len();
    let mut at: usize = 0;
    loop
        invariant
            at <= last,
            last + p@.len() == h@.len(),
            h@ == hay@,
            p@ == needle@,
            forall|j: int| 0 <= j < at ==> !occurs_at(h@, p@, j),
        decreases last - at,
    {
        if matches_at(&h, &p, at) {
            return true;
        }
        if at == last {
            return false;
        }
        at = at + 1;
    }
}

/// A copy of `s` without any leading path: what follows its last `'/'`, or all
/// of `s` where it holds none.
pub fn strip_path(s: &str) -> (r: String)
    ensures
        r@ == short_name(s@),
{
    let v = chars_of(s);
    let n: usize = v.len();
    let mut start: usize = 0;
    let mut i: usize = 0;
    assert(v@.take(0) =~= Seq::<char>::empty());
    while i < n
        invariant
            i <= n,
            n == v@.len(),
            start == after_last_slash(v@.take(i as int)),
            start <= i,
        decreases n - i,
    {
        assert(v@.take(i + 1).drop_last() == v@.take(i as int));
        if v[i] == '/' {
            start = i + 1;
        }
        i = i + 1;
    }
    assert(v@.take(n as int) == v@);
    assert(v@.skip(start as int) == v@.subrange(start as int, n as int));
    String::from_str(s.substring_char(start, n))
}

/// The one-character text of the digit `d`.
pub(crate) fn digit_text(d: u8) -> (r: &'static str)
    requires
        d < 10,
    ensures
        r@ == seq![digit(d as int)],
{
    proof {
        reveal_strlit("0");
        reveal_strlit("1");
        reveal_strlit("2");
        reveal_strlit("3");
        reveal_strlit("4");
        reveal_strlit("5");
        reveal_strlit("6");
        reveal_strlit("7");
        reveal_strlit("8");
        reveal_strlit("9");
    }
    let r = if d == 0 {
        "0"
    } else if d == 1 {
        "1"
    } else if d == 2 {
        "2"
    } else if d == 3 {
        "3"
    } else if d == 4 {
        "4"
    } else if d == 5 {
        "5"
    } else if d == 6 {
        "6"
    } else if d == 7 {
        "7"
    } else if d == 8 {
        "8"
    } else {
        "9"
    };
    assert(r@ =~= seq![digit(d as int)]);
    r
}

/// Appends `n` in decimal notation to `out`.
pub fn push_decimal(out: &mut String, n: u128)
    ensures
        final(out)@ == old(out)@ + decimal(n as nat),
    decreases n,
{
    if n >= 10 {
        push_decimal(out, n / 10);
    }
    out.append(digit_text((n % 10) as u8));
}

/// Behind a prefix that is empty or ends in `'/'`, the last `'/'` of a name
/// without one is that of the prefix.
proof fn lemma_after_last_slash_of_path(prefix: Seq<char>, name: Seq<char>)
    requires
        !name.contains('/'),
        prefix.len() == 0 || prefix.last() == '/',
    ensures
        after_last_slash(prefix + name) == prefix.len(),
    decreases name.len(),
{
    if name.len() == 0 {
        assert(prefix + name == prefix);
    } else {
        let whole = prefix + name;
        assert(whole.last() == name.last());
        assert(name.contains(name.last()));
        assert(whole.drop_last() == prefix + name.drop_last());
        assert forall|c: char| name.drop_last().contains(c) implies name.contains(c) by {
            let i = choose|i: int| 0 <= i < name.drop_last().len() && name.drop_last()[i] == c;
            assert(name[i] == c);
        }
        lemma_after_last_slash_of_path(prefix, name.drop_last());
    }
}

/// Stripping the path gives back a bare name, whatever path stood before it:
/// for a `name` without `'/'` and a `prefix` that is empty or ends in `'/'`, the
/// short name of `prefix + name` is `name`.
pub proof fn lemma_short_name_of_path(prefix: Seq<char>, name: Seq<char>)
    requires
        !name.contains('/'),
        prefix.len() == 0 || prefix.last() == '/',
    ensures
        short_name(prefix + name) == name,
{
    lemma_after_last_slash_of_path(prefix, name);
    assert((prefix + name).skip(prefix.len() as int) == name);
}

/// The offset behind the last `'/'` lies in the text, a `'/'` stands before it
/// unless it is 0, and none stands behind it.
proof fn lemma_after_last_slash_splits(s: Seq<char>)
    ensures
        0 <= after_last_slash(s) <= s.len(),
        after_last_slash(s) > 0 ==> s[after_last_slash(s) - 1] == '/',
        forall|i: int| after_last_slash(s) <= i < s.len() ==> s[i] != '/',
    decreases s.len(),
{
    if s.len() > 0 && s.last() != '/' {
        lemma_after_last_slash_splits(s.drop_last());
        assert forall|i: int| after_last_slash(s) <= i < s.len() implies s[i] != '/' by {
            if i < s.len() - 1 {
                assert(s.drop_last()[i] == s[i]);
            }
        }
    }
}

/// A short name holds no `'/'`, and is its own short name: stripping the path
/// twice is stripping it once.
pub proof fn lemma_short_name_is_bare(s: Seq<char>)
    ensures
        !short_name(s).contains('/'),
        short_name(short_name(s)) == short_name(s),
{
    lemma_after_last_slash_splits(s);
    let name = short_name(s);
    if name.contains('/') {
        let i = choose|i: int| 0 <= i < name.len() && name[i] == '/';
        assert(s[after_last_slash(s) + i] == '/');
    }
    lemma_short_name_of_path(Seq::empty(), name);
    assert(Seq::<char>::empty() + name == name);
}

/// What is left without leading whitespace is the end of the text, and does not
/// begin with whitespace.
proof fn lemma_trim_front_is_suffix(s: Seq<char>)
    ensures
        trim_front(s).len() <= s.len(),
        trim_front(s) == s.skip(s.len() - trim_front(s).len()),
        trim_front(s).len() > 0 ==> !is_space(trim_front(s).first()),
    decreases s.len(),
{
    if s.len() > 0 && is_space(s[0]) {
        lemma_trim_front_is_suffix(s.drop_first());
        let rest = s.drop_first();
        assert(rest.skip(rest.len() - trim_front(rest).len()) == s.skip(
            s.len() - trim_front(rest).len(),
        ));
    } else {
        assert(s.skip(0) == s);
    }
}

/// What is left without trailing whitespace is the beginning of the text, and
/// does not end in whitespace.
proof fn lemma_trim_back_is_prefix(s: Seq<char>)
    ensures
        trim_back(s).len() <= s.len(),
        trim_back(s) == s.take(trim_back(s).len() as int),
        trim_back(s).len() > 0 ==> !is_space(trim_back(s).last()),
    decreases s.len(),
{
    if s.len() > 0 && is_space(s.last()) {
        lemma_trim_back_is_prefix(s.drop_last());
        let rest = s.drop_last();
        assert(rest.take(trim_back(rest).len() as int) == s.take(trim_back(rest).len() as int));
    } else {
        assert(s.take(s.len() as int) == s);
    }
}

/// A trimmed text neither begins nor ends with whitespace, and trimming it again
/// changes nothing.
pub proof fn lemma_trimmed_is_bare(s: Seq<char>)
    ensures
        trimmed(s).len() > 0 ==> !is_space(trimmed(s).first()) && !is_space(trimmed(s).last()),
        trimmed(trimmed(s)) == trimmed(s),
{
    let front = trim_front(s);
    lemma_trim_front_is_suffix(s);
    lemma_trim_back_is_prefix(front);
    if trimmed(s).len() > 0 {
        assert(trimmed(s).first() == front.first());
    }
}

/// A text that neither begins nor ends with whitespace, and occurs in `hay`
/// behind its leading whitespace, occurs there too where that is cut off.
proof fn lemma_trim_front_keeps(hay: Seq<char>, needle: Seq<char>, at: int)
    requires
        needle.len() > 0,
        !is_space(needle.first()),
        occurs_at(hay, needle, at),
    ensures
        contains_text(trim_front(hay), needle),
    decreases hay.len(),
{
    if hay.len() > 0 && is_space(hay[0]) {
        assert(hay.subrange(at, at + needle.len())[0] == hay[at]);
        assert(hay.drop_first().subrange(at - 1, at - 1 + needle.len()) == hay.subrange(
            at,
            at + needle.len(),
        ));
        lemma_trim_front_keeps(hay.drop_first(), needle, at - 1);
    } else {
        assert(occurs_at(trim_front(hay), needle, at));
    }
}

/// The same for trailing whitespace.
proof fn lemma_trim_back_keeps(hay: Seq<char>, needle: Seq<char>, at: int)
    requires
        needle.len() > 0,
        !is_space(needle.last()),
        occurs_at(hay, needle, at),
    ensures
        contains_text(trim_back(hay), needle),
    decreases hay.len(),
{
    if hay.len() > 0 && is_space(hay.last()) {
        assert(hay.subrange(at, at + needle.len())[needle.len() - 1] == hay[at + needle.len()
            - 1]);
        assert(hay.drop_last().subrange(at, at + needle.len()) == hay.subrange(
            at,
            at + needle.len(),
        ));
        lemma_trim_back_keeps(hay.drop_last(), needle, at);
    } else {
        assert(occurs_at(trim_back(hay), needle, at));
    }
}

/// Trimming loses no text that is not itself surrounded by whitespace: a
/// `needle` that is not empty, neither begins nor ends with whitespace, and
/// occurs in `hay`, occurs in `hay` trimmed.
pub proof fn lemma_trimmed_keeps_bare_text(hay: Seq<char>, needle: Seq<char>)
    requires
        needle.len() > 0,
        !is_space(needle.first()),
        !is_space(needle.last()),
        contains_text(hay, needle),
    ensures
        contains_text(trimmed(hay), needle),
{
    let at = choose|at: int| occurs_at(hay, needle, at);
    lemma_trim_front_keeps(hay, needle, at);
    let front = trim_front(hay);
    let behind = choose|at: int| occurs_at(front, needle, at);
    lemma_trim_back_keeps(front, needle, behind);
}

} // verus!
