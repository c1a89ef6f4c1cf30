//! Character-level text utilities: whitespace trimming, splitting, joining,
//! substring search, decimal parsing and small formatting helpers.
//!
//! Everything here works on the `Seq<char>` view of strings, so contracts can
//! speak of text exactly as Rust's `str` methods define it.
use vstd::prelude::*;

verus! {

// ---------------------------------------------------------------------------
// Conversions between strings and character vectors
// ---------------------------------------------------------------------------

/// The characters of `s`, in order.
pub fn chars_of(s: &str) -> (v: Vec<char>)
    ensures
        v@ == s@,
{
    let mut v: Vec<char> = Vec::new();
    for c in it: s.chars()
        invariant
            it.seq() == s@,
            v@ == it.seq().take(it.index() as int),
    {
        v.push(c);
    }
    v
}

/// Appends one character to a string (`String::push`).
#[verifier::external_body]
pub(crate) fn push_char(s: &mut String, c: char)
    ensures
        final(s)@ == old(s)@.push(c),
{
    s.push(c);
}

/// Builds a string holding exactly the characters of `v`.
pub fn string_of(v: &Vec<char>) -> (s: String)
    ensures
        s@ == v@,
{
    let mut s = String::new();
    let mut i: usize = 0;
    while i < v.len()
        invariant
            i <= v.len(),
            s@ == v@.take(i as int),
        decreases v.len() - i,
    {
        push_char(&mut s, v[i]);
        assert(v@.take(i as int).push(v@[i as int]) =~= v@.take(i + 1));
        i = i + 1;
    }
    assert(v@.take(v.len() as int) =~= v@);
    s
}

/// `a` followed by `b`, as one string.
pub fn concat_str(a: &str, b: &str) -> (r: String)
    ensures
        r@ == a@ + b@,
{
    let mut v = chars_of(a);
    let w = chars_of(b);
    let mut i: usize = 0;
    while i < w.len()
        invariant
            i <= w@.len(),
            v@ == a@ + w@.take(i as int),
        decreases w.len() - i,
    {
        v.push(w[i]);
        assert(a@ + w@.take(i + 1) =~= (a@ + w@.take(i as int)).push(w@[i as int]));
        i = i + 1;
    }
    assert(w@.take(w@.len() as int) =~= w@);
    string_of(&v)
}

/// An owned copy of `s`.
pub fn owned(s: &str) -> (r: String)
    ensures
        r@ == s@,
{
    s.to_owned()
}

/// Character-wise equality of two character vectors.
pub fn chars_eq(a: &Vec<char>, b: &Vec<char>) -> (r: bool)
    ensures
        r == (a@ == b@),
{
    if a.len() != b.len() {
        return false;
    }
    let mut i: usize = 0;
    while i < a.len()
        invariant
            a.len() == b.len(),
            i <= a.len(),
            forall|k: int| 0 <= k < i ==> a@[k] == b@[k],
        decreases a.len() - i,
    {
        if a[i] != b[i] {
            return false;
        }
        i = i + 1;
    }
    assert(a@ =~= b@);
    true
}

/// Equality of two string slices, by their characters.
pub fn str_eq(a: &str, b: &str) -> (r: bool)
    ensures
        r == (a@ == b@),
{
    let va = chars_of(a);
    let vb = chars_of(b);
    chars_eq(&va, &vb)
}

// ---------------------------------------------------------------------------
// Whitespace and trimming
// ---------------------------------------------------------------------------

/// Unicode `White_Space`, the property that `char::is_whitespace` tests.
pub open spec fn is_ws(c: char) -> bool {
    let v = c as u32;
    ||| 0x09 <= v <= 0x0D
    ||| v == 0x20
    ||| v == 0x85
    ||| v == 0xA0
    ||| v == 0x1680
    ||| 0x2000 <= v <= 0x200A
    ||| v == 0x2028
    ||| v == 0x2029
    ||| v == 0x202F
    ||| v == 0x205F
    ||| v == 0x3000
}

/// Whether `c` is Unicode whitespace.
pub fn is_whitespace(c: char) -> (b: bool)
    ensures
        b == is_ws(c),
{
    let v = c as u32;
    (0x09 <= v && v <= 0x0D) || v == 0x20 || v == 0x85 || v == 0xA0 || v == 0x1680 || (0x2000
        <= v && v <= 0x200A) || v == 0x2028 || v == 0x2029 || v == 0x202F || v == 0x205F || v
        == 0x3000
}

/// `s` without its leading whitespace.
pub open spec fn trim_start(s: Seq<char>) -> Seq<char>
    decreases s.len(),
{
    if s.len() > 0 && is_ws(s[0]) {
        trim_start(s.drop_first())
    } else {
        s
    }
}

/// `s` without its trailing whitespace.
pub open spec fn trim_end(s: Seq<char>) -> Seq<char>
    decreases s.len(),
{
    if s.len() > 0 && is_ws(s.last()) {
        trim_end(s.drop_last())
    } else {
        s
    }
}

/// Trimming keeps text that starts and ends with something other than
/// whitespace, removes whitespace around it, and leaves nothing of text that
/// is all whitespace.
pub proof fn law_trim(s: Seq<char>, c: char)
    ensures
        (s.len() > 0 && !is_ws(s[0]) && !is_ws(s.last())) ==> trim(s) == s,
        is_ws(c) ==> trim(seq![c] + s) == trim(s),
        is_ws(c) ==> trim(s.push(c)) == trim(s),
        (forall|i: int| 0 <= i < s.len() ==> is_ws(#[trigger] s[i])) ==> trim(s).len() == 0,
{
    assert((seq![c] + s).drop_first() =~= s);
    if s.len() > 0 && !is_ws(s[0]) && !is_ws(s.last()) {
        assert(trim_start(s) == s);
    }
    lemma_trim_end_push(trim_start(s), c);
    lemma_trim_start_push(s, c);
    if forall|i: int| 0 <= i < s.len() ==> is_ws(#[trigger] s[i]) {
        lemma_trim_start_all_ws(s);
    }
}

/// Trailing whitespace added to text goes away again when its end is trimmed.
proof fn lemma_trim_end_push(s: Seq<char>, c: char)
    ensures
        is_ws(c) ==> trim_end(s.push(c)) == trim_end(s),
{
    if is_ws(c) {
        assert(s.push(c).drop_last() =~= s);
    }
}

/// Whitespace added at the end does not change where text starts, unless
/// the text is all whitespace, in which case both trim to nothing at the end.
proof fn lemma_trim_start_push(s: Seq<char>, c: char)
    ensures
        is_ws(c) ==> trim_end(trim_start(s.push(c))) == trim_end(trim_start(s)),
    decreases s.len(),
{
    if is_ws(c) {
        if s.len() > 0 && is_ws(s[0]) {
            assert(s.push(c).drop_first() =~= s.drop_first().push(c));
            lemma_trim_start_push(s.drop_first(), c);
        } else if s.len() > 0 {
            assert(s.push(c)[0] == s[0]);
            assert(trim_start(s.push(c)) == s.push(c));
            assert(trim_start(s) == s);
            lemma_trim_end_push(s, c);
        } else {
            assert(s.push(c) =~= seq![c]);
            assert(seq![c].drop_first() =~= Seq::<char>::empty());
            assert(trim_start(seq![c]) == trim_start(Seq::<char>::empty()));
            assert(trim_start(s) == s);
        }
    }
}

/// All-whitespace text trims to nothing from the start.
proof fn lemma_trim_start_all_ws(s: Seq<char>)
    requires
        forall|i: int| 0 <= i < s.len() ==> is_ws(#[trigger] s[i]),
    ensures
        trim_start(s).len() == 0,
    decreases s.len(),
{
    if s.len() > 0 {
        assert forall|i: int| 0 <= i < s.drop_first().len() implies is_ws(#[trigger] s.drop_first()[i]) by {
            assert(s.drop_first()[i] == s[i + 1]);
        }
        lemma_trim_start_all_ws(s.drop_first());
    }
}

/// `s` without leading and trailing whitespace, as `str::trim` gives it.
pub open spec fn trim(s: Seq<char>) -> Seq<char> {
    trim_end(trim_start(s))
}

/// The characters of `v` without leading and trailing whitespace.
pub fn trim_chars(v: &Vec<char>) -> (r: Vec<char>)
    ensures
        r@ == trim(v@),
{
    let n = v.len();
    let mut i: usize = 0;
    assert(v@.subrange(0, n as int) =~= v@);
    while i < n && is_whitespace(v[i])
        invariant
            n == v.len(),
            i <= n,
            trim_start(v@) == trim_start(v@.subrange(i as int, n as int)),
        decreases n - i,
    {
        assert(v@.subrange(i as int, n as int).drop_first() =~= v@.subrange(i + 1, n as int));
        i = i + 1;
    }
    let ghost t = v@.subrange(i as int, n as int);
    assert(trim_start(v@) == t);
    let mut j: usize = n;
    while j > i && is_whitespace(v[j - 1])
        invariant
            n == v.len(),
            i <= j <= n,
            t == v@.subrange(i as int, n as int),
            trim_end(t) == trim_end(v@.subrange(i as int, j as int)),
        decreases j,
    {
        assert(v@.subrange(i as int, j as int).drop_last() =~= v@.subrange(i as int, j - 1));
        j = j - 1;
    }
    let mut r: Vec<char> = Vec::new();
    let mut k: usize = i;
    while k < j
        invariant
            i <= k <= j <= n,
            n == v.len(),
            r@ =~= v@.subrange(i as int, k as int),
        decreases j - k,
    {
        r.push(v[k]);
        k = k + 1;
    }
    r
}

/// The text of `s` without leading and trailing whitespace.
pub fn trim_str(s: &str) -> (r: Vec<char>)
    ensures
        r@ == trim(s@),
{
    let v = chars_of(s);
    trim_chars(&v)
}

// ---------------------------------------------------------------------------
// Substring search
// ---------------------------------------------------------------------------

/// `needle` occurs in `hay` starting at index `i`.
pub open spec fn occurs_at(hay: Seq<char>, needle: Seq<char>, i: int) -> bool {
    0 <= i && i + needle.len() <= hay.len() && hay.subrange(i, i + needle.len()) == needle
}

/// `needle` occurs somewhere in `hay`, as `str::contains` decides it.
pub open spec fn has_substring(hay: Seq<char>, needle: Seq<char>) -> bool {
    exists|i: int| occurs_at(hay, needle, i)
}

/// Text contains what it is made of: a needle placed between any two texts
/// occurs in the result, the empty needle occurs everywhere, and a needle
/// longer than the text never occurs.
pub proof fn law_substring(a: Seq<char>, needle: Seq<char>, b: Seq<char>)
    ensures
        has_substring(a + needle + b, needle),
        has_substring(a, Seq::<char>::empty()),
        needle.len() > a.len() ==> !has_substring(a, needle),
{
    assert((a + needle + b).subrange(a.len() as int, (a.len() + needle.len()) as int) =~= needle);
    assert(occurs_at(a + needle + b, needle, a.len() as int));
    assert(a.subrange(0, 0) =~= Seq::<char>::empty());
    assert(occurs_at(a, Seq::<char>::empty(), 0));
}

/// Whether `needle` occurs in `hay` at index `i`.
fn matches_at(hay: &Vec<char>, needle: &Vec<char>, i: usize) -> (r: bool)
    requires
        i + needle.len() <= hay.len(),
    ensures
        r == occurs_at(hay@, needle@, i as int),
{
    let mut k: usize = 0;
    while k < needle.len()
        invariant
            i + needle.len() <= hay.len(),
            k <= needle.len(),
            forall|m: int| 0 <= m < k ==> hay@[i + m] == needle@[m],
        decreases needle.len() - k,
    {
        if hay[i + k] != needle[k] {
            assert(hay@.subrange(i as int, i + needle.len())[k as int] != needle@[k as int]);
            return false;
        }
        k = k + 1;
    }
    assert(hay@.subrange(i as int, i + needle.len()) =~= needle@);
    true
}

/// Whether `needle` occurs in `hay`.
pub fn contains_chars(hay: &Vec<char>, needle: &Vec<char>) -> (r: bool)
    ensures
        r == has_substring(hay@, needle@),
{
    if needle.len() > hay.len() {
        return false;
    }
    let last = hay.len() - needle.len();
    let mut i: usize = 0;
    while i <= last
        invariant
            last + needle.len() == hay.len(),
            forall|m: int| 0 <= m < i ==> !occurs_at(hay@, needle@, m),
        decreases last + 1 - i,
    {
        if matches_at(hay, needle, i) {
            return true;
        }
        if i == last {
            assert forall|m: int| !occurs_at(hay@, needle@, m) by {
                if 0 <= m && m + needle@.len() <= hay@.len() {
                    assert(m <= last);
                }
            }
            return false;
        }
        i = i + 1;
    }
    false
}

// ---------------------------------------------------------------------------
// Splitting and joining on a separator
// ---------------------------------------------------------------------------

/// The pieces of `s` between occurrences of `sep`, as `str::split(sep)` yields
/// them: always at least one piece, empty pieces included.
pub open spec fn split_on(s: Seq<char>, sep: char) -> Seq<Seq<char>>
    decreases s.len(),
{
    if s.len() == 0 {
        seq![Seq::<char>::empty()]
    } else {
        let rest = split_on(s.drop_last(), sep);
        if s.last() == sep {
            rest.push(Seq::<char>::empty())
        } else {
            rest.update(rest.len() - 1, rest.last().push(s.last()))
        }
    }
}

/// A piece without the separator splits into itself.
pub proof fn lemma_split_without_sep(t: Seq<char>, sep: char)
    requires
        !t.contains(sep),
    ensures
        split_on(t, sep) == seq![t],
    decreases t.len(),
{
    if t.len() == 0 {
        assert(t =~= Seq::<char>::empty());
    } else {
        assert(!t.drop_last().contains(sep)) by {
            if t.drop_last().contains(sep) {
                let j = choose|j: int| 0 <= j < t.drop_last().len() && t.drop_last()[j] == sep;
                assert(t[j] == sep);
            }
        }
        lemma_split_without_sep(t.drop_last(), sep);
        assert(t[t.len() - 1] != sep);
        assert(t.drop_last().push(t.last()) =~= t);
        assert(split_on(t, sep) =~= seq![t]);
    }
}

/// Appending the separator and a piece without it adds that piece.
pub proof fn lemma_split_append(s: Seq<char>, t: Seq<char>, sep: char)
    requires
        !t.contains(sep),
    ensures
        split_on(s + seq![sep] + t, sep) == split_on(s, sep).push(t),
    decreases t.len(),
{
    let u = s + seq![sep] + t;
    if t.len() == 0 {
        assert(t =~= Seq::<char>::empty());
        assert(u.drop_last() =~= s);
        assert(u.last() == sep);
    } else {
        assert(!t.drop_last().contains(sep)) by {
            if t.drop_last().contains(sep) {
                let j = choose|j: int| 0 <= j < t.drop_last().len() && t.drop_last()[j] == sep;
                assert(t[j] == sep);
            }
        }
        lemma_split_append(s, t.drop_last(), sep);
        assert(u.drop_last() =~= s + seq![sep] + t.drop_last());
        assert(u.last() == t.last());
        assert(t[t.len() - 1] != sep);
        assert(t.drop_last().push(t.last()) =~= t);
        assert(split_on(u, sep) =~= split_on(s, sep).push(t));
    }
}

/// Joining pieces without the separator and splitting again gives them back.
pub proof fn lemma_split_join(parts: Seq<Seq<char>>, sep: char)
    requires
        parts.len() > 0,
        forall|k: int| 0 <= k < parts.len() ==> !(#[trigger] parts[k]).contains(sep),
    ensures
        split_on(join_with(parts, seq![sep]), sep) == parts,
    decreases parts.len(),
{
    if parts.len() == 1 {
        lemma_split_without_sep(parts[0], sep);
        assert(parts =~= seq![parts[0]]);
    } else {
        let init = parts.drop_last();
        assert forall|k: int| 0 <= k < init.len() implies !(#[trigger] init[k]).contains(sep) by {
            assert(init[k] == parts[k]);
        }
        lemma_split_join(init, sep);
        assert(!parts[parts.len() - 1].contains(sep));
        lemma_split_append(join_with(init, seq![sep]), parts.last(), sep);
        assert(init.push(parts.last()) =~= parts);
    }
}

/// The parts joined with `sep` between neighbours, as `[String]::join` gives it.
pub open spec fn join_with(parts: Seq<Seq<char>>, sep: Seq<char>) -> Seq<char>
    decreases parts.len(),
{
    if parts.len() == 0 {
        Seq::<char>::empty()
    } else if parts.len() == 1 {
        parts[0]
    } else {
        join_with(parts.drop_last(), sep) + sep + parts.last()
    }
}

/// The views of a vector of strings.
pub open spec fn views(v: Seq<String>) -> Seq<Seq<char>> {
    v.map_values(|s: String| s@)
}

/// The pieces of `s` between commas, each of them trimmed, empty ones left out.
pub fn split_trimmed_nonempty(s: &str, sep: char) -> (r: Vec<String>)
    ensures
        forall|k: int| 0 <= k < r@.len() ==> r@[k]@.len() > 0,
        forall|id: Seq<char>| views(r@).contains(id) <==> listed_in(s@, sep, id),
{
    let v = chars_of(s);
    let mut pieces: Vec<Vec<char>> = Vec::new();
    let mut cur: Vec<char> = Vec::new();
    let mut i: usize = 0;
    proof {
        assert(v@.take(0) =~= Seq::<char>::empty());
    }
    while i < v.len()
        invariant
            i <= v.len(),
            v@ == s@,
            split_on(v@.take(i as int), sep) =~= pieces@.map_values(|p: Vec<char>| p@).push(cur@),
        decreases v.len() - i,
    {
        let c = v[i];
        proof {
            assert(v@.take(i + 1).drop_last() =~= v@.take(i as int));
            assert(v@.take(i + 1).last() == c);
        }
        if c == sep {
            let done = cur;
            pieces.push(done);
            cur = Vec::new();
        } else {
            cur.push(c);
        }
        i = i + 1;
    }
    pieces.push(cur);
    assert(v@.take(v.len() as int) =~= v@);
    let ghost split = split_on(s@, sep);
    assert(split =~= pieces@.map_values(|p: Vec<char>| p@));
    let mut r: Vec<String> = Vec::new();
    let mut k: usize = 0;
    while k < pieces.len()
        invariant
            k <= pieces.len(),
            split == pieces@.map_values(|p: Vec<char>| p@),
            forall|m: int| 0 <= m < r@.len() ==> r@[m]@.len() > 0,
            forall|id: Seq<char>|
                views(r@).contains(id) <==> (id.len() > 0 && exists|m: int|
                    0 <= m < k && trim(#[trigger] split[m]) == id),
        decreases pieces.len() - k,
    {
        let t = trim_chars(&pieces[k]);
        assert(split[k as int] == pieces@[k as int]@);
        if t.len() > 0 {
            let ts = string_of(&t);
            let ghost old_r = r@;
            r.push(ts);
            assert(views(r@) =~= views(old_r).push(ts@));
            assert forall|id: Seq<char>|
                views(r@).contains(id) <==> (id.len() > 0 && exists|m: int|
                    0 <= m < k + 1 && trim(#[trigger] split[m]) == id) by {
                if views(r@).contains(id) {
                    if id != ts@ {
                        let j = choose|j: int| 0 <= j < views(r@).len() && views(r@)[j] == id;
                        assert(views(old_r)[j] == id);
                        assert(views(old_r).contains(id));
                    }
                }
                if id.len() > 0 && exists|m: int| 0 <= m < k + 1 && trim(#[trigger] split[m]) == id {
                    let m = choose|m: int| 0 <= m < k + 1 && trim(#[trigger] split[m]) == id;
                    if m == k {
                        assert(views(r@)[views(r@).len() - 1] == id);
                    } else {
                        assert(views(old_r).contains(id));
                        let j = choose|j: int| 0 <= j < views(old_r).len() && views(old_r)[j] == id;
                        assert(views(r@)[j] == id);
                    }
                }
            }
        } else {
            assert forall|id: Seq<char>|
                views(r@).contains(id) <==> (id.len() > 0 && exists|m: int|
                    0 <= m < k + 1 && trim(#[trigger] split[m]) == id) by {
                if id.len() > 0 && exists|m: int| 0 <= m < k + 1 && trim(#[trigger] split[m]) == id {
                    let m = choose|m: int| 0 <= m < k + 1 && trim(#[trigger] split[m]) == id;
                    assert(m != k);
                }
            }
        }
        k = k + 1;
    }
    r
}

/// `id` is one of the non-empty trimmed pieces of `s` split on `sep`.
pub open spec fn listed_in(s: Seq<char>, sep: char, id: Seq<char>) -> bool {
    &&& id.len() > 0
    &&& exists|m: int| 0 <= m < split_on(s, sep).len() && trim(#[trigger] split_on(s, sep)[m]) == id
}

/// The strings of `parts` joined with `sep` between neighbours.
pub fn join_strings(parts: &Vec<String>, sep: &str) -> (r: String)
    ensures
        r@ == join_with(views(parts@), sep@),
{
    let mut r = String::new();
    let mut i: usize = 0;
    while i < parts.len()
        invariant
            i <= parts.len(),
            r@ == join_with(views(parts@).take(i as int), sep@),
        decreases parts.len() - i,
    {
        let ghost before = views(parts@).take(i as int);
        proof {
            let next = views(parts@).take(i + 1);
            assert(next.drop_last() =~= before);
            assert(next.last() == parts@[i as int]@);
            if i == 0 {
                assert(before =~= Seq::<Seq<char>>::empty());
                assert(next.len() == 1);
            }
        }
        if i > 0 {
            r.append(sep);
        }
        r.append(parts[i].as_str());
        i = i + 1;
    }
    assert(views(parts@).take(parts.len() as int) =~= views(parts@));
    r
}

// ---------------------------------------------------------------------------
// Decimal numbers
// ---------------------------------------------------------------------------

/// `c` is an ASCII decimal digit.
pub open spec fn is_digit(c: char) -> bool {
    48 <= c as u32 <= 57
}

/// Every character of `s` is an ASCII decimal digit.
pub open spec fn all_digits(s: Seq<char>) -> bool {
    forall|i: int| 0 <= i < s.len() ==> is_digit(#[trigger] s[i])
}

/// The value of an ASCII digit.
pub open spec fn digit_value(c: char) -> int {
    c as u32 - 48
}

/// The value of a string of decimal digits (leading zeros allowed).
pub open spec fn decimal_value(s: Seq<char>) -> int
    decreases s.len(),
{
    if s.len() == 0 {
        0
    } else {
        decimal_value(s.drop_last()) * 10 + digit_value(s.last())
    }
}

/// The value of a digit string is never negative.
pub proof fn lemma_decimal_nonneg(s: Seq<char>)
    requires
        all_digits(s),
    ensures
        decimal_value(s) >= 0,
    decreases s.len(),
{
    if s.len() > 0 {
        assert(all_digits(s.drop_last()));
        lemma_decimal_nonneg(s.drop_last());
        assert(is_digit(s[s.len() - 1]));
    }
}

/// Appending digits never makes the value smaller.
pub proof fn lemma_decimal_grows(s: Seq<char>, k: int)
    requires
        all_digits(s),
        0 <= k <= s.len(),
    ensures
        decimal_value(s.take(k)) <= decimal_value(s),
    decreases s.len() - k,
{
    if k < s.len() {
        let t = s.take(k + 1);
        assert(t.drop_last() =~= s.take(k));
        assert(all_digits(s.take(k)));
        assert(all_digits(t));
        lemma_decimal_nonneg(s.take(k));
        assert(is_digit(t[k]));
        lemma_decimal_grows(s, k + 1);
    } else {
        assert(s.take(k) =~= s);
    }
}

/// What `str::parse` gives for an integer type with range `[lo, hi]`:
/// an optional sign (`+`, or `-` when `signed`), then one or more ASCII digits,
/// with the value inside the range. `None` stands for the parse error.
pub open spec fn parse_int_spec(s: Seq<char>, signed: bool, lo: int, hi: int) -> Option<int> {
    let neg = s.len() > 0 && s[0] == '-' && signed;
    let has_sign = s.len() > 0 && (s[0] == '+' || (s[0] == '-' && signed));
    let digits = if has_sign { s.drop_first() } else { s };
    let v = if neg { -decimal_value(digits) } else { decimal_value(digits) };
    if digits.len() > 0 && all_digits(digits) && lo <= v <= hi {
        Some(v)
    } else {
        None
    }
}

/// How integers read: digits give their value, a leading '+' changes
/// nothing, a leading '-' negates when the type is signed and is refused
/// otherwise, and empty text, text with a non-digit, or a value out of range
/// do not read.
pub proof fn law_parse_int(d: Seq<char>, signed: bool, lo: int, hi: int)
    requires
        d.len() > 0,
        all_digits(d),
    ensures
        (lo <= decimal_value(d) <= hi) ==> parse_int_spec(d, signed, lo, hi) == Some(decimal_value(d)),
        !(lo <= decimal_value(d) <= hi) ==> parse_int_spec(d, signed, lo, hi) is None,
        (lo <= decimal_value(d) <= hi) ==> parse_int_spec(seq!['+'] + d, signed, lo, hi) == Some(decimal_value(d)),
        (signed && lo <= -decimal_value(d) <= hi) ==> parse_int_spec(seq!['-'] + d, signed, lo, hi) == Some(
            -decimal_value(d),
        ),
        !signed ==> parse_int_spec(seq!['-'] + d, signed, lo, hi) is None,
        parse_int_spec(Seq::<char>::empty(), signed, lo, hi) is None,
        parse_int_spec(seq!['+'], signed, lo, hi) is None,
        forall|k: int| 0 <= k < d.len() ==> parse_int_spec(d.update(k, 'x'), signed, lo, hi) is None,
{
    assert(is_digit(d[0]));
    assert((seq!['+'] + d).drop_first() =~= d);
    assert((seq!['-'] + d).drop_first() =~= d);
    assert((seq!['+']).drop_first() =~= Seq::<char>::empty());
    assert forall|k: int| 0 <= k < d.len() implies parse_int_spec(d.update(k, 'x'), signed, lo, hi) is None by {
        let u = d.update(k, 'x');
        assert(!is_digit(u[k]));
        if u.len() > 0 && (u[0] == '+' || (u[0] == '-' && signed)) {
            assert(u[0] == d[0] || k == 0);
        }
        if k > 0 {
            assert(u.drop_first()[k - 1] == u[k]);
        }
    }
}

/// Parses `s` as a decimal integer within `[lo, hi]`, the way `str::parse`
/// does for Rust's integer types.
pub fn parse_int(s: &Vec<char>, signed: bool, lo: i64, hi: i64) -> (r: Option<i64>)
    requires
        lo <= 0 <= hi,
    ensures
        match r {
            Some(v) => parse_int_spec(s@, signed, lo as int, hi as int) == Some(v as int),
            None => parse_int_spec(s@, signed, lo as int, hi as int) is None,
        },
{
    let n = s.len();
    let neg = n > 0 && s[0] == '-' && signed;
    let has_sign = n > 0 && (s[0] == '+' || (s[0] == '-' && signed));
    let start: usize = if has_sign { 1 } else { 0 };
    let ghost digits = if has_sign { s@.drop_first() } else { s@ };
    if start >= n {
        assert(digits.len() == 0);
        return None;
    }
    assert(digits =~= s@.subrange(start as int, n as int));
    assert(has_sign == (s@.len() > 0 && (s@[0] == '+' || (s@[0] == '-' && signed))));
    assert(neg == (s@.len() > 0 && s@[0] == '-' && signed));
    // magnitude bound: beyond this no value is in range
    let bound: u64 = if neg { (0i128 - lo as i128) as u64 } else { hi as u64 };
    assert(bound as int == if neg { -lo } else { hi as int });
    let mut acc: u64 = 0;
    let mut i: usize = start;
    assert(s@.subrange(start as int, start as int) =~= Seq::<char>::empty());
    while i < n
        invariant
            start <= i <= n,
            n == s.len(),
            start == if has_sign { 1usize } else { 0usize },
            digits == s@.subrange(start as int, n as int),
            all_digits(s@.subrange(start as int, i as int)),
            acc as int == decimal_value(s@.subrange(start as int, i as int)),
            acc <= bound,
            bound as int == if neg { -lo } else { hi as int },
            bound <= 0x8000_0000_0000_0000u64,
            has_sign == (s@.len() > 0 && (s@[0] == '+' || (s@[0] == '-' && signed))),
            neg == (s@.len() > 0 && s@[0] == '-' && signed),
            digits == if has_sign { s@.drop_first() } else { s@ },
            lo <= 0 <= hi,
        decreases n - i,
    {
        let c = s[i];
        let ghost pre = s@.subrange(start as int, i as int);
        let ghost next = s@.subrange(start as int, i + 1);
        assert(next.drop_last() =~= pre);
        assert(next.last() == c);
        let cv = c as u32;
        if !(48 <= cv && cv <= 57) {
            assert(digits[(i - start) as int] == c);
            assert(!is_digit(c));
            assert(!all_digits(digits));
            return None;
        }
        let d = (cv - 48) as u64;
        assert(all_digits(next)) by {
            assert forall|m: int| 0 <= m < next.len() implies is_digit(#[trigger] next[m]) by {
                if m < pre.len() {
                    assert(next[m] == pre[m]);
                }
            }
        }
        assert(decimal_value(next) == acc * 10 + d);
        if acc > bound / 10 || acc * 10 + d > bound {
            // every longer digit string is at least as large
            proof {
                assert(acc * 10 + d > bound) by (nonlinear_arith)
                    requires
                        acc > bound / 10 || acc * 10 + d > bound,
                        d >= 0,
                ;
                if all_digits(digits) {
                    assert(digits.take((i + 1 - start) as int) =~= next);
                    lemma_decimal_grows(digits, (i + 1 - start) as int);
                }
            }
            return None;
        }
        acc = acc * 10 + d;
        i = i + 1;
    }
    assert(s@.subrange(start as int, n as int) =~= digits);
    if neg {
        Some((0i128 - acc as i128) as i64)
    } else {
        Some(acc as i64)
    }
}

/// Parses `s` as a `usize`, the way `str::parse::<usize>` does: an optional
/// `+`, then one or more ASCII digits, with the value at most `usize::MAX`.
pub fn parse_usize(s: &Vec<char>) -> (r: Option<usize>)
    ensures
        match r {
            Some(v) => parse_int_spec(s@, false, 0, usize::MAX as int) == Some(v as int),
            None => parse_int_spec(s@, false, 0, usize::MAX as int) is None,
        },
{
    let n = s.len();
    let has_sign = n > 0 && s[0] == '+';
    let start: usize = if has_sign { 1 } else { 0 };
    let ghost digits = if has_sign { s@.drop_first() } else { s@ };
    if start >= n {
        assert(digits.len() == 0);
        return None;
    }
    assert(digits =~= s@.subrange(start as int, n as int));
    let mut acc: usize = 0;
    let mut i: usize = start;
    assert(s@.subrange(start as int, start as int) =~= Seq::<char>::empty());
    while i < n
        invariant
            start <= i <= n,
            n == s.len(),
            start == if has_sign { 1usize } else { 0usize },
            has_sign == (s@.len() > 0 && s@[0] == '+'),
            digits == s@.subrange(start as int, n as int),
            digits == if has_sign { s@.drop_first() } else { s@ },
            all_digits(s@.subrange(start as int, i as int)),
            acc as int == decimal_value(s@.subrange(start as int, i as int)),
        decreases n - i,
    {
        let c = s[i];
        let ghost pre = s@.subrange(start as int, i as int);
        let ghost next = s@.subrange(start as int, i + 1);
        assert(next.drop_last() =~= pre);
        assert(next.last() == c);
        let cv = c as u32;
        if !(48 <= cv && cv <= 57) {
            assert(digits[(i - start) as int] == c);
            assert(!is_digit(c));
            return None;
        }
        let d = (cv - 48) as usize;
        assert(all_digits(next)) by {
            assert forall|m: int| 0 <= m < next.len() implies is_digit(#[trigger] next[m]) by {
                if m < pre.len() {
                    assert(next[m] == pre[m]);
                }
            }
        }
        assert(decimal_value(next) == acc * 10 + d);
        if acc > (usize::MAX - d) / 10 {
            proof {
                assert(acc * 10 + d > usize::MAX) by (nonlinear_arith)
                    requires
                        acc > (usize::MAX - d) / 10,
                        0 <= d <= 9,
                ;
                if all_digits(digits) {
                    assert(digits.take((i + 1 - start) as int) =~= next);
                    lemma_decimal_grows(digits, (i + 1 - start) as int);
                }
            }
            return None;
        }
        proof {
            assert(acc * 10 + d <= usize::MAX) by (nonlinear_arith)
                requires
                    acc <= (usize::MAX - d) / 10,
                    0 <= d <= 9,
            ;
        }
        acc = acc * 10 + d;
        i = i + 1;
    }
    assert(s@.subrange(start as int, n as int) =~= digits);
    Some(acc)
}

/// The ASCII digit for `d`.
pub open spec fn digit_char(d: int) -> char {
    if d == 0 { '0' }
    else if d == 1 { '1' }
    else if d == 2 { '2' }
    else if d == 3 { '3' }
    else if d == 4 { '4' }
    else if d == 5 { '5' }
    else if d == 6 { '6' }
    else if d == 7 { '7' }
    else if d == 8 { '8' }
    else { '9' }
}

/// The ASCII digit for `d`.
fn digit(d: u32) -> (c: char)
    requires
        d < 10,
    ensures
        c == digit_char(d as int),
{
    match d {
        0 => '0',
        1 => '1',
        2 => '2',
        3 => '3',
        4 => '4',
        5 => '5',
        6 => '6',
        7 => '7',
        8 => '8',
        _ => '9',
    }
}

/// `n` written with exactly two digits, zero-padded (`{:02}`).
pub open spec fn two_digits_spec(n: int) -> Seq<char> {
    seq![digit_char(n / 10), digit_char(n % 10)]
}

/// The digit written for `d` is a decimal digit of value `d`.
proof fn lemma_digit_char(d: int)
    requires
        0 <= d < 10,
    ensures
        is_digit(digit_char(d)),
        digit_value(digit_char(d)) == d,
{
    assert('0' as u32 == 48 && '1' as u32 == 49 && '2' as u32 == 50 && '3' as u32 == 51 && '4' as u32 == 52
        && '5' as u32 == 53 && '6' as u32 == 54 && '7' as u32 == 55 && '8' as u32 == 56 && '9' as u32 == 57);
}

/// Two-digit text reads back as the number it was written from: both
/// characters are decimal digits and their value is `n`.
pub proof fn law_two_digits_read_back(n: int)
    requires
        0 <= n < 100,
    ensures
        two_digits_spec(n).len() == 2,
        all_digits(two_digits_spec(n)),
        decimal_value(two_digits_spec(n)) == n,
{
    let t = two_digits_spec(n);
    lemma_digit_char(n / 10);
    lemma_digit_char(n % 10);
    assert(t.drop_last() =~= seq![digit_char(n / 10)]);
    assert(t.drop_last().drop_last() =~= Seq::<char>::empty());
    assert(is_digit(t[0]) && is_digit(t[1]));
    assert(decimal_value(t.drop_last().drop_last()) == 0);
    assert(decimal_value(t.drop_last()) == n / 10);
    assert(decimal_value(t) == (n / 10) * 10 + n % 10);
}

/// Appends `n` as two zero-padded digits.
pub fn push_two_digits(s: &mut String, n: u32)
    requires
        n < 100,
    ensures
        final(s)@ == old(s)@ + two_digits_spec(n as int),
{
    push_char(s, digit(n / 10));
    push_char(s, digit(n % 10));
    assert(s@ =~= old(s)@ + two_digits_spec(n as int));
}

// ---------------------------------------------------------------------------
// Lowercasing
// ---------------------------------------------------------------------------

/// What `str::to_lowercase` returns for a string with characters `s`.
pub uninterp spec fn lowercase_of(s: Seq<char>) -> Seq<char>;

/// `str::to_lowercase`: the lowercase equivalent of `s`, by the Unicode
/// `Lowercase` mapping. The contract only names the result as a function of
/// the characters of `s`.
#[verifier::external_body]
pub(crate) fn to_lowercase(s: &str) -> (r: String)
    ensures
        r@ == lowercase_of(s@),
{
    s.to_lowercase()
}

} // verus!
