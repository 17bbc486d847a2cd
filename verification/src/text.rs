//! Character-level string helpers with their specifications.

use vstd::prelude::*;

verus! {

/// Appends one character: `String::push`.
#[verifier::external_body]
pub fn push_char(s: &mut String, c: char)
    ensures
        final(s)@ == old(s)@.push(c),
{
    s.push(c)
}

/// The characters of a string slice, in order.
pub fn chars_of(s: &str) -> (v: Vec<char>)
    ensures
        v@ == s@,
{
    let mut v: Vec<char> = Vec::new();
    for c in it: s.chars()
        invariant
            v@ == it.seq().take(it.index() as int),
    {
        v.push(c);
    }
    v
}

} // verus!

verus! {

/// Whether two string slices hold the same characters.
pub fn str_eq(a: &str, b: &str) -> (res: bool)
    ensures
        res == (a@ == b@),
{
    let va = chars_of(a);
    let vb = chars_of(b);
    if va.len() != vb.len() {
        return false;
    }
    let mut i: usize = 0;
    while i < va.len()
        invariant
            va@ == a@,
            vb@ == b@,
            va.len() == vb.len(),
            i <= va.len(),
            forall|k: int| 0 <= k < i ==> va@[k] == vb@[k],
        decreases va.len() - i,
    {
        if va[i] != vb[i] {
            assert(a@[i as int] != b@[i as int]);
            return false;
        }
        i = i + 1;
    }
    assert(a@ =~= b@);
    true
}

/// Unicode `White_Space`, the property that `char::is_whitespace` and `str::trim` use.
pub open spec fn is_white_space(c: char) -> bool {
    let u = c as u32;
    ||| 0x09 <= u <= 0x0D
    ||| u == 0x20
    ||| u == 0x85
    ||| u == 0xA0
    ||| u == 0x1680
    ||| 0x2000 <= u <= 0x200A
    ||| u == 0x2028
    ||| u == 0x2029
    ||| u == 0x202F
    ||| u == 0x205F
    ||| u == 0x3000
}

pub fn white_space(c: char) -> (res: bool)
    ensures
        res == is_white_space(c),
{
    let u = c as u32;
    (0x09 <= u && u <= 0x0D) || u == 0x20 || u == 0x85 || u == 0xA0 || u == 0x1680 || (0x2000
        <= u && u <= 0x200A) || u == 0x2028 || u == 0x2029 || u == 0x202F || u == 0x205F || u
        == 0x3000
}

/// The characters with leading white space removed.
pub open spec fn trim_start(s: Seq<char>) -> Seq<char>
    decreases s.len(),
{
    if s.len() > 0 && is_white_space(s[0]) {
        trim_start(s.drop_first())
    } else {
        s
    }
}

/// The characters with trailing white space removed.
pub open spec fn trim_end(s: Seq<char>) -> Seq<char>
    decreases s.len(),
{
    if s.len() > 0 && is_white_space(s.last()) {
        trim_end(s.drop_last())
    } else {
        s
    }
}

/// `str::trim`: leading and trailing white space removed.
pub open spec fn spec_trim(s: Seq<char>) -> Seq<char> {
    trim_end(trim_start(s))
}

proof fn lemma_trim_start_skip(s: Seq<char>, i: int)
    requires
        0 <= i <= s.len(),
        forall|k: int| 0 <= k < i ==> is_white_space(#[trigger] s[k]),
        i == s.len() || !is_white_space(s[i]),
    ensures
        trim_start(s) == s.skip(i),
    decreases i,
{
    if i == 0 {
        assert(s.skip(0) =~= s);
    } else {
        let t = s.drop_first();
        assert forall|k: int| 0 <= k < i - 1 implies is_white_space(#[trigger] t[k]) by {
            assert(t[k] == s[k + 1]);
        }
        if i - 1 < t.len() {
            assert(t[i - 1] == s[i]);
        }
        lemma_trim_start_skip(t, i - 1);
        assert(t.skip(i - 1) =~= s.skip(i));
    }
}

proof fn lemma_trim_end_take(s: Seq<char>, j: int)
    requires
        0 <= j <= s.len(),
        forall|k: int| j <= k < s.len() ==> is_white_space(#[trigger] s[k]),
        j == 0 || !is_white_space(s[j - 1]),
    ensures
        trim_end(s) == s.take(j),
    decreases s.len() - j,
{
    if j == s.len() {
        assert(s.take(j) =~= s);
    } else {
        let t = s.drop_last();
        assert forall|k: int| j <= k < t.len() implies is_white_space(#[trigger] t[k]) by {
            assert(t[k] == s[k]);
        }
        if j > 0 {
            assert(t[j - 1] == s[j - 1]);
        }
        lemma_trim_end_take(t, j);
        assert(t.take(j) =~= s.take(j));
    }
}

/// `str::trim`.
pub fn trim(s: &str) -> (res: &str)
    ensures
        res@ == spec_trim(s@),
{
    let v = chars_of(s);
    let n = v.len();
    let mut i: usize = 0;
    while i < n && white_space(v[i])
        invariant
            v@ == s@,
            n == v.len(),
            i <= n,
            forall|k: int| 0 <= k < i ==> is_white_space(#[trigger] s@[k]),
        decreases n - i,
    {
        i = i + 1;
    }
    proof {
        lemma_trim_start_skip(s@, i as int);
    }
    let mut j: usize = n;
    while j > i && white_space(v[j - 1])
        invariant
            v@ == s@,
            n == v.len(),
            i <= j <= n,
            forall|k: int| j <= k < n ==> is_white_space(#[trigger] s@[k]),
        decreases j,
    {
        j = j - 1;
    }
    proof {
        let t = s@.skip(i as int);
        assert forall|k: int| j - i <= k < t.len() implies is_white_space(#[trigger] t[k]) by {
            assert(t[k] == s@[k + i]);
        }
        if j > i {
            assert(t[j - i - 1] == s@[j - 1]);
        }
        lemma_trim_end_take(t, j - i);
        assert(t.take(j - i) =~= s@.subrange(i as int, j as int));
    }
    s.substring_char(i, j)
}

} // verus!

verus! {

/// Whether `pat` occurs in `s` starting at index `i`.
pub open spec fn occurs_at(s: Seq<char>, pat: Seq<char>, i: int) -> bool {
    0 <= i && i + pat.len() <= s.len() && s.subrange(i, i + pat.len()) == pat
}

/// The first index at or after `k` where `pat` occurs in `s`.
pub open spec fn find_from(s: Seq<char>, pat: Seq<char>, k: int) -> Option<int>
    decreases s.len() + 1 - k,
{
    if k < 0 || k > s.len() || k + pat.len() > s.len() {
        None
    } else if occurs_at(s, pat, k) {
        Some(k)
    } else {
        find_from(s, pat, k + 1)
    }
}

/// Whether `pv` occurs in `sv` at index `i`.
pub fn occurs_at_exec(sv: &Vec<char>, pv: &Vec<char>, i: usize) -> (res: bool)
    ensures
        res == occurs_at(sv@, pv@, i as int),
{
    if i > sv.len() || pv.len() > sv.len() - i {
        return false;
    }
    let mut k: usize = 0;
    while k < pv.len()
        invariant
            i + pv.len() <= sv.len(),
            k <= pv.len(),
            forall|m: int| 0 <= m < k ==> sv@[i + m] == pv@[m],
        decreases pv.len() - k,
    {
        if sv[i + k] != pv[k] {
            assert(sv@.subrange(i as int, i + pv.len())[k as int] != pv@[k as int]);
            return false;
        }
        k = k + 1;
    }
    assert(sv@.subrange(i as int, i + pv.len()) =~= pv@);
    true
}

/// The first index at or after `from` where `pv` occurs in `sv`.
pub fn find_from_exec(sv: &Vec<char>, pv: &Vec<char>, from: usize) -> (res: Option<usize>)
    ensures
        match res {
            Some(i) => find_from(sv@, pv@, from as int) == Some(i as int),
            None => find_from(sv@, pv@, from as int) is None,
        },
{
    if pv.len() == 0 {
        if from <= sv.len() {
            assert(sv@.subrange(from as int, from as int) =~= pv@);
            return Some(from);
        }
        return None;
    }
    let mut k = from;
    while k <= sv.len() && pv.len() <= sv.len() - k
        invariant
            find_from(sv@, pv@, from as int) == find_from(sv@, pv@, k as int),
            from <= k,
            pv.len() > 0,
        decreases sv.len() + 1 - k,
    {
        if occurs_at_exec(sv, pv, k) {
            return Some(k);
        }
        k = k + 1;
    }
    None
}

/// Whether `c` ends a URL's authority: `/`, `?` or `#`.
pub open spec fn ends_authority(c: char) -> bool {
    c == '/' || c == '?' || c == '#'
}

/// The index of the first character of `s` at or after `k` that ends the
/// authority, or the length of `s` if there is none.
pub open spec fn authority_end_from(s: Seq<char>, k: int) -> int
    decreases s.len() - k,
{
    if k < 0 || k >= s.len() {
        s.len() as int
    } else if ends_authority(s[k]) {
        k
    } else {
        authority_end_from(s, k + 1)
    }
}

/// The part of `s` after the last occurrence of `c`; all of `s` if `c` does not occur.
pub open spec fn after_last(s: Seq<char>, c: char) -> Seq<char>
    decreases s.len(),
{
    if s.len() == 0 {
        s
    } else if s.last() == c {
        Seq::empty()
    } else {
        after_last(s.drop_last(), c).push(s.last())
    }
}

/// ASCII lower-casing of one character, as `char::to_ascii_lowercase`.
pub open spec fn ascii_lower(c: char) -> char {
    if 'A' <= c && c <= 'Z' {
        ((c as u32) + 32) as char
    } else {
        c
    }
}

/// `str::to_ascii_lowercase` on a character sequence.
pub open spec fn ascii_lowercase(s: Seq<char>) -> Seq<char> {
    s.map_values(|c: char| ascii_lower(c))
}

pub fn ascii_lower_exec(c: char) -> (res: char)
    ensures
        res == ascii_lower(c),
{
    if 'A' <= c && c <= 'Z' {
        let b = (c as u8) + 32;
        b as char
    } else {
        c
    }
}

} // verus!

verus! {

/// The index of the first authority-ending character of `sv`, or its length.
pub fn authority_end_exec(sv: &Vec<char>) -> (res: usize)
    ensures
        res as int == authority_end_from(sv@, 0),
{
    let mut k: usize = 0;
    while k < sv.len()
        invariant
            k <= sv.len(),
            authority_end_from(sv@, 0) == authority_end_from(sv@, k as int),
        decreases sv.len() - k,
    {
        if sv[k] == '/' || sv[k] == '?' || sv[k] == '#' {
            return k;
        }
        k = k + 1;
    }
    k
}

proof fn lemma_after_last_split(s: Seq<char>, c: char, j: int)
    requires
        0 <= j <= s.len(),
        forall|k: int| j <= k < s.len() ==> s[k] != c,
        j == 0 || s[j - 1] == c,
    ensures
        after_last(s, c) == s.skip(j),
    decreases s.len() - j,
{
    if j == s.len() {
        if j > 0 {
            assert(s.last() == c);
        }
        assert(s.skip(j) =~= Seq::<char>::empty());
    } else {
        let t = s.drop_last();
        assert forall|k: int| j <= k < t.len() implies t[k] != c by {
            assert(t[k] == s[k]);
        }
        if j > 0 {
            assert(t[j - 1] == s[j - 1]);
        }
        lemma_after_last_split(t, c, j);
        assert(t.skip(j).push(s.last()) =~= s.skip(j));
    }
}

/// The part of `s` after its last `c`, as `s.rsplit(c).next()`.
pub fn after_last_exec(s: &str, c: char) -> (res: &str)
    ensures
        res@ == after_last(s@, c),
{
    let v = chars_of(s);
    let n = v.len();
    let mut j: usize = n;
    while j > 0 && v[j - 1] != c
        invariant
            v@ == s@,
            n == v.len(),
            j <= n,
            forall|k: int| j <= k < n ==> s@[k] != c,
        decreases j,
    {
        j = j - 1;
    }
    proof {
        lemma_after_last_split(s@, c, j as int);
        assert(s@.subrange(j as int, n as int) =~= s@.skip(j as int));
    }
    s.substring_char(j, n)
}

/// `str::to_ascii_lowercase`.
pub fn to_ascii_lowercase(s: &str) -> (res: String)
    ensures
        res@ == ascii_lowercase(s@),
{
    let v = chars_of(s);
    let mut out = String::new();
    let mut i: usize = 0;
    while i < v.len()
        invariant
            v@ == s@,
            i <= v.len(),
            out@ == ascii_lowercase(s@.take(i as int)),
        decreases v.len() - i,
    {
        let c = ascii_lower_exec(v[i]);
        push_char(&mut out, c);
        assert(ascii_lowercase(s@.take(i + 1)) =~= ascii_lowercase(s@.take(i as int)).push(c));
        i = i + 1;
    }
    assert(s@.take(v.len() as int) =~= s@);
    out
}

/// Every non-overlapping occurrence of `pat` in `s`, scanned from the left,
/// replaced by `rep` (the result of `str::replace` for a non-empty pattern).
pub open spec fn replace_all(s: Seq<char>, pat: Seq<char>, rep: Seq<char>) -> Seq<char>
    decreases s.len(),
{
    if pat.len() == 0 || s.len() < pat.len() {
        s
    } else if s.take(pat.len() as int) == pat {
        rep + replace_all(s.skip(pat.len() as int), pat, rep)
    } else {
        seq![s[0]] + replace_all(s.drop_first(), pat, rep)
    }
}

proof fn lemma_replace_all_short(s: Seq<char>, pat: Seq<char>, rep: Seq<char>)
    requires
        s.len() < pat.len(),
    ensures
        replace_all(s, pat, rep) == s,
{
}

/// `str::replace` with a non-empty pattern.
pub fn replace(s: &str, pat: &str, rep: &str) -> (res: String)
    requires
        pat@.len() > 0,
    ensures
        res@ == replace_all(s@, pat@, rep@),
{
    let sv = chars_of(s);
    let pv = chars_of(pat);
    let n = sv.len();
    let plen = pv.len();
    let mut out = String::new();
    let mut seg: usize = 0;
    let mut i: usize = 0;
    assert(s@.skip(0) =~= s@);
    assert(out@ + s@.subrange(0, 0) =~= Seq::<char>::empty());
    while i < n
        invariant
            sv@ == s@,
            pv@ == pat@,
            n == sv.len(),
            plen == pv.len(),
            plen > 0,
            seg <= i <= n,
            replace_all(s@, pat@, rep@) == out@ + s@.subrange(seg as int, i as int) + replace_all(
                s@.skip(i as int),
                pat@,
                rep@,
            ),
        decreases n - i,
    {
        let ghost t = s@.skip(i as int);
        if occurs_at_exec(&sv, &pv, i) {
            proof {
                assert(t.take(plen as int) =~= s@.subrange(i as int, i + plen));
                assert(t.skip(plen as int) =~= s@.skip(i + plen));
            }
            let piece = s.substring_char(seg, i);
            out.append(piece);
            out.append(rep);
            i = i + plen;
            seg = i;
            assert(s@.subrange(seg as int, i as int) =~= Seq::<char>::empty());
        } else {
            proof {
                if t.len() >= plen {
                    assert(t.take(plen as int) =~= s@.subrange(i as int, i + plen));
                    assert(t.drop_first() =~= s@.skip(i + 1));
                } else {
                    lemma_replace_all_short(t, pat@, rep@);
                    lemma_replace_all_short(s@.skip(i + 1), pat@, rep@);
                    assert(t =~= seq![s@[i as int]] + s@.skip(i + 1));
                }
                assert(s@.subrange(seg as int, i + 1) =~= s@.subrange(seg as int, i as int)
                    + seq![s@[i as int]]);
            }
            i = i + 1;
        }
    }
    let rest = s.substring_char(seg, n);
    out.append(rest);
    assert(s@.skip(n as int) =~= Seq::<char>::empty());
    out
}

/// The decimal digit character for `d < 10`.
pub open spec fn digit_char(d: nat) -> char {
    ((d + 48) as u32) as char
}

/// Decimal notation of a natural number, without leading zeros.
pub open spec fn decimal(n: nat) -> Seq<char>
    decreases n,
{
    if n < 10 {
        seq![digit_char(n)]
    } else {
        decimal(n / 10).push(digit_char(n % 10))
    }
}

/// Decimal notation of an integer, with a leading `-` when negative (as `to_string`).
pub open spec fn int_text(x: int) -> Seq<char> {
    if x < 0 {
        seq!['-'] + decimal((-x) as nat)
    } else {
        decimal(x as nat)
    }
}

/// Appends the decimal notation of `n`.
pub fn push_decimal(out: &mut String, n: u64)
    ensures
        final(out)@ == old(out)@ + decimal(n as nat),
    decreases n,
{
    if n >= 10 {
        push_decimal(out, n / 10);
    }
    let d = (n % 10) as u8;
    let c = (d + 48) as char;
    push_char(out, c);
    assert(old(out)@ + decimal(n as nat) =~= final(out)@) by {
        if n >= 10 {
            assert(decimal(n as nat) == decimal((n / 10) as nat).push(digit_char((n % 10) as nat)));
        }
    }
}

/// `i64::to_string`.
pub fn int_to_string(x: i64) -> (res: String)
    ensures
        res@ == int_text(x as int),
{
    let mut out = String::new();
    if x < 0 {
        push_char(&mut out, '-');
        let m = (-(x as i128)) as u64;
        push_decimal(&mut out, m);
    } else {
        push_decimal(&mut out, x as u64);
    }
    out
}

} // verus!

verus! {

/// What `find_from` finds is an occurrence, at or after the start, and the first one.
pub proof fn lemma_find_from_found(s: Seq<char>, pat: Seq<char>, k: int)
    requires
        0 <= k,
    ensures
        find_from(s, pat, k) matches Some(i) ==> k <= i && occurs_at(s, pat, i) && forall|j: int|
            k <= j < i ==> !occurs_at(s, pat, j),
        find_from(s, pat, k) is None ==> forall|j: int| k <= j ==> !occurs_at(s, pat, j),
    decreases s.len() + 1 - k,
{
    if k > s.len() || k + pat.len() > s.len() {
    } else if occurs_at(s, pat, k) {
    } else {
        lemma_find_from_found(s, pat, k + 1);
    }
}

/// The authority end lies within the text.
pub proof fn lemma_authority_end_bounds(s: Seq<char>, k: int)
    requires
        0 <= k,
    ensures
        k <= authority_end_from(s, k) <= s.len() || (k > s.len() && authority_end_from(s, k)
            == s.len()),
    decreases s.len() - k,
{
    if k < s.len() && !ends_authority(s[k]) {
        lemma_authority_end_bounds(s, k + 1);
    }
}

} // verus!

verus! {

proof fn lemma_trim_start_first(s: Seq<char>)
    ensures
        trim_start(s).len() <= s.len(),
        trim_start(s).len() > 0 ==> !is_white_space(trim_start(s)[0]),
    decreases s.len(),
{
    if s.len() > 0 && is_white_space(s[0]) {
        lemma_trim_start_first(s.drop_first());
    }
}

proof fn lemma_trim_end_prefix(s: Seq<char>)
    ensures
        trim_end(s).len() <= s.len(),
        trim_end(s) == s.take(trim_end(s).len() as int),
        trim_end(s).len() > 0 ==> !is_white_space(trim_end(s).last()),
    decreases s.len(),
{
    if s.len() > 0 && is_white_space(s.last()) {
        lemma_trim_end_prefix(s.drop_last());
        let t = trim_end(s.drop_last());
        assert(s.drop_last().take(t.len() as int) =~= s.take(t.len() as int));
    } else {
        assert(s.take(s.len() as int) =~= s);
    }
}

/// Trimmed text neither starts nor ends with white space.
pub proof fn lemma_trim_ends(s: Seq<char>)
    ensures
        spec_trim(s).len() > 0 ==> !is_white_space(spec_trim(s)[0]) && !is_white_space(
            spec_trim(s).last(),
        ),
{
    let t = trim_start(s);
    lemma_trim_start_first(s);
    lemma_trim_end_prefix(t);
    let u = trim_end(t);
    if u.len() > 0 {
        assert(u[0] == t.take(u.len() as int)[0]);
    }
}

/// Trimming twice is trimming once.
pub proof fn lemma_trim_idempotent(s: Seq<char>)
    ensures
        spec_trim(spec_trim(s)) == spec_trim(s),
{
    let u = spec_trim(s);
    lemma_trim_ends(s);
    if u.len() > 0 {
        assert(trim_start(u) == u);
        assert(trim_end(u) == u);
    } else {
        assert(trim_start(u) == u);
        assert(trim_end(u) == u);
    }
}

} // verus!

verus! {

/// Decimal notation is never empty and starts with a digit.
pub proof fn lemma_decimal_starts_with_digit(n: nat)
    ensures
        decimal(n).len() >= 1,
        '0' <= decimal(n)[0] <= '9',
    decreases n,
{
    if n >= 10 {
        lemma_decimal_starts_with_digit(n / 10);
    } else {
        assert(decimal(n)[0] == digit_char(n));
    }
}

} // verus!
