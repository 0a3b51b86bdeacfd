use vstd::prelude::*;

verus! {

/// `s` with every leading `/` removed.
pub open spec fn trim_start_slashes(s: Seq<char>) -> Seq<char>
    decreases s.len(),
{
    if s.len() > 0 && s[0] == '/' {
        trim_start_slashes(s.drop_first())
    } else {
        s
    }
}

/// `s` with every trailing `/` removed.
pub open spec fn trim_end_slashes(s: Seq<char>) -> Seq<char>
    decreases s.len(),
{
    if s.len() > 0 && s.last() == '/' {
        trim_end_slashes(s.drop_last())
    } else {
        s
    }
}

/// `s` with every leading and trailing `/` removed.
pub open spec fn trim_slashes(s: Seq<char>) -> Seq<char> {
    trim_end_slashes(trim_start_slashes(s))
}

proof fn lemma_trim_start_from(s: Seq<char>, i: int)
    requires
        0 <= i < s.len(),
        forall|j: int| 0 <= j < i ==> s[j] == '/',
    ensures
        trim_start_slashes(s) == trim_start_slashes(s.subrange(i, s.len() as int)),
    decreases i,
{
    if i > 0 {
        assert(s.drop_first().subrange(i - 1, s.len() - 1) =~= s.subrange(i, s.len() as int));
        lemma_trim_start_from(s.drop_first(), i - 1);
    } else {
        assert(s.subrange(0, s.len() as int) =~= s);
    }
}

proof fn lemma_trim_end_to(s: Seq<char>, k: int)
    requires
        0 <= k <= s.len(),
        forall|j: int| k <= j < s.len() ==> s[j] == '/',
    ensures
        trim_end_slashes(s) == trim_end_slashes(s.subrange(0, k)),
    decreases s.len() - k,
{
    if k < s.len() {
        assert(s.drop_last().subrange(0, k) =~= s.subrange(0, k));
        lemma_trim_end_to(s.drop_last(), k);
    } else {
        assert(s.subrange(0, k) =~= s);
    }
}

/// Index of the first character of `s` that is not `/`, or the length of `s`.
fn skip_leading_slashes(s: &str) -> (r: usize)
    requires
        s@.len() < usize::MAX,
    ensures
        r <= s@.len(),
        s@.subrange(r as int, s@.len() as int) == trim_start_slashes(s@),
{
    let n = s.unicode_len();
    let mut i: usize = 0;
    while i < n && s.get_char(i) == '/'
        invariant
            n == s@.len(),
            i <= n,
            forall|j: int| 0 <= j < i ==> s@[j] == '/',
        decreases n - i,
    {
        i = i + 1;
    }
    proof {
        if i < n {
            lemma_trim_start_from(s@, i as int);
            assert(s@.subrange(i as int, n as int)[0] == s@[i as int]);
        } else {
            lemma_trim_start_from_all(s@);
            assert(s@.subrange(i as int, n as int) =~= Seq::<char>::empty());
        }
    }
    i
}

proof fn lemma_trim_start_from_all(s: Seq<char>)
    requires
        forall|j: int| 0 <= j < s.len() ==> s[j] == '/',
    ensures
        trim_start_slashes(s) == Seq::<char>::empty(),
    decreases s.len(),
{
    if s.len() > 0 {
        lemma_trim_start_from_all(s.drop_first());
    } else {
        assert(s =~= Seq::<char>::empty());
    }
}

/// Index just past the last character of `s[from..]` that is not `/`, or `from`.
fn skip_trailing_slashes(s: &str, from: usize) -> (r: usize)
    requires
        from <= s@.len() < usize::MAX,
    ensures
        from <= r <= s@.len(),
        s@.subrange(from as int, r as int) == trim_end_slashes(
            s@.subrange(from as int, s@.len() as int),
        ),
{
    let n = s.unicode_len();
    let mut k: usize = n;
    while k > from && s.get_char(k - 1) == '/'
        invariant
            n == s@.len(),
            from <= k <= n,
            forall|j: int| k <= j < n ==> s@[j] == '/',
        decreases k,
    {
        k = k - 1;
    }
    proof {
        let t = s@.subrange(from as int, n as int);
        lemma_trim_end_to(t, k - from);
        assert(t.subrange(0, k - from) =~= s@.subrange(from as int, k as int));
        if k > from {
            let u = s@.subrange(from as int, k as int);
            assert(u.last() == s@[k - 1]);
        } else {
            assert(s@.subrange(from as int, k as int) =~= Seq::<char>::empty());
        }
    }
    k
}

/// Removes every leading and trailing `/` of `s`.
pub fn trim_slashes_of(s: &str) -> (r: &str)
    requires
        s@.len() < usize::MAX,
    ensures
        r@ == trim_slashes(s@),
{
    let a = skip_leading_slashes(s);
    let b = skip_trailing_slashes(s, a);
    s.substring_char(a, b)
}

/// Removes every leading `/` of `s`.
pub fn trim_start_slashes_of(s: &str) -> (r: &str)
    requires
        s@.len() < usize::MAX,
    ensures
        r@ == trim_start_slashes(s@),
{
    let a = skip_leading_slashes(s);
    let n = s.unicode_len();
    s.substring_char(a, n)
}

/// The ASCII lowercase of one character: `A` to `Z` become `a` to `z`, every
/// other character stays.
pub open spec fn ascii_lower_char(c: char) -> char {
    if 'A' <= c && c <= 'Z' {
        ((c as u32) + 32) as char
    } else {
        c
    }
}

/// The ASCII lowercase of a text, character by character.
pub open spec fn ascii_lower(s: Seq<char>) -> Seq<char> {
    s.map_values(|c: char| ascii_lower_char(c))
}

/// Relies on `str::to_ascii_lowercase`: ASCII letters are mapped to lowercase,
/// every other character is unchanged.
#[verifier::external_body]
pub(crate) fn to_ascii_lower(s: &str) -> (r: String)
    ensures
        r@ == ascii_lower(s@),
{
    s.to_ascii_lowercase()
}

/// Whether two texts are equal.
pub fn text_eq(a: &str, b: &str) -> (r: bool)
    ensures
        r == (a@ == b@),
{
    let n = a.unicode_len();
    let m = b.unicode_len();
    if n != m {
        return false;
    }
    let mut i: usize = 0;
    while i < n
        invariant
            n == a@.len(),
            m == b@.len(),
            n == m,
            i <= n,
            forall|j: int| 0 <= j < i ==> a@[j] == b@[j],
        decreases n - i,
    {
        if a.get_char(i) != b.get_char(i) {
            return false;
        }
        i = i + 1;
    }
    assert(a@ =~= b@);
    true
}

} // verus!
