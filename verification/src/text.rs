//! Character-level text utilities with exact specifications.

use vstd::prelude::*;

verus! {

/// The Unicode `White_Space` property: the 25 code points that
/// `char::is_whitespace` accepts.
pub open spec fn is_ws(c: char) -> bool {
    let u = c as u32;
    ||| 0x09 <= u <= 0x0d
    ||| u == 0x20
    ||| u == 0x85
    ||| u == 0xa0
    ||| u == 0x1680
    ||| 0x2000 <= u <= 0x200a
    ||| u == 0x2028
    ||| u == 0x2029
    ||| u == 0x202f
    ||| u == 0x205f
    ||| u == 0x3000
}

/// Whether `c` has the Unicode `White_Space` property (what
/// `char::is_whitespace` answers).
pub fn char_is_whitespace(c: char) -> (r: bool)
    ensures
        r == is_ws(c),
{
    let u = c as u32;
    (0x09 <= u && u <= 0x0d) || u == 0x20 || u == 0x85 || u == 0xa0 || u == 0x1680 || (0x2000 <= u
        && u <= 0x200a) || u == 0x2028 || u == 0x2029 || u == 0x202f || u == 0x205f || u == 0x3000
}

/// `String::push`: appends one character to the end of the string.
#[verifier::external_body]
pub fn push_char(s: &mut String, c: char)
    ensures
        final(s)@ == old(s)@.push(c),
{
    s.push(c)
}


/// `i` is the position of the first `c` in `s`.
pub open spec fn is_first_at(s: Seq<char>, c: char, i: int) -> bool {
    &&& 0 <= i < s.len()
    &&& s[i] == c
    &&& forall|j: int| 0 <= j < i ==> s[j] != c
}

/// `i` is the position of the last `c` in `s`.
pub open spec fn is_last_at(s: Seq<char>, c: char, i: int) -> bool {
    &&& 0 <= i < s.len()
    &&& s[i] == c
    &&& forall|j: int| i < j < s.len() ==> s[j] != c
}

/// Position of the first `c` in `s`.
pub open spec fn first_index(s: Seq<char>, c: char) -> Option<int> {
    if exists|i: int| is_first_at(s, c, i) {
        Some(choose|i: int| is_first_at(s, c, i))
    } else {
        None
    }
}

/// Position of the last `c` in `s`.
pub open spec fn last_index(s: Seq<char>, c: char) -> Option<int> {
    if exists|i: int| is_last_at(s, c, i) {
        Some(choose|i: int| is_last_at(s, c, i))
    } else {
        None
    }
}

/// `str::split_once`: the parts before and after the first `c`.
pub open spec fn split_once(s: Seq<char>, c: char) -> Option<(Seq<char>, Seq<char>)> {
    match first_index(s, c) {
        Some(i) => Some((s.take(i), s.skip(i + 1))),
        None => None,
    }
}

/// `str::rsplit_once`: the parts before and after the last `c`.
pub open spec fn rsplit_once(s: Seq<char>, c: char) -> Option<(Seq<char>, Seq<char>)> {
    match last_index(s, c) {
        Some(i) => Some((s.take(i), s.skip(i + 1))),
        None => None,
    }
}

/// `s` without its leading characters that satisfy `p`.
pub open spec fn drop_front_while(s: Seq<char>, p: spec_fn(char) -> bool) -> Seq<char>
    decreases s.len(),
{
    if s.len() > 0 && p(s[0]) {
        drop_front_while(s.drop_first(), p)
    } else {
        s
    }
}

/// `s` without its trailing characters that satisfy `p`.
pub open spec fn drop_back_while(s: Seq<char>, p: spec_fn(char) -> bool) -> Seq<char>
    decreases s.len(),
{
    if s.len() > 0 && p(s.last()) {
        drop_back_while(s.drop_last(), p)
    } else {
        s
    }
}

/// Whitespace, as a predicate.
pub open spec fn ws_pred() -> spec_fn(char) -> bool {
    |x: char| is_ws(x)
}

/// Being the character `c`, as a predicate.
pub open spec fn char_pred(c: char) -> spec_fn(char) -> bool {
    |x: char| x == c
}

/// `str::trim`: `s` without leading and trailing whitespace.
pub open spec fn trim(s: Seq<char>) -> Seq<char> {
    drop_back_while(drop_front_while(s, ws_pred()), ws_pred())
}

/// `str::trim_end_matches` with a single character.
pub open spec fn trim_end_char(s: Seq<char>, c: char) -> Seq<char> {
    drop_back_while(s, char_pred(c))
}

/// Whether `s` holds only whitespace (or nothing).
pub open spec fn is_blank(s: Seq<char>) -> bool {
    forall|i: int| 0 <= i < s.len() ==> is_ws(#[trigger] s[i])
}

/// `str::split` by one character: the pieces between the separators, in
/// order; there is always one more piece than separators.
pub open spec fn split(s: Seq<char>, c: char) -> Seq<Seq<char>>
    decreases s.len(),
{
    if s.len() == 0 {
        seq![Seq::<char>::empty()]
    } else {
        let pieces = split(s.drop_last(), c);
        if s.last() == c {
            pieces.push(Seq::<char>::empty())
        } else {
            pieces.update(pieces.len() - 1, pieces.last().push(s.last()))
        }
    }
}

/// The maximal runs of non-whitespace characters of `s`, in order
/// (`str::split_whitespace`).
pub open spec fn words(s: Seq<char>) -> Seq<Seq<char>>
    decreases s.len(),
{
    if s.len() == 0 {
        Seq::<Seq<char>>::empty()
    } else {
        let prefix = s.drop_last();
        let ws = words(prefix);
        if is_ws(s.last()) {
            ws
        } else if prefix.len() == 0 || is_ws(prefix.last()) {
            ws.push(seq![s.last()])
        } else {
            ws.update(ws.len() - 1, ws.last().push(s.last()))
        }
    }
}

/// The pieces of `list`, with `sep` between each two of them.
pub open spec fn join(list: Seq<Seq<char>>, sep: Seq<char>) -> Seq<char>
    decreases list.len(),
{
    if list.len() == 0 {
        Seq::<char>::empty()
    } else if list.len() == 1 {
        list[0]
    } else {
        join(list.drop_last(), sep) + sep + list.last()
    }
}

/// The decimal digit for `d < 10`.
pub open spec fn digit_char(d: nat) -> char {
    if d == 0 {
        '0'
    } else if d == 1 {
        '1'
    } else if d == 2 {
        '2'
    } else if d == 3 {
        '3'
    } else if d == 4 {
        '4'
    } else if d == 5 {
        '5'
    } else if d == 6 {
        '6'
    } else if d == 7 {
        '7'
    } else if d == 8 {
        '8'
    } else {
        '9'
    }
}

/// The decimal representation of `n`, without sign or leading zeros
/// (what `to_string` gives for an unsigned integer).
pub open spec fn decimal(n: nat) -> Seq<char>
    decreases n,
{
    if n < 10 {
        seq![digit_char(n)]
    } else {
        decimal(n / 10).push(digit_char(n % 10))
    }
}

pub proof fn lemma_first_index(s: Seq<char>, c: char, i: int)
    requires
        is_first_at(s, c, i),
    ensures
        first_index(s, c) == Some(i),
{
    let k = choose|k: int| is_first_at(s, c, k);
    assert(k == i) by {
        if k < i {
            assert(s[k] != c);
        } else if k > i {
            assert(s[i] != c);
        }
    }
}

pub proof fn lemma_last_index(s: Seq<char>, c: char, i: int)
    requires
        is_last_at(s, c, i),
    ensures
        last_index(s, c) == Some(i),
{
    let k = choose|k: int| is_last_at(s, c, k);
    assert(k == i) by {
        if k < i {
            assert(s[i] != c);
        } else if k > i {
            assert(s[k] != c);
        }
    }
}

/// `first_index` is `None` exactly when `c` does not occur.
pub proof fn lemma_first_index_none(s: Seq<char>, c: char)
    ensures
        first_index(s, c) is None <==> forall|j: int| 0 <= j < s.len() ==> s[j] != c,
    decreases s.len(),
{
    if s.len() > 0 {
        let t = s.drop_last();
        lemma_first_index_none(t, c);
        if first_index(t, c) is Some {
            let i = first_index(t, c)->0;
            assert(is_first_at(t, c, i));
            assert forall|j: int| 0 <= j <= i implies t[j] == s[j] by {}
            assert(is_first_at(s, c, i));
        } else if s.last() == c {
            assert(is_first_at(s, c, s.len() - 1)) by {
                assert forall|j: int| 0 <= j < s.len() - 1 implies s[j] != c by {
                    assert(t[j] == s[j]);
                }
            }
        } else {
            assert forall|j: int| 0 <= j < s.len() implies s[j] != c by {
                if j < s.len() - 1 {
                    assert(t[j] == s[j]);
                }
            }
        }
    }
}

/// `last_index` is `None` exactly when `c` does not occur.
pub proof fn lemma_last_index_none(s: Seq<char>, c: char)
    ensures
        last_index(s, c) is None <==> forall|j: int| 0 <= j < s.len() ==> s[j] != c,
    decreases s.len(),
{
    if s.len() > 0 {
        let t = s.drop_first();
        lemma_last_index_none(t, c);
        if last_index(t, c) is Some {
            let i = last_index(t, c)->0;
            assert(is_last_at(t, c, i));
            assert(is_last_at(s, c, i + 1)) by {
                assert forall|j: int| i + 1 < j < s.len() implies s[j] != c by {
                    assert(t[j - 1] == s[j]);
                }
            }
        } else if s[0] == c {
            assert(is_last_at(s, c, 0)) by {
                assert forall|j: int| 0 < j < s.len() implies s[j] != c by {
                    assert(t[j - 1] == s[j]);
                }
            }
        } else {
            assert forall|j: int| 0 <= j < s.len() implies s[j] != c by {
                if j > 0 {
                    assert(t[j - 1] == s[j]);
                }
            }
        }
    }
}

/// A prefix of `k` characters that all satisfy `p`, followed by one that
/// does not (or the end), is what `drop_front_while` removes.
pub proof fn lemma_drop_front_while(s: Seq<char>, p: spec_fn(char) -> bool, k: int)
    requires
        0 <= k <= s.len(),
        forall|j: int| 0 <= j < k ==> p(s[j]),
        k == s.len() || !p(s[k]),
    ensures
        drop_front_while(s, p) == s.skip(k),
    decreases k,
{
    if k > 0 {
        let t = s.drop_first();
        assert forall|j: int| 0 <= j < k - 1 implies p(t[j]) by {
            assert(t[j] == s[j + 1]);
        }
        if k - 1 < t.len() {
            assert(t[k - 1] == s[k]);
        }
        lemma_drop_front_while(t, p, k - 1);
        assert(t.skip(k - 1) =~= s.skip(k));
    } else {
        assert(s.skip(0) =~= s);
    }
}

/// A suffix from `k` on whose characters all satisfy `p`, preceded by one
/// that does not (or the start), is what `drop_back_while` removes.
pub proof fn lemma_drop_back_while(s: Seq<char>, p: spec_fn(char) -> bool, k: int)
    requires
        0 <= k <= s.len(),
        forall|j: int| k <= j < s.len() ==> p(s[j]),
        k == 0 || !p(s[k - 1]),
    ensures
        drop_back_while(s, p) == s.take(k),
    decreases s.len() - k,
{
    if k < s.len() {
        let t = s.drop_last();
        assert forall|j: int| k <= j < t.len() implies p(t[j]) by {
            assert(t[j] == s[j]);
        }
        if k > 0 {
            assert(t[k - 1] == s[k - 1]);
        }
        lemma_drop_back_while(t, p, k);
        assert(t.take(k) =~= s.take(k));
    } else {
        assert(s.take(k) =~= s);
    }
}

/// The characters of a string slice, in order.
pub fn chars_of(s: &str) -> (v: Vec<char>)
    ensures
        v@ == s@,
{
    broadcast use vstd::string::group_string_axioms;

    let mut v: Vec<char> = Vec::new();
    for c in it: s.chars()
        invariant
            v@ == it.seq().take(it.index()),
    {
        v.push(c);
    }
    v
}

/// The string made of the characters of `v`.
pub fn string_of(v: &[char]) -> (s: String)
    ensures
        s@ == v@,
{
    let mut s = String::new();
    let mut i: usize = 0;
    while i < v.len()
        invariant
            i <= v.len(),
            s@ == v@.take(i as int),
        decreases v.len() - i,
    {
        push_char(&mut s, v[i]);
        assert(v@.take(i as int).push(v@[i as int]) =~= v@.take(i + 1));
        i = i + 1;
    }
    assert(v@.take(v.len() as int) =~= v@);
    s
}

/// Whether two character sequences are equal.
pub fn chars_eq(a: &[char], b: &[char]) -> (r: bool)
    ensures
        r == (a@ == b@),
{
    if a.len() != b.len() {
        return false;
    }
    let mut i: usize = 0;
    while i < a.len()
        invariant
            a.len() == b.len(),
            i <= a.len(),
            forall|j: int| 0 <= j < i ==> a@[j] == b@[j],
        decreases a.len() - i,
    {
        if a[i] != b[i] {
            return false;
        }
        i = i + 1;
    }
    assert(a@ =~= b@);
    true
}

/// Whether the characters of `a` are those of the string `b`.
pub fn chars_eq_str(a: &[char], b: &str) -> (r: bool)
    ensures
        r == (a@ == b@),
{
    let bv = chars_of(b);
    chars_eq(a, bv.as_slice())
}

/// Whether `a` starts with the characters of `prefix`.
pub fn starts_with(a: &[char], prefix: &str) -> (r: bool)
    ensures
        r == (prefix@.len() <= a@.len() && a@.take(prefix@.len() as int) == prefix@),
{
    let p = chars_of(prefix);
    if p.len() > a.len() {
        return false;
    }
    let mut i: usize = 0;
    while i < p.len()
        invariant
            p.len() <= a.len(),
            p@ == prefix@,
            i <= p.len(),
            forall|j: int| 0 <= j < i ==> a@[j] == p@[j],
        decreases p.len() - i,
    {
        if a[i] != p[i] {
            assert(a@.take(p.len() as int)[i as int] != p@[i as int]);
            return false;
        }
        i = i + 1;
    }
    assert(a@.take(p.len() as int) =~= p@);
    true
}

/// The characters of `v` from `start` up to (not including) `end`.
pub fn slice_chars(v: &[char], start: usize, end: usize) -> (r: Vec<char>)
    requires
        start <= end <= v.len(),
    ensures
        r@ == v@.subrange(start as int, end as int),
{
    let mut r: Vec<char> = Vec::new();
    let mut i = start;
    while i < end
        invariant
            start <= i <= end <= v.len(),
            r@ == v@.subrange(start as int, i as int),
        decreases end - i,
    {
        r.push(v[i]);
        assert(v@.subrange(start as int, i as int).push(v@[i as int]) =~= v@.subrange(
            start as int,
            i + 1,
        ));
        i = i + 1;
    }
    r
}

/// Position of the first `c` in `v`.
pub fn find_char(v: &[char], c: char) -> (r: Option<usize>)
    ensures
        match r {
            Some(i) => i < v@.len() && first_index(v@, c) == Some(i as int),
            None => first_index(v@, c) is None,
        },
{
    let mut i: usize = 0;
    while i < v.len()
        invariant
            i <= v.len(),
            forall|j: int| 0 <= j < i ==> v@[j] != c,
        decreases v.len() - i,
    {
        if v[i] == c {
            proof {
                lemma_first_index(v@, c, i as int);
            }
            return Some(i);
        }
        i = i + 1;
    }
    proof {
        lemma_first_index_none(v@, c);
    }
    None
}

/// Position of the last `c` in `v`.
pub fn rfind_char(v: &[char], c: char) -> (r: Option<usize>)
    ensures
        match r {
            Some(i) => i < v@.len() && last_index(v@, c) == Some(i as int),
            None => last_index(v@, c) is None,
        },
{
    let mut i: usize = v.len();
    while i > 0
        invariant
            i <= v.len(),
            forall|j: int| i <= j < v.len() ==> v@[j] != c,
        decreases i,
    {
        if v[i - 1] == c {
            proof {
                lemma_last_index(v@, c, i - 1);
            }
            return Some(i - 1);
        }
        i = i - 1;
    }
    proof {
        lemma_last_index_none(v@, c);
    }
    None
}

/// `str::split_once` on characters.
pub fn split_once_chars(v: &[char], c: char) -> (r: Option<(Vec<char>, Vec<char>)>)
    ensures
        match r {
            Some((a, b)) => split_once(v@, c) == Some((a@, b@)),
            None => split_once(v@, c) is None,
        },
{
    let n = v.len();
    let found = find_char(v, c);
    match found {
        Some(i) => {
            let a = slice_chars(v, 0, i);
            let b = slice_chars(v, i + 1, n);
            assert(a@ =~= v@.take(i as int));
            assert(b@ =~= v@.skip(i + 1));
            Some((a, b))
        },
        None => None,
    }
}

/// `str::rsplit_once` on characters.
pub fn rsplit_once_chars(v: &[char], c: char) -> (r: Option<(Vec<char>, Vec<char>)>)
    ensures
        match r {
            Some((a, b)) => rsplit_once(v@, c) == Some((a@, b@)),
            None => rsplit_once(v@, c) is None,
        },
{
    let n = v.len();
    let found = rfind_char(v, c);
    match found {
        Some(i) => {
            let a = slice_chars(v, 0, i);
            let b = slice_chars(v, i + 1, n);
            assert(a@ =~= v@.take(i as int));
            assert(b@ =~= v@.skip(i + 1));
            Some((a, b))
        },
        None => None,
    }
}

/// `str::trim` on characters.
pub fn trim_chars(v: &[char]) -> (r: Vec<char>)
    ensures
        r@ == trim(v@),
{
    let ghost p = ws_pred();
    let mut a: usize = 0;
    while a < v.len() && char_is_whitespace(v[a])
        invariant
            a <= v.len(),
            forall|j: int| 0 <= j < a ==> is_ws(v@[j]),
        decreases v.len() - a,
    {
        a = a + 1;
    }
    proof {
        lemma_drop_front_while(v@, p, a as int);
    }
    let mut b: usize = v.len();
    while b > a && char_is_whitespace(v[b - 1])
        invariant
            a <= b <= v.len(),
            forall|j: int| b <= j < v.len() ==> is_ws(v@[j]),
        decreases b,
    {
        b = b - 1;
    }
    let r = slice_chars(v, a, b);
    proof {
        let t = v@.skip(a as int);
        assert forall|j: int| b - a <= j < t.len() implies p(t[j]) by {
            assert(t[j] == v@[j + a]);
        }
        if b > a {
            assert(t[b - a - 1] == v@[b - 1]);
        }
        lemma_drop_back_while(t, p, b - a);
        assert(t.take(b - a) =~= v@.subrange(a as int, b as int));
    }
    r
}

/// `str::trim_end_matches` with a single character, on characters.
pub fn trim_end_char_chars(v: &[char], c: char) -> (r: Vec<char>)
    ensures
        r@ == trim_end_char(v@, c),
{
    let ghost p = char_pred(c);
    let mut b: usize = v.len();
    while b > 0 && v[b - 1] == c
        invariant
            b <= v.len(),
            forall|j: int| b <= j < v.len() ==> v@[j] == c,
        decreases b,
    {
        b = b - 1;
    }
    proof {
        lemma_drop_back_while(v@, p, b as int);
        assert(v@.take(b as int) =~= v@.subrange(0, b as int));
    }
    slice_chars(v, 0, b)
}

/// Whether `v` holds only whitespace.
pub fn is_blank_chars(v: &[char]) -> (r: bool)
    ensures
        r == is_blank(v@),
{
    let mut i: usize = 0;
    while i < v.len()
        invariant
            i <= v.len(),
            forall|j: int| 0 <= j < i ==> is_ws(v@[j]),
        decreases v.len() - i,
    {
        if !char_is_whitespace(v[i]) {
            return false;
        }
        i = i + 1;
    }
    true
}

/// `str::split` by one character, on characters.
pub fn split_chars(v: &[char], c: char) -> (r: Vec<Vec<char>>)
    ensures
        r@.len() == split(v@, c).len(),
        forall|i: int| 0 <= i < r@.len() ==> #[trigger] r@[i]@ == split(v@, c)[i],
{
    let mut pieces: Vec<Vec<char>> = Vec::new();
    let mut cur: Vec<char> = Vec::new();
    let mut i: usize = 0;
    assert(split(v@.take(0), c) =~= seq![Seq::<char>::empty()]);
    while i < v.len()
        invariant
            i <= v.len(),
            pieces@.len() + 1 == split(v@.take(i as int), c).len(),
            forall|k: int|
                0 <= k < pieces@.len() ==> #[trigger] pieces@[k]@ == split(v@.take(i as int), c)[k],
            cur@ == split(v@.take(i as int), c).last(),
        decreases v.len() - i,
    {
        let ghost before = v@.take(i as int);
        let ghost after = v@.take(i + 1);
        assert(after.drop_last() =~= before);
        assert(after.last() == v@[i as int]);
        if v[i] == c {
            let done = cur;
            pieces.push(done);
            cur = Vec::new();
        } else {
            cur.push(v[i]);
        }
        i = i + 1;
    }
    assert(v@.take(v.len() as int) =~= v@);
    pieces.push(cur);
    pieces
}

proof fn lemma_join_push(list: Seq<Seq<char>>, sep: Seq<char>, w: Seq<char>)
    requires
        list.len() > 0,
    ensures
        join(list.push(w), sep) == join(list, sep) + sep + w,
{
    assert(list.push(w).drop_last() =~= list);
}

proof fn lemma_join_extend_last(list: Seq<Seq<char>>, sep: Seq<char>, c: char)
    requires
        list.len() > 0,
    ensures
        join(list.update(list.len() - 1, list.last().push(c)), sep) == join(list, sep).push(c),
{
    let l2 = list.update(list.len() - 1, list.last().push(c));
    if list.len() == 1 {
    } else {
        assert(l2.drop_last() =~= list.drop_last());
        assert((join(list.drop_last(), sep) + sep + list.last()).push(c) =~= join(
            list.drop_last(),
            sep,
        ) + sep + list.last().push(c));
    }
}

proof fn lemma_words_nonempty(s: Seq<char>)
    requires
        s.len() > 0,
        !is_ws(s.last()),
    ensures
        words(s).len() > 0,
    decreases s.len(),
{
    let prefix = s.drop_last();
    if prefix.len() > 0 && !is_ws(prefix.last()) {
        lemma_words_nonempty(prefix);
    }
}

/// The whitespace-separated words of `s`, joined by single spaces: what
/// `s.split_whitespace().collect::<Vec<_>>().join(" ")` gives.
pub fn normalize_whitespace(s: &str) -> (r: String)
    ensures
        r@ == join(words(s@), seq![' ']),
{
    let v = chars_of(s);
    let mut out = String::new();
    let mut i: usize = 0;
    let mut have_word = false;
    let ghost sep = seq![' '];
    while i < v.len()
        invariant
            i <= v.len(),
            v@ == s@,
            sep == seq![' '],
            have_word == (words(v@.take(i as int)).len() > 0),
            out@ == join(words(v@.take(i as int)), sep),
        decreases v.len() - i,
    {
        let c = v[i];
        let ghost before = v@.take(i as int);
        let ghost after = v@.take(i + 1);
        proof {
            assert(after.drop_last() =~= before);
            assert(after.last() == c);
        }
        if !char_is_whitespace(c) {
            if i > 0 && !char_is_whitespace(v[i - 1]) {
                proof {
                    assert(before.last() == v@[i - 1]);
                    lemma_words_nonempty(before);
                    lemma_join_extend_last(words(before), sep, c);
                }
                push_char(&mut out, c);
            } else {
                if i > 0 {
                    assert(before.last() == v@[i - 1]);
                }
                if have_word {
                    push_char(&mut out, ' ');
                    proof {
                        assert(words(before).len() > 0);
                        lemma_join_push(words(before), sep, seq![c]);
                        assert(join(words(before), sep).push(' ').push(c) =~= join(
                            words(before),
                            sep,
                        ) + sep + seq![c]);
                    }
                } else {
                    proof {
                        assert(words(before).push(seq![c]) =~= seq![seq![c]]);
                        assert(out@.push(c) =~= seq![c]);
                    }
                }
                push_char(&mut out, c);
                have_word = true;
            }
        }
        i = i + 1;
    }
    assert(v@.take(v.len() as int) =~= v@);
    out
}

fn digit(d: u64) -> (c: char)
    requires
        d < 10,
    ensures
        c == digit_char(d as nat),
{
    if d == 0 {
        '0'
    } else if d == 1 {
        '1'
    } else if d == 2 {
        '2'
    } else if d == 3 {
        '3'
    } else if d == 4 {
        '4'
    } else if d == 5 {
        '5'
    } else if d == 6 {
        '6'
    } else if d == 7 {
        '7'
    } else if d == 8 {
        '8'
    } else {
        '9'
    }
}

/// The decimal representation of `n` (`n.to_string()`).
pub fn decimal_string(n: u64) -> (r: String)
    ensures
        r@ == decimal(n as nat),
    decreases n,
{
    if n < 10 {
        let mut s = String::new();
        push_char(&mut s, digit(n));
        assert(s@ =~= seq![digit_char(n as nat)]);
        s
    } else {
        let mut s = decimal_string(n / 10);
        push_char(&mut s, digit(n % 10));
        s
    }
}

/// The leading characters of `s` that satisfy `p`.
pub open spec fn take_front_while(s: Seq<char>, p: spec_fn(char) -> bool) -> Seq<char>
    decreases s.len(),
{
    if s.len() > 0 && p(s[0]) {
        seq![s[0]] + take_front_while(s.drop_first(), p)
    } else {
        Seq::<char>::empty()
    }
}

/// Not whitespace, as a predicate.
pub open spec fn non_ws_pred() -> spec_fn(char) -> bool {
    |x: char| !is_ws(x)
}

/// The first whitespace-separated word of `s`
/// (`s.split_whitespace().next()`).
pub open spec fn first_word(s: Seq<char>) -> Option<Seq<char>> {
    let t = drop_front_while(s, ws_pred());
    if t.len() == 0 {
        None
    } else {
        Some(take_front_while(t, non_ws_pred()))
    }
}

/// A prefix of `k` characters that all satisfy `p`, followed by one that
/// does not (or the end), is what `take_front_while` keeps.
pub proof fn lemma_take_front_while(s: Seq<char>, p: spec_fn(char) -> bool, k: int)
    requires
        0 <= k <= s.len(),
        forall|j: int| 0 <= j < k ==> p(s[j]),
        k == s.len() || !p(s[k]),
    ensures
        take_front_while(s, p) == s.take(k),
    decreases k,
{
    if k > 0 {
        let t = s.drop_first();
        assert forall|j: int| 0 <= j < k - 1 implies p(t[j]) by {
            assert(t[j] == s[j + 1]);
        }
        if k - 1 < t.len() {
            assert(t[k - 1] == s[k]);
        }
        lemma_take_front_while(t, p, k - 1);
        assert(seq![s[0]] + t.take(k - 1) =~= s.take(k));
    } else {
        assert(s.take(0) =~= Seq::<char>::empty());
    }
}

/// The first whitespace-separated word of `v`.
pub fn first_word_chars(v: &[char]) -> (r: Option<Vec<char>>)
    ensures
        match r {
            Some(w) => first_word(v@) == Some(w@),
            None => first_word(v@) is None,
        },
{
    let mut a: usize = 0;
    while a < v.len() && char_is_whitespace(v[a])
        invariant
            a <= v.len(),
            forall|j: int| 0 <= j < a ==> is_ws(v@[j]),
        decreases v.len() - a,
    {
        a = a + 1;
    }
    proof {
        lemma_drop_front_while(v@, ws_pred(), a as int);
    }
    if a == v.len() {
        return None;
    }
    let mut b: usize = a;
    while b < v.len() && !char_is_whitespace(v[b])
        invariant
            a <= b <= v.len(),
            forall|j: int| a <= j < b ==> !is_ws(v@[j]),
        decreases v.len() - b,
    {
        b = b + 1;
    }
    let w = slice_chars(v, a, b);
    proof {
        let t = v@.skip(a as int);
        assert forall|j: int| 0 <= j < b - a implies non_ws_pred()(t[j]) by {
            assert(t[j] == v@[j + a]);
        }
        if b < v.len() {
            assert(t[b - a] == v@[b as int]);
        }
        lemma_take_front_while(t, non_ws_pred(), b - a);
        assert(t.take(b - a) =~= v@.subrange(a as int, b as int));
    }
    Some(w)
}

/// Each word is non-empty and holds no whitespace.
pub open spec fn proper_words(list: Seq<Seq<char>>) -> bool {
    forall|i: int|
        0 <= i < list.len() ==> (#[trigger] list[i]).len() > 0 && forall|j: int|
            0 <= j < list[i].len() ==> !is_ws(list[i][j])
}

/// The words of any text are non-empty and hold no whitespace.
pub proof fn lemma_words_proper(s: Seq<char>)
    ensures
        proper_words(words(s)),
    decreases s.len(),
{
    if s.len() > 0 {
        lemma_words_proper(s.drop_last());
        let ws = words(s.drop_last());
        if !is_ws(s.last()) {
            if s.drop_last().len() == 0 || is_ws(s.drop_last().last()) {
                let w2 = ws.push(seq![s.last()]);
                assert forall|i: int| 0 <= i < w2.len() implies (#[trigger] w2[i]).len() > 0
                    && forall|j: int| 0 <= j < w2[i].len() ==> !is_ws(w2[i][j]) by {
                    if i < ws.len() {
                        assert(w2[i] == ws[i]);
                    }
                }
            } else {
                lemma_words_nonempty(s.drop_last());
                let w2 = ws.update(ws.len() - 1, ws.last().push(s.last()));
                assert forall|i: int| 0 <= i < w2.len() implies (#[trigger] w2[i]).len() > 0
                    && forall|j: int| 0 <= j < w2[i].len() ==> !is_ws(w2[i][j]) by {
                    if i < ws.len() - 1 {
                        assert(w2[i] == ws[i]);
                    } else {
                        assert(w2[i] == ws[i].push(s.last()));
                        assert forall|j: int| 0 <= j < w2[i].len() implies !is_ws(w2[i][j]) by {
                            if j < ws[i].len() {
                                assert(w2[i][j] == ws[i][j]);
                            }
                        }
                    }
                }
            }
        }
    }
}

/// Appending a space and then a word `w` (non-empty, no whitespace) to a
/// text whose words are `words(a)` adds `w` as a last word.
proof fn lemma_words_append_word(a: Seq<char>, w: Seq<char>, k: int)
    requires
        0 < k <= w.len(),
        forall|j: int| 0 <= j < w.len() ==> !is_ws(w[j]),
    ensures
        words(a + seq![' '] + w.take(k)) == words(a).push(w.take(k)),
    decreases k,
{
    let s = a + seq![' '] + w.take(k);
    assert(s.last() == w[k - 1]);
    if k == 1 {
        assert(s.drop_last() =~= a + seq![' ']);
        assert((a + seq![' ']).drop_last() =~= a);
        assert(is_ws(' '));
        assert(words(a + seq![' ']) == words(a));
        assert(w.take(1) =~= seq![w[0]]);
    } else {
        assert(s.drop_last() =~= a + seq![' '] + w.take(k - 1));
        lemma_words_append_word(a, w, k - 1);
        assert(s.drop_last().last() == w[k - 2]);
        let ws = words(a).push(w.take(k - 1));
        assert(w.take(k - 1).push(w[k - 1]) =~= w.take(k));
        assert(ws.update(ws.len() - 1, ws.last().push(w[k - 1])) =~= words(a).push(w.take(k)));
    }
}

/// A word alone is its only word.
proof fn lemma_words_single(w: Seq<char>, k: int)
    requires
        0 < k <= w.len(),
        forall|j: int| 0 <= j < w.len() ==> !is_ws(w[j]),
    ensures
        words(w.take(k)) == seq![w.take(k)],
    decreases k,
{
    let s = w.take(k);
    if k == 1 {
        assert(s.drop_last() =~= Seq::<char>::empty());
        assert(s =~= seq![w[0]]);
        assert(s.last() == w[0]);
        assert(words(s.drop_last()) =~= Seq::<Seq<char>>::empty());
        assert(Seq::<Seq<char>>::empty().push(seq![w[0]]) =~= seq![s]);
    } else {
        assert(s.drop_last() =~= w.take(k - 1));
        lemma_words_single(w, k - 1);
        assert(s.drop_last().last() == w[k - 2]);
        assert(w.take(k - 1).push(w[k - 1]) =~= w.take(k));
        assert(seq![w.take(k - 1)].update(0, w.take(k - 1).push(w[k - 1])) =~= seq![w.take(k)]);
    }
}

/// Proper words joined by single spaces split back into the same words.
pub proof fn lemma_words_of_join(list: Seq<Seq<char>>)
    requires
        proper_words(list),
    ensures
        words(join(list, seq![' '])) == list,
    decreases list.len(),
{
    if list.len() == 0 {
        assert(words(Seq::<char>::empty()) =~= list);
    } else if list.len() == 1 {
        let w = list[0];
        assert(w.len() > 0);
        lemma_words_single(w, w.len() as int);
        assert(w.take(w.len() as int) =~= w);
        assert(seq![w] =~= list);
    } else {
        let init = list.drop_last();
        let w = list.last();
        assert(proper_words(init)) by {
            assert forall|i: int| 0 <= i < init.len() implies (#[trigger] init[i]).len() > 0
                && forall|j: int| 0 <= j < init[i].len() ==> !is_ws(init[i][j]) by {
                assert(init[i] == list[i]);
            }
        }
        assert(w == list[list.len() - 1]);
        lemma_words_of_join(init);
        lemma_words_append_word(join(init, seq![' ']), w, w.len() as int);
        assert(w.take(w.len() as int) =~= w);
        assert(init.push(w) =~= list);
    }
}

/// Normalising whitespace twice gives what normalising once gives.
pub proof fn lemma_normalize_idempotent(s: Seq<char>)
    ensures
        join(words(join(words(s), seq![' '])), seq![' ']) == join(words(s), seq![' ']),
{
    lemma_words_proper(s);
    lemma_words_of_join(words(s));
}

} // verus!
