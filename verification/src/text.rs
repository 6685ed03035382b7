//! Character and string helpers that the domain rules are built from.
use vstd::prelude::*;

verus! {

/// The text that `str::to_lowercase` gives back for `s`.
pub uninterp spec fn lowercase_of(s: Seq<char>) -> Seq<char>;

/// Whether `c` lies in the ASCII range.
pub open spec fn is_ascii_char(c: char) -> bool {
    (c as u32) < 128
}

/// Whether every character of `s` lies in the ASCII range.
pub open spec fn all_ascii(s: Seq<char>) -> bool {
    forall|i: int| 0 <= i < s.len() ==> is_ascii_char(#[trigger] s[i])
}

/// ASCII lowercase mapping of one character.
pub open spec fn ascii_lower_char(c: char) -> char {
    if 'A' <= c && c <= 'Z' {
        ((c as u32) + 32) as char
    } else {
        c
    }
}

/// ASCII lowercase mapping of a whole text.
pub open spec fn ascii_lowercase(s: Seq<char>) -> Seq<char> {
    s.map_values(|c: char| ascii_lower_char(c))
}

/// Lowercases `s` with `str::to_lowercase`.
/// Trusted: the result is what `lowercase_of` names, and on ASCII input
/// `A`..=`Z` become `a`..=`z` while every other character stays.
#[verifier::external_body]
pub(crate) fn to_lowercase(s: &str) -> (r: String)
    ensures
        r@ == lowercase_of(s@),
        all_ascii(s@) ==> r@ == ascii_lowercase(s@),
{
    s.to_lowercase()
}

/// Compares two string slices with `str`'s `==`.
/// Trusted: the answer is whether both hold the same characters.
#[verifier::external_body]
pub(crate) fn str_eq(a: &str, b: &str) -> (r: bool)
    ensures
        r == (a@ == b@),
{
    a == b
}

/// Builds a `String` from characters with `String::from_iter`.
/// Trusted: the string holds exactly those characters, in order.
#[verifier::external_body]
pub(crate) fn string_from_chars(cs: &Vec<char>) -> (s: String)
    ensures
        s@ == cs@,
{
    String::from_iter(cs)
}

/// Owned copy of a string slice.
pub fn owned(s: &str) -> (r: String)
    ensures
        r@ == s@,
{
    s.to_owned()
}

} // verus!

verus! {

/// The value held by `o`, or `d` when there is none.
pub open spec fn or_else<T>(o: Option<T>, d: T) -> T {
    match o {
        Some(v) => v,
        None => d,
    }
}

/// A copy of an optional string.
pub fn clone_opt(o: &Option<String>) -> (r: Option<String>)
    ensures
        r == *o,
{
    match o {
        Some(s) => Some(s.clone()),
        None => None,
    }
}

/// The pieces of `parts` laid end to end with `sep` between neighbours.
pub open spec fn join_with(parts: Seq<Seq<char>>, sep: Seq<char>) -> Seq<char>
    decreases parts.len(),
{
    if parts.len() == 0 {
        Seq::empty()
    } else if parts.len() == 1 {
        parts[0]
    } else {
        join_with(parts.drop_last(), sep) + sep + parts.last()
    }
}

/// The character views of a list of strings.
pub open spec fn views(v: Seq<String>) -> Seq<Seq<char>> {
    v.map_values(|s: String| s@)
}

/// Joins strings with a separator, as `[String]::join` does.
pub fn join_strings(parts: &Vec<String>, sep: &str) -> (r: String)
    ensures
        r@ == join_with(views(parts@), sep@),
{
    let mut r = String::new();
    let n = parts.len();
    let mut i: usize = 0;
    while i < n
        invariant
            n == parts.len(),
            i <= n,
            r@ == join_with(views(parts@).take(i as int), sep@),
        decreases n - i,
    {
        let ghost before = views(parts@).take(i as int);
        let ghost after = views(parts@).take(i as int + 1);
        assert(after.drop_last() =~= before);
        assert(after.last() == parts@[i as int]@);
        if i > 0 {
            r.append(sep);
        }
        r.append(parts[i].as_str());
        proof {
            if i == 0 {
                assert(after.len() == 1);
            }
        }
        i = i + 1;
    }
    assert(views(parts@).take(n as int) =~= views(parts@));
    r
}

} // verus!

verus! {

/// The characters of a string slice, in order.
pub fn chars_of(s: &str) -> (v: Vec<char>)
    ensures
        v@ == s@,
{
    let mut v: Vec<char> = Vec::new();
    for c in it: s.chars()
        invariant
            v@ == it.seq().take(it.index() as int),
    {
        v.push(c);
    }
    v
}

} // verus!

verus! {

/// Whether `char::is_alphanumeric` holds of `c`.
pub uninterp spec fn alphanumeric(c: char) -> bool;

/// Whether `char::is_whitespace` holds of `c`.
pub uninterp spec fn whitespace(c: char) -> bool;

/// ASCII letters and digits.
pub open spec fn ascii_alphanumeric(c: char) -> bool {
    ('a' <= c && c <= 'z') || ('A' <= c && c <= 'Z') || ('0' <= c && c <= '9')
}

/// Tests a character with `char::is_alphanumeric`.
/// Trusted: the answer is what `alphanumeric` names; among ASCII characters
/// exactly the letters and digits are alphanumeric.
#[verifier::external_body]
pub(crate) fn is_alphanumeric(c: char) -> (b: bool)
    ensures
        b == alphanumeric(c),
        is_ascii_char(c) ==> (b <==> ascii_alphanumeric(c)),
{
    c.is_alphanumeric()
}

/// Tests a character with `char::is_whitespace`.
/// Trusted: the answer is what `whitespace` names; among ASCII characters
/// exactly the space and tab, line feed, vertical tab, form feed and carriage return are.
#[verifier::external_body]
pub(crate) fn is_whitespace(c: char) -> (b: bool)
    ensures
        b == whitespace(c),
        is_ascii_char(c) ==> (b <==> ascii_whitespace(c)),
{
    c.is_whitespace()
}

/// `s` without its leading whitespace.
pub open spec fn trim_start(s: Seq<char>) -> Seq<char>
    decreases s.len(),
{
    if s.len() > 0 && whitespace(s[0]) {
        trim_start(s.drop_first())
    } else {
        s
    }
}

/// `s` without its trailing whitespace.
pub open spec fn trim_end(s: Seq<char>) -> Seq<char>
    decreases s.len(),
{
    if s.len() > 0 && whitespace(s.last()) {
        trim_end(s.drop_last())
    } else {
        s
    }
}

/// `s` without leading and trailing whitespace, as `str::trim` gives it.
pub open spec fn trim(s: Seq<char>) -> Seq<char> {
    trim_end(trim_start(s))
}

/// The ASCII whitespace characters: space, tab, line feed, vertical tab, form
/// feed and carriage return.
pub open spec fn ascii_whitespace(c: char) -> bool {
    c == ' ' || ('\t' <= c && c <= '\r')
}

/// `s` without its leading ASCII whitespace.
pub open spec fn ascii_trim_start(s: Seq<char>) -> Seq<char>
    decreases s.len(),
{
    if s.len() > 0 && ascii_whitespace(s[0]) {
        ascii_trim_start(s.drop_first())
    } else {
        s
    }
}

/// `s` without its trailing ASCII whitespace.
pub open spec fn ascii_trim_end(s: Seq<char>) -> Seq<char>
    decreases s.len(),
{
    if s.len() > 0 && ascii_whitespace(s.last()) {
        ascii_trim_end(s.drop_last())
    } else {
        s
    }
}

/// `s` without leading and trailing ASCII whitespace: what `str::trim` gives
/// for an ASCII text.
pub open spec fn ascii_trim(s: Seq<char>) -> Seq<char> {
    ascii_trim_end(ascii_trim_start(s))
}

/// Trimming whitespace from the front after skipping `i` whitespace characters.
proof fn lemma_trim_start_skip(s: Seq<char>, i: int)
    requires
        0 <= i < s.len(),
        whitespace(s[i]),
    ensures
        trim_start(s.skip(i)) == trim_start(s.skip(i + 1)),
{
    assert(s.skip(i).drop_first() =~= s.skip(i + 1));
}

/// Trimming whitespace from the back after cutting at `j`.
proof fn lemma_trim_end_take(s: Seq<char>, j: int)
    requires
        0 < j <= s.len(),
        whitespace(s[j - 1]),
    ensures
        trim_end(s.take(j)) == trim_end(s.take(j - 1)),
{
    assert(s.take(j).drop_last() =~= s.take(j - 1));
}

/// Trimming ASCII whitespace from the front after skipping `i` such characters.
proof fn lemma_ascii_trim_start_skip(s: Seq<char>, i: int)
    requires
        0 <= i < s.len(),
        ascii_whitespace(s[i]),
    ensures
        ascii_trim_start(s.skip(i)) == ascii_trim_start(s.skip(i + 1)),
{
    assert(s.skip(i).drop_first() =~= s.skip(i + 1));
}

/// Trimming ASCII whitespace from the back after cutting at `j`.
proof fn lemma_ascii_trim_end_take(s: Seq<char>, j: int)
    requires
        0 < j <= s.len(),
        ascii_whitespace(s[j - 1]),
    ensures
        ascii_trim_end(s.take(j)) == ascii_trim_end(s.take(j - 1)),
{
    assert(s.take(j).drop_last() =~= s.take(j - 1));
}

/// The characters of `s` without leading and trailing whitespace.
pub fn trim_chars(s: &Vec<char>, from: usize, to: usize) -> (r: Vec<char>)
    requires
        from <= to <= s.len(),
    ensures
        r@ == trim(s@.subrange(from as int, to as int)),
        all_ascii(s@.subrange(from as int, to as int)) ==> r@ == ascii_trim(
            s@.subrange(from as int, to as int),
        ),
{
    let ghost t = s@.subrange(from as int, to as int);
    let mut a: usize = from;
    assert(t.skip(0) =~= t);
    while a < to && is_whitespace(s[a])
        invariant
            from <= a <= to <= s.len(),
            t == s@.subrange(from as int, to as int),
            trim_start(t) == trim_start(t.skip(a - from)),
            all_ascii(t) ==> ascii_trim_start(t) == ascii_trim_start(t.skip(a - from)),
        decreases to - a,
    {
        proof {
            lemma_trim_start_skip(t, a - from);
            if all_ascii(t) {
                assert(t[a - from] == s[a as int]);
                assert(is_ascii_char(t[a - from]));
                lemma_ascii_trim_start_skip(t, a - from);
            }
        }
        a = a + 1;
    }
    let ghost u = t.skip(a - from);
    assert(trim_start(t) == u) by {
        if u.len() > 0 {
            assert(u[0] == s[a as int]);
        }
    }
    assert(all_ascii(t) ==> ascii_trim_start(t) == u) by {
        if all_ascii(t) && u.len() > 0 {
            assert(u[0] == s[a as int]);
            assert(u[0] == t[a - from]);
            assert(is_ascii_char(t[a - from]));
        }
    }
    let mut b: usize = to;
    assert(u.take(b - a) =~= u);
    while b > a && is_whitespace(s[b - 1])
        invariant
            from <= a <= b <= to <= s.len(),
            t == s@.subrange(from as int, to as int),
            u == t.skip(a - from),
            u =~= s@.subrange(a as int, to as int),
            trim_end(u) == trim_end(u.take(b - a)),
            all_ascii(t) ==> ascii_trim_end(u) == ascii_trim_end(u.take(b - a)),
        decreases b - a,
    {
        proof {
            lemma_trim_end_take(u, b - a);
            if all_ascii(t) {
                assert(u[b - a - 1] == s[b - 1]);
                assert(u[b - a - 1] == t[b - 1 - from]);
                assert(is_ascii_char(t[b - 1 - from]));
                lemma_ascii_trim_end_take(u, b - a);
            }
        }
        b = b - 1;
    }
    let ghost w = u.take(b - a);
    assert(trim_end(u) == w) by {
        if w.len() > 0 {
            assert(w.last() == s[b - 1]);
        }
    }
    assert(all_ascii(t) ==> ascii_trim_end(u) == w) by {
        if all_ascii(t) && w.len() > 0 {
            assert(w.last() == s[b - 1]);
            assert(w.last() == t[b - 1 - from]);
            assert(is_ascii_char(t[b - 1 - from]));
        }
    }
    let mut r: Vec<char> = Vec::new();
    let mut k: usize = a;
    while k < b
        invariant
            a <= k <= b <= s.len(),
            r@ == s@.subrange(a as int, k as int),
        decreases b - k,
    {
        r.push(s[k]);
        assert(r@ =~= s@.subrange(a as int, k + 1));
        k = k + 1;
    }
    assert(w =~= s@.subrange(a as int, b as int));
    r
}

/// The pieces of `s` between the occurrences of `sep`, as `str::split` yields them:
/// always at least one piece, an empty one for each pair of adjacent separators.
pub open spec fn split_on(s: Seq<char>, sep: char) -> Seq<Seq<char>>
    decreases s.len(),
{
    if s.len() == 0 {
        seq![Seq::empty()]
    } else {
        let before = split_on(s.drop_last(), sep);
        if s.last() == sep {
            before.push(Seq::empty())
        } else {
            before.update(before.len() - 1, before.last().push(s.last()))
        }
    }
}

/// Splitting always yields at least one piece.
pub proof fn lemma_split_nonempty(s: Seq<char>, sep: char)
    ensures
        split_on(s, sep).len() >= 1,
    decreases s.len(),
{
    if s.len() > 0 {
        lemma_split_nonempty(s.drop_last(), sep);
    }
}

/// Splits `s` at each `sep` and trims every piece of surrounding whitespace.
pub fn split_trimmed(s: &str, sep: char) -> (r: Vec<String>)
    ensures
        views(r@) == split_on(s@, sep).map_values(|p: Seq<char>| trim(p)),
        all_ascii(s@) ==> views(r@) == split_on(s@, sep).map_values(|p: Seq<char>| ascii_trim(p)),
{
    let cs = chars_of(s);
    let n = cs.len();
    let mut done: Vec<String> = Vec::new();
    let mut start: usize = 0;
    let mut i: usize = 0;
    while i < n
        invariant
            n == cs.len(),
            cs@ == s@,
            start <= i <= n,
            split_on(cs@.take(i as int), sep).len() == done@.len() + 1,
            split_on(cs@.take(i as int), sep).last() == cs@.subrange(start as int, i as int),
            views(done@) == split_on(cs@.take(i as int), sep).drop_last().map_values(
                |p: Seq<char>| trim(p),
            ),
            all_ascii(s@) ==> views(done@) == split_on(cs@.take(i as int), sep).drop_last().map_values(
                |p: Seq<char>| ascii_trim(p),
            ),
        decreases n - i,
    {
        let ghost before = split_on(cs@.take(i as int), sep);
        assert(cs@.take(i + 1).drop_last() =~= cs@.take(i as int));
        assert(cs@.take(i + 1).last() == cs[i as int]);
        if cs[i] == sep {
            let piece = trim_chars(&cs, start, i);
            let ghost old_done = done@;
            let text = string_from_chars(&piece);
            done.push(text);
            proof {
                let after = split_on(cs@.take(i + 1), sep);
                lemma_split_nonempty(cs@.take(i as int), sep);
                assert(after == before.push(Seq::empty()));
                assert(after.drop_last() =~= before);
                assert(views(done@) =~= views(old_done).push(text@));
                assert(before =~= before.drop_last().push(before.last()));
                assert(views(done@) =~= after.drop_last().map_values(|p: Seq<char>| trim(p)));
                if all_ascii(s@) {
                    assert(all_ascii(cs@.subrange(start as int, i as int))) by {
                        assert forall|k: int| 0 <= k < i - start implies is_ascii_char(
                            #[trigger] cs@.subrange(start as int, i as int)[k],
                        ) by {
                            assert(cs@.subrange(start as int, i as int)[k] == s@[start + k]);
                        }
                    }
                    assert(views(done@) =~= after.drop_last().map_values(
                        |p: Seq<char>| ascii_trim(p),
                    ));
                }
                assert(cs@.subrange(i + 1, i + 1) =~= Seq::<char>::empty());
            }
            start = i + 1;
        } else {
            proof {
                let after = split_on(cs@.take(i + 1), sep);
                lemma_split_nonempty(cs@.take(i as int), sep);
                assert(after.drop_last() =~= before.drop_last());
                assert(after.last() =~= cs@.subrange(start as int, i + 1));
            }
        }
        i = i + 1;
    }
    let piece = trim_chars(&cs, start, n);
    let ghost old_done = done@;
    let text = string_from_chars(&piece);
    done.push(text);
    proof {
        let all = split_on(cs@.take(n as int), sep);
        assert(views(done@) =~= views(old_done).push(text@));
        assert(cs@.take(n as int) =~= s@);
        assert(all =~= all.drop_last().push(all.last()));
        assert(views(done@) =~= all.map_values(|p: Seq<char>| trim(p)));
        if all_ascii(s@) {
            assert(all_ascii(cs@.subrange(start as int, n as int))) by {
                assert forall|k: int| 0 <= k < n - start implies is_ascii_char(
                    #[trigger] cs@.subrange(start as int, n as int)[k],
                ) by {
                    assert(cs@.subrange(start as int, n as int)[k] == s@[start + k]);
                }
            }
            assert(views(done@) =~= all.map_values(|p: Seq<char>| ascii_trim(p)));
        }
    }
    done
}

} // verus!

verus! {

/// The number of characters before the first `-` of `t` (all of them if there is none).
pub open spec fn word_len(t: Seq<char>) -> nat
    decreases t.len(),
{
    if t.len() == 0 || t[0] == '-' {
        0
    } else {
        1 + word_len(t.drop_first())
    }
}

/// A word is never longer than the text, holds no `-`, and is ended by one or by the text's end.
pub proof fn lemma_word_len(t: Seq<char>)
    ensures
        word_len(t) <= t.len(),
        forall|i: int| 0 <= i < word_len(t) ==> t[i] != '-',
        word_len(t) < t.len() ==> t[word_len(t) as int] == '-',
        t.len() > 0 && t[0] != '-' ==> word_len(t) >= 1,
    decreases t.len(),
{
    if t.len() > 0 && t[0] != '-' {
        lemma_word_len(t.drop_first());
        assert forall|i: int| 0 <= i < word_len(t) implies t[i] != '-' by {
            if i > 0 {
                assert(t[i] == t.drop_first()[i - 1]);
            }
        }
    }
}

/// `a` and `b` joined by a single `-`, or whichever of them is not empty.
pub open spec fn dash_join(a: Seq<char>, b: Seq<char>) -> Seq<char> {
    if a.len() == 0 {
        b
    } else if b.len() == 0 {
        a
    } else {
        a + seq!['-'] + b
    }
}

/// The non-empty runs of `t` between dashes, joined by single dashes: what
/// splitting at `-`, dropping empty pieces and joining with `-` gives.
pub open spec fn squash(t: Seq<char>) -> Seq<char>
    decreases t.len(),
{
    if t.len() == 0 {
        Seq::empty()
    } else if t[0] == '-' {
        squash(t.drop_first())
    } else {
        let w = word_len(t);
        proof {
            lemma_word_len(t);
        }
        dash_join(t.take(w as int), squash(t.skip(w as int)))
    }
}

/// Joining is associative when the middle piece is not empty.
proof fn lemma_dash_join_assoc(a: Seq<char>, w: Seq<char>, b: Seq<char>)
    requires
        w.len() > 0,
    ensures
        dash_join(a, dash_join(w, b)) == dash_join(dash_join(a, w), b),
{
    if a.len() > 0 && b.len() > 0 {
        assert(a + seq!['-'] + (w + seq!['-'] + b) =~= (a + seq!['-'] + w) + seq!['-'] + b);
    }
}

/// Collapses each run of `-` in `t` to one and drops those at both ends.
pub fn squash_dashes(t: &Vec<char>) -> (r: Vec<char>)
    ensures
        r@ == squash(t@),
{
    let n = t.len();
    let mut out: Vec<char> = Vec::new();
    let mut i: usize = 0;
    assert(t@.skip(0) =~= t@);
    while i < n
        invariant
            n == t.len(),
            i <= n,
            squash(t@) == dash_join(out@, squash(t@.skip(i as int))),
        decreases n - i,
    {
        let ghost rest = t@.skip(i as int);
        if t[i] == '-' {
            assert(rest.drop_first() =~= t@.skip(i + 1));
            i = i + 1;
        } else {
            let start = i;
            assert(t@.skip(start as int).skip(0) =~= t@.skip(start as int));
            while i < n && t[i] != '-'
                invariant
                    n == t.len(),
                    start <= i <= n,
                    forall|k: int| start <= k < i ==> t[k] != '-',
                    word_len(t@.skip(start as int)) == (i - start) + word_len(t@.skip(i as int)),
                decreases n - i,
            {
                assert(t@.skip(i as int).drop_first() =~= t@.skip(i + 1));
                i = i + 1;
            }
            let ghost w = t@.subrange(start as int, i as int);
            proof {
                lemma_word_len(rest);
                assert(rest.take(word_len(rest) as int) =~= w);
                assert(rest.skip(word_len(rest) as int) =~= t@.skip(i as int));
                lemma_dash_join_assoc(out@, w, squash(t@.skip(i as int)));
            }
            let ghost before = out@;
            if out.len() > 0 {
                out.push('-');
            }
            let mut k: usize = start;
            while k < i
                invariant
                    start <= k <= i <= n,
                    n == t.len(),
                    out@ == (if before.len() > 0 {
                        before + seq!['-']
                    } else {
                        before
                    }) + t@.subrange(start as int, k as int),
                decreases i - k,
            {
                out.push(t[k]);
                assert(t@.subrange(start as int, k + 1) =~= t@.subrange(start as int, k as int).push(t[k as int]));
                k = k + 1;
            }
            assert(out@ =~= dash_join(before, w));
        }
    }
    assert(t@.skip(n as int) =~= Seq::<char>::empty());
    out
}

} // verus!

verus! {

/// The character of a decimal digit.
pub open spec fn digit_char(d: int) -> char {
    (48 + d) as char
}

/// The decimal digits of a natural number, most significant first.
pub open spec fn decimal_digits(n: nat) -> Seq<char>
    decreases n,
{
    if n < 10 {
        seq![digit_char(n as int)]
    } else {
        decimal_digits(n / 10).push(digit_char((n % 10) as int))
    }
}

/// An integer written in decimal, with a leading `-` when it is negative.
pub open spec fn decimal(n: int) -> Seq<char> {
    if n < 0 {
        seq!['-'] + decimal_digits((-n) as nat)
    } else {
        decimal_digits(n as nat)
    }
}

/// Appends the decimal digits of `n`.
fn push_digits(n: u64, out: &mut Vec<char>)
    ensures
        final(out)@ == old(out)@ + decimal_digits(n as nat),
    decreases n,
{
    if n >= 10 {
        push_digits(n / 10, out);
    }
    let d = n % 10;
    let c = if d == 0 {
        '0'
    } else if d == 1 {
        '1'
    } else if d == 2 {
        '2'
    } else if d == 3 {
        '3'
    } else if d == 4 {
        '4'
    } else if d == 5 {
        '5'
    } else if d == 6 {
        '6'
    } else if d == 7 {
        '7'
    } else if d == 8 {
        '8'
    } else {
        '9'
    };
    out.push(c);
    assert(out@ =~= old(out)@ + decimal_digits(n as nat));
}

/// A 32-bit integer written in decimal, as its `Display` writes it.
pub fn i32_to_string(n: i32) -> (s: String)
    ensures
        s@ == decimal(n as int),
{
    let mut out: Vec<char> = Vec::new();
    let magnitude: u64 = if n < 0 {
        out.push('-');
        (-(n as i64)) as u64
    } else {
        n as u64
    };
    push_digits(magnitude, &mut out);
    string_from_chars(&out)
}

} // verus!

verus! {

/// Text without the separator is a single piece.
pub proof fn lemma_split_without_sep(s: Seq<char>, sep: char)
    requires
        !s.contains(sep),
    ensures
        split_on(s, sep) == seq![s],
    decreases s.len(),
{
    if s.len() > 0 {
        let p = s.drop_last();
        assert(!p.contains(sep)) by {
            if p.contains(sep) {
                let k = choose|k: int| 0 <= k < p.len() && p[k] == sep;
                assert(s[k] == sep);
            }
        }
        lemma_split_without_sep(p, sep);
        assert(s.last() != sep) by {
            assert(s[s.len() - 1] == s.last());
        }
        assert(p.push(s.last()) =~= s);
        assert(split_on(s, sep) =~= seq![s]);
    } else {
        assert(s =~= Seq::<char>::empty());
    }
}

/// Splitting at a separator between two texts splits each side on its own.
pub proof fn lemma_split_concat(x: Seq<char>, y: Seq<char>, sep: char)
    ensures
        split_on(x + seq![sep] + y, sep) == split_on(x, sep) + split_on(y, sep),
    decreases y.len(),
{
    let xs = x + seq![sep];
    if y.len() == 0 {
        assert(xs + y =~= xs);
        assert(xs.drop_last() =~= x);
        assert(split_on(x, sep).push(Seq::empty()) =~= split_on(x, sep) + split_on(y, sep));
    } else {
        let y0 = y.drop_last();
        lemma_split_concat(x, y0, sep);
        lemma_split_nonempty(y0, sep);
        assert((xs + y).drop_last() =~= xs + y0);
        assert((xs + y).last() == y.last());
        let a = split_on(x, sep);
        let b = split_on(y0, sep);
        if y.last() == sep {
            assert((a + b).push(Seq::empty()) =~= a + b.push(Seq::empty()));
        } else {
            let ab = a + b;
            assert(ab.update(ab.len() - 1, ab.last().push(y.last())) =~= a + b.update(
                b.len() - 1,
                b.last().push(y.last()),
            ));
        }
    }
}

/// Splitting joined pieces at their separator gives the pieces back, when there
/// is at least one and none holds the separator.
pub proof fn lemma_split_join(parts: Seq<Seq<char>>, sep: char)
    requires
        parts.len() >= 1,
        forall|i: int| 0 <= i < parts.len() ==> !(#[trigger] parts[i]).contains(sep),
    ensures
        split_on(join_with(parts, seq![sep]), sep) == parts,
    decreases parts.len(),
{
    if parts.len() == 1 {
        lemma_split_without_sep(parts[0], sep);
        assert(seq![parts[0]] =~= parts);
    } else {
        let init = parts.drop_last();
        assert forall|i: int| 0 <= i < init.len() implies !(#[trigger] init[i]).contains(sep) by {
            assert(init[i] == parts[i]);
        }
        lemma_split_join(init, sep);
        assert(!parts.last().contains(sep)) by {
            assert(parts[parts.len() - 1] == parts.last());
        }
        lemma_split_without_sep(parts.last(), sep);
        lemma_split_concat(join_with(init, seq![sep]), parts.last(), sep);
        assert(init + seq![parts.last()] =~= parts);
    }
}

/// Whether `s` could be a slug: it neither starts nor ends with `-` and never
/// has two dashes in a row.
pub open spec fn well_formed_slug(s: Seq<char>) -> bool {
    &&& s.len() > 0 ==> s[0] != '-' && s.last() != '-'
    &&& forall|i: int| 0 <= i < s.len() - 1 ==> !(#[trigger] s[i] == '-' && s[i + 1] == '-')
}

/// Whether every character of `s` is a character of `t` or a dash.
pub open spec fn drawn_from(s: Seq<char>, t: Seq<char>) -> bool {
    forall|i: int| 0 <= i < s.len() ==> #[trigger] s[i] == '-' || t.contains(s[i])
}

/// Squashing dashes leaves a well-formed slug made of the text's own characters.
pub proof fn lemma_squash_well_formed(t: Seq<char>)
    ensures
        well_formed_slug(squash(t)),
        drawn_from(squash(t), t),
    decreases t.len(),
{
    if t.len() == 0 {
    } else if t[0] == '-' {
        lemma_squash_well_formed(t.drop_first());
        let s = squash(t);
        assert forall|i: int| 0 <= i < s.len() implies #[trigger] s[i] == '-' || t.contains(s[i]) by {
            if s[i] != '-' {
                let k = choose|k: int| 0 <= k < t.drop_first().len() && t.drop_first()[k] == s[i];
                assert(t[k + 1] == s[i]);
            }
        }
    } else {
        lemma_word_len(t);
        let w = word_len(t) as int;
        let word = t.take(w);
        let rest_t = t.skip(w);
        lemma_squash_well_formed(rest_t);
        let rest = squash(rest_t);
        let s = squash(t);
        assert(s == dash_join(word, rest));
        assert forall|i: int| 0 <= i < s.len() implies #[trigger] s[i] == '-' || t.contains(s[i]) by {
            if i < w {
                assert(s[i] == t[i]);
            } else if i > w {
                assert(s[i] == rest[i - w - 1]);
                if rest[i - w - 1] != '-' {
                    let k = choose|k: int| 0 <= k < rest_t.len() && rest_t[k] == rest[i - w - 1];
                    assert(t[k + w] == rest_t[k]);
                }
            }
        }
        if rest.len() == 0 {
            assert(s =~= word);
        } else {
            assert(s =~= word + seq!['-'] + rest);
            assert(s.last() == rest.last());
            assert forall|i: int| 0 <= i < s.len() - 1 implies !(#[trigger] s[i] == '-' && s[i + 1]
                == '-') by {
                if i < w - 1 {
                    assert(s[i] == t[i]);
                } else if i == w - 1 {
                    assert(s[i] == t[i]);
                } else if i == w {
                    assert(s[i + 1] == rest[0]);
                } else {
                    assert(s[i] == rest[i - w - 1]);
                    assert(s[i + 1] == rest[i - w]);
                }
            }
        }
    }
}

} // verus!

verus! {

/// Whether a piece between dashes holds anything.
pub open spec fn is_run() -> spec_fn(Seq<char>) -> bool {
    |p: Seq<char>| p.len() > 0
}

/// The non-empty pieces of `t` between dashes.
pub open spec fn dash_runs(t: Seq<char>) -> Seq<Seq<char>> {
    split_on(t, '-').filter(is_run())
}

/// Joining a first piece in front of others.
proof fn lemma_join_prepend(w: Seq<char>, ps: Seq<Seq<char>>, sep: Seq<char>)
    ensures
        join_with(seq![w] + ps, sep) == (if ps.len() == 0 {
            w
        } else {
            w + sep + join_with(ps, sep)
        }),
    decreases ps.len(),
{
    let all = seq![w] + ps;
    if ps.len() == 0 {
        assert(all =~= seq![w]);
    } else if ps.len() == 1 {
        assert(all.drop_last() =~= seq![w]);
        assert(all.last() == ps[0]);
        assert(join_with(seq![w], sep) == w);
        assert(join_with(all, sep) == join_with(all.drop_last(), sep) + sep + all.last());
    } else {
        lemma_join_prepend(w, ps.drop_last(), sep);
        assert(all.drop_last() =~= seq![w] + ps.drop_last());
        assert(all.last() == ps.last());
        assert(join_with(all, sep) == join_with(all.drop_last(), sep) + sep + all.last());
        assert(join_with(ps, sep) == join_with(ps.drop_last(), sep) + sep + ps.last());
        assert(w + sep + join_with(ps.drop_last(), sep) + sep + ps.last() =~= w + sep + (join_with(
            ps.drop_last(),
            sep,
        ) + sep + ps.last()));
    }
}

/// Pieces that all hold something join to something.
proof fn lemma_join_nonempty(ps: Seq<Seq<char>>, sep: Seq<char>)
    requires
        ps.len() > 0,
        forall|i: int| 0 <= i < ps.len() ==> (#[trigger] ps[i]).len() > 0,
    ensures
        join_with(ps, sep).len() > 0,
{
    if ps.len() > 1 {
        assert(ps.last() == ps[ps.len() - 1]);
    }
}

/// Collapsing dashes is the same as splitting at `-`, keeping the non-empty
/// pieces and joining them with single dashes.
pub proof fn lemma_squash_joins_runs(t: Seq<char>)
    ensures
        squash(t) == join_with(dash_runs(t), seq!['-']),
    decreases t.len(),
{
    let e = Seq::<char>::empty();
    if t.len() == 0 {
        assert(split_on(t, '-') == seq![e]);
        assert(seq![e] =~= seq![e] + Seq::<Seq<char>>::empty());
        Seq::<Seq<char>>::empty().lemma_filter_prepend(e, is_run());
        reveal(Seq::filter);
        assert(dash_runs(t) =~= Seq::<Seq<char>>::empty());
    } else if t[0] == '-' {
        let r = t.drop_first();
        lemma_squash_joins_runs(r);
        assert(e + seq!['-'] + r =~= t);
        lemma_split_concat(e, r, '-');
        assert(split_on(e, '-') == seq![e]);
        split_on(r, '-').lemma_filter_prepend(e, is_run());
        assert(dash_runs(t) =~= dash_runs(r));
    } else {
        lemma_word_len(t);
        let w = word_len(t) as int;
        let word = t.take(w);
        assert(!word.contains('-')) by {
            if word.contains('-') {
                let k = choose|k: int| 0 <= k < word.len() && word[k] == '-';
                assert(t[k] == '-');
            }
        }
        lemma_split_without_sep(word, '-');
        if w == t.len() {
            assert(word =~= t);
            assert(t.skip(w) =~= e);
            assert(squash(t) == dash_join(word, squash(e)));
            assert(seq![t] =~= seq![t] + Seq::<Seq<char>>::empty());
            Seq::<Seq<char>>::empty().lemma_filter_prepend(t, is_run());
            reveal(Seq::filter);
            assert(dash_runs(t) =~= seq![t]);
        } else {
            let rest = t.skip(w + 1);
            assert(word + seq!['-'] + rest =~= t);
            lemma_split_concat(word, rest, '-');
            split_on(rest, '-').lemma_filter_prepend(word, is_run());
            assert(dash_runs(t) =~= seq![word] + dash_runs(rest));
            lemma_squash_joins_runs(rest);
            assert(t.skip(w)[0] == '-');
            assert(t.skip(w).drop_first() =~= rest);
            assert(squash(t.skip(w)) == squash(rest));
            assert(squash(t) == dash_join(word, squash(t.skip(w))));
            lemma_join_prepend(word, dash_runs(rest), seq!['-']);
            if dash_runs(rest).len() > 0 {
                assert forall|i: int| 0 <= i < dash_runs(rest).len() implies (
                #[trigger] dash_runs(rest)[i]).len() > 0 by {
                    split_on(rest, '-').lemma_filter_pred(is_run(), i);
                }
                lemma_join_nonempty(dash_runs(rest), seq!['-']);
            }
        }
    }
}

} // verus!

verus! {

/// A text that already is a well-formed slug is left as it is by collapsing dashes.
pub proof fn lemma_squash_keeps_slug(s: Seq<char>)
    requires
        well_formed_slug(s),
    ensures
        squash(s) == s,
    decreases s.len(),
{
    if s.len() > 0 {
        assert(s[0] != '-');
        lemma_word_len(s);
        let w = word_len(s) as int;
        assert(w >= 1);
        assert(squash(s) == dash_join(s.take(w), squash(s.skip(w))));
        if w == s.len() {
            assert(s.take(w) =~= s);
            assert(s.skip(w) =~= Seq::<char>::empty());
            assert(squash(Seq::<char>::empty()) == Seq::<char>::empty());
        } else {
            let rest = s.skip(w + 1);
            assert(s.skip(w)[0] == '-');
            assert(s.skip(w).drop_first() =~= rest);
            assert(squash(s.skip(w)) == squash(rest));
            assert(s[w] == '-');
            assert(w + 1 < s.len()) by {
                if w + 1 >= s.len() {
                    assert(s.last() == s[w]);
                }
            }
            assert(!(s[w] == '-' && s[w + 1] == '-'));
            assert(well_formed_slug(rest)) by {
                assert(rest[0] == s[w + 1]);
                assert(rest.last() == s.last());
                assert forall|i: int| 0 <= i < rest.len() - 1 implies !(#[trigger] rest[i] == '-'
                    && rest[i + 1] == '-') by {
                    assert(rest[i] == s[w + 1 + i]);
                    assert(rest[i + 1] == s[w + 1 + i + 1]);
                }
            }
            lemma_squash_keeps_slug(rest);
            assert(rest.len() > 0);
            assert(s.take(w).len() > 0);
            assert(s.take(w) + seq!['-'] + rest =~= s);
        }
    }
}

/// ASCII uppercase mapping of one character.
pub open spec fn ascii_upper_char(c: char) -> char {
    if 'a' <= c && c <= 'z' {
        ((c as u32) - 32) as char
    } else {
        c
    }
}

/// ASCII uppercase mapping of a whole text.
pub open spec fn ascii_uppercase(s: Seq<char>) -> Seq<char> {
    s.map_values(|c: char| ascii_upper_char(c))
}

/// Uppercasing an ASCII text keeps it ASCII and does not change its lowercase form.
pub proof fn lemma_lowercase_of_uppercase(s: Seq<char>)
    requires
        all_ascii(s),
    ensures
        all_ascii(ascii_uppercase(s)),
        ascii_lowercase(ascii_uppercase(s)) == ascii_lowercase(s),
{
    assert forall|i: int| 0 <= i < s.len() implies is_ascii_char(#[trigger] ascii_uppercase(s)[i])
        && ascii_lower_char(ascii_upper_char(s[i])) == ascii_lower_char(s[i]) by {
        let c = s[i];
        assert(is_ascii_char(c));
    }
    assert(ascii_lowercase(ascii_uppercase(s)) =~= ascii_lowercase(s));
}

} // verus!

verus! {

/// Collapsing dashes leaves nothing exactly when the text is all dashes.
pub proof fn lemma_squash_empty(t: Seq<char>)
    ensures
        squash(t).len() == 0 <==> forall|i: int| 0 <= i < t.len() ==> t[i] == '-',
    decreases t.len(),
{
    if t.len() > 0 {
        if t[0] == '-' {
            lemma_squash_empty(t.drop_first());
            if forall|i: int| 0 <= i < t.drop_first().len() ==> t.drop_first()[i] == '-' {
                assert forall|i: int| 0 <= i < t.len() implies t[i] == '-' by {
                    if i > 0 {
                        assert(t[i] == t.drop_first()[i - 1]);
                    }
                }
            } else {
                let k = choose|k: int| 0 <= k < t.drop_first().len() && t.drop_first()[k] != '-';
                assert(t[k + 1] != '-');
            }
        } else {
            lemma_word_len(t);
            let w = word_len(t) as int;
            assert(squash(t) == dash_join(t.take(w), squash(t.skip(w))));
            assert(t.take(w).len() > 0);
        }
    }
}

} // verus!
