//! The text the views compose: counts, lists, trimmed input and search terms.

use vstd::prelude::*;

verus! {

/// The digits of `n` in base ten, most significant first.
pub open spec fn dec(n: nat) -> Seq<char>
    decreases n,
{
    if n < 10 {
        seq![digit(n)]
    } else {
        dec(n / 10).push(digit(n % 10))
    }
}

/// The decimal digit that stands for `d`.
pub open spec fn digit(d: nat) -> char {
    if d == 0 {
        '0'
    } else if d == 1 {
        '1'
    } else if d == 2 {
        '2'
    } else if d == 3 {
        '3'
    } else if d == 4 {
        '4'
    } else if d == 5 {
        '5'
    } else if d == 6 {
        '6'
    } else if d == 7 {
        '7'
    } else if d == 8 {
        '8'
    } else {
        '9'
    }
}

fn digit_text(d: u64) -> (r: &'static str)
    requires
        d < 10,
    ensures
        r@ == seq![digit(d as nat)],
{
    proof {
        reveal_strlit("0");
        reveal_strlit("1");
        reveal_strlit("2");
        reveal_strlit("3");
        reveal_strlit("4");
        reveal_strlit("5");
        reveal_strlit("6");
        reveal_strlit("7");
        reveal_strlit("8");
        reveal_strlit("9");
    }
    let r = if d == 0 {
        "0"
    } else if d == 1 {
        "1"
    } else if d == 2 {
        "2"
    } else if d == 3 {
        "3"
    } else if d == 4 {
        "4"
    } else if d == 5 {
        "5"
    } else if d == 6 {
        "6"
    } else if d == 7 {
        "7"
    } else if d == 8 {
        "8"
    } else {
        "9"
    };
    assert(r@ =~= seq![digit(d as nat)]);
    r
}

/// `n` written in base ten.
pub fn decimal(n: u64) -> (r: String)
    ensures
        r@ == dec(n as nat),
    decreases n,
{
    if n < 10 {
        digit_text(n).to_owned()
    } else {
        let mut s = decimal(n / 10);
        s.append(digit_text(n % 10));
        assert(s@ =~= dec(n as nat));
        s
    }
}

/// `n`, a count of things in memory, written in base ten.
pub fn count_text(n: usize) -> (r: String)
    ensures
        r@ == dec(n as nat),
{
    decimal(n as u64)
}

/// `a` followed by `b`.
pub fn cat(a: &str, b: &str) -> (r: String)
    ensures
        r@ == a@ + b@,
{
    let mut s = a.to_owned();
    s.append(b);
    s
}

/// `a`, `b` and `c` in a row.
pub fn cat3(a: &str, b: &str, c: &str) -> (r: String)
    ensures
        r@ == a@ + b@ + c@,
{
    let mut s = a.to_owned();
    s.append(b);
    s.append(c);
    s
}

/// Whether two texts hold the same characters.
pub fn same_text(a: &str, b: &str) -> (r: bool)
    ensures
        r == (a@ == b@),
{
    a.to_owned() == b.to_owned()
}

/// The contents of a list of owned texts.
pub open spec fn texts(v: Seq<String>) -> Seq<Seq<char>> {
    Seq::new(v.len(), |i: int| v[i]@)
}

/// What a text holds, when there is one.
pub open spec fn opt_text(o: Option<String>) -> Option<Seq<char>> {
    match o {
        Some(s) => Some(s@),
        None => None,
    }
}

/// The texts of `all` again.
pub fn copy_texts(all: &Vec<String>) -> (r: Vec<String>)
    ensures
        texts(r@) == texts(all@),
        r@.len() == all@.len(),
{
    let mut out: Vec<String> = Vec::new();
    let mut i: usize = 0;
    while i < all.len()
        invariant
            i <= all.len(),
            out.len() == i,
            forall|k: int| 0 <= k < i ==> (#[trigger] out@[k])@ == all@[k]@,
        decreases all.len() - i,
    {
        out.push(all[i].clone());
        i += 1;
    }
    assert(texts(out@) =~= texts(all@));
    out
}

/// `parts` in order with `sep` between each two.
pub open spec fn joined(parts: Seq<Seq<char>>, sep: Seq<char>) -> Seq<char>
    decreases parts.len(),
{
    if parts.len() == 0 {
        Seq::empty()
    } else if parts.len() == 1 {
        parts[0]
    } else {
        joined(parts.drop_last(), sep) + sep + parts.last()
    }
}

/// `parts` in order with `sep` between each two.
pub fn join(parts: &Vec<String>, sep: &str) -> (r: String)
    ensures
        r@ == joined(texts(parts@), sep@),
{
    let mut out = String::new();
    let mut i: usize = 0;
    assert(texts(parts@).take(0) =~= Seq::empty());
    while i < parts.len()
        invariant
            i <= parts.len(),
            out@ == joined(texts(parts@).take(i as int), sep@),
        decreases parts.len() - i,
    {
        let ghost all = texts(parts@);
        assert(all.take(i + 1).drop_last() =~= all.take(i as int));
        assert(all.take(i + 1).last() == parts[i as int]@);
        if i > 0 {
            out.append(sep);
            out.append(parts[i].as_str());
        } else {
            out.append(parts[i].as_str());
            assert(out@ =~= parts[0]@);
        }
        i += 1;
    }
    assert(texts(parts@).take(parts@.len() as int) =~= texts(parts@));
    out
}

/// Unicode's `White_Space` property.
pub open spec fn white_space(c: char) -> bool {
    ||| '\u{9}' <= c <= '\u{d}'
    ||| c == ' '
    ||| c == '\u{85}'
    ||| c == '\u{a0}'
    ||| c == '\u{1680}'
    ||| '\u{2000}' <= c <= '\u{200a}'
    ||| c == '\u{2028}'
    ||| c == '\u{2029}'
    ||| c == '\u{202f}'
    ||| c == '\u{205f}'
    ||| c == '\u{3000}'
}

/// Whether `c` has Unicode's `White_Space` property.
pub fn is_white_space(c: char) -> (r: bool)
    ensures
        r == white_space(c),
{
    ('\u{9}' <= c && c <= '\u{d}') || c == ' ' || c == '\u{85}' || c == '\u{a0}' || c == '\u{1680}' || ('\u{2000}' <= c && c
        <= '\u{200a}') || c == '\u{2028}' || c == '\u{2029}' || c == '\u{202f}' || c == '\u{205f}' || c == '\u{3000}'
}

/// Whether `s` holds nothing but white space.
pub open spec fn blank(s: Seq<char>) -> bool {
    forall|i: int| 0 <= i < s.len() ==> white_space(#[trigger] s[i])
}

/// `s` from its first character that is not white space.
pub open spec fn trim_start(s: Seq<char>) -> Seq<char>
    decreases s.len(),
{
    if s.len() > 0 && white_space(s[0]) {
        trim_start(s.drop_first())
    } else {
        s
    }
}

/// `s` up to its last character that is not white space.
pub open spec fn trim_end(s: Seq<char>) -> Seq<char>
    decreases s.len(),
{
    if s.len() > 0 && white_space(s.last()) {
        trim_end(s.drop_last())
    } else {
        s
    }
}

/// `s` without the white space at either end.
pub open spec fn trimmed(s: Seq<char>) -> Seq<char> {
    trim_end(trim_start(s))
}

proof fn lemma_trim_start_blank(s: Seq<char>)
    ensures
        blank(s) <==> trim_start(s).len() == 0,
        trim_start(s).len() > 0 ==> !white_space(trim_start(s)[0]),
    decreases s.len(),
{
    if s.len() > 0 && white_space(s[0]) {
        lemma_trim_start_blank(s.drop_first());
        if blank(s.drop_first()) {
            assert forall|i: int| 0 <= i < s.len() implies white_space(#[trigger] s[i]) by {
                if i > 0 {
                    assert(s[i] == s.drop_first()[i - 1]);
                }
            }
        }
        if blank(s) {
            assert forall|i: int| 0 <= i < s.drop_first().len() implies white_space(#[trigger] s.drop_first()[i]) by {
                assert(s.drop_first()[i] == s[i + 1]);
            }
        }
    }
}

proof fn lemma_trim_end_keeps_start(s: Seq<char>)
    requires
        s.len() > 0,
        !white_space(s[0]),
    ensures
        trim_end(s).len() > 0,
        trim_end(s)[0] == s[0],
    decreases s.len(),
{
    if white_space(s.last()) {
        assert(s.len() > 1);
        assert(s.drop_last()[0] == s[0]);
        lemma_trim_end_keeps_start(s.drop_last());
    }
}

/// Trimming leaves nothing exactly when there was nothing but white space.
pub proof fn trimming_empties_only_blank_text(s: Seq<char>)
    ensures
        trimmed(s).len() == 0 <==> blank(s),
{
    lemma_trim_start_blank(s);
    if trim_start(s).len() > 0 {
        lemma_trim_end_keeps_start(trim_start(s));
    }
}

/// Trimmed text neither starts nor ends with white space, so trimming it again changes nothing.
pub proof fn trimming_twice_is_trimming_once(s: Seq<char>)
    ensures
        trimmed(trimmed(s)) == trimmed(s),
{
    let a = trim_start(s);
    lemma_trim_start_blank(s);
    if a.len() > 0 {
        lemma_trim_end_keeps_start(a);
        lemma_trim_end_idempotent(a);
    }
}

proof fn lemma_trim_end_idempotent(s: Seq<char>)
    ensures
        trim_end(trim_end(s)) == trim_end(s),
    decreases s.len(),
{
    if s.len() > 0 && white_space(s.last()) {
        lemma_trim_end_idempotent(s.drop_last());
    }
}

/// Whether `s` holds nothing but white space.
pub fn is_blank(s: &str) -> (r: bool)
    ensures
        r == blank(s@),
{
    let n: usize = s.unicode_len();
    let mut i: usize = 0;
    while i < n
        invariant
            i <= n,
            n == s@.len(),
            forall|k: int| 0 <= k < i ==> white_space(#[trigger] s@[k]),
        decreases n - i,
    {
        if !is_white_space(s.get_char(i)) {
            assert(!white_space(s@[i as int]));
            return false;
        }
        i += 1;
    }
    true
}

/// `s` without the white space at either end.
pub fn trim(s: &str) -> (r: String)
    ensures
        r@ == trimmed(s@),
{
    let n: usize = s.unicode_len();
    let mut from: usize = 0;
    assert(s@.subrange(0, n as int) =~= s@);
    while from < n && is_white_space(s.get_char(from))
        invariant
            from <= n,
            n == s@.len(),
            trim_start(s@) == trim_start(s@.subrange(from as int, n as int)),
        decreases n - from,
    {
        assert(s@.subrange(from as int, n as int).drop_first() =~= s@.subrange(from + 1, n as int));
        from += 1;
    }
    assert(trim_start(s@) == s@.subrange(from as int, n as int));
    let mut to: usize = n;
    while to > from && is_white_space(s.get_char(to - 1))
        invariant
            from <= to <= n,
            n == s@.len(),
            trimmed(s@) == trim_end(s@.subrange(from as int, to as int)),
        decreases to,
    {
        assert(s@.subrange(from as int, to as int).drop_last() =~= s@.subrange(from as int, to - 1));
        assert(s@.subrange(from as int, to as int).last() == s@[to - 1]);
        to -= 1;
    }
    s.substring_char(from, to).to_owned()
}

/// Whether `needle` occurs in `hay`.
pub open spec fn occurs(hay: Seq<char>, needle: Seq<char>) -> bool {
    exists|i: int| #[trigger] occurs_at(hay, needle, i)
}

/// Whether `needle` occurs in `hay` from its `i`th character on.
pub open spec fn occurs_at(hay: Seq<char>, needle: Seq<char>, i: int) -> bool {
    0 <= i && i + needle.len() <= hay.len() && hay.subrange(i, i + needle.len()) == needle
}

/// Whether `needle` occurs in `hay`.
pub fn contains_text(hay: &str, needle: &str) -> (r: bool)
    ensures
        r == occurs(hay@, needle@),
{
    let n: usize = hay.unicode_len();
    let m: usize = needle.unicode_len();
    if m > n {
        return false;
    }
    let mut i: usize = 0;
    while i <= n - m
        invariant
            i <= n - m + 1,
            m <= n,
            n == hay@.len(),
            m == needle@.len(),
            forall|k: int| 0 <= k < i ==> !#[trigger] occurs_at(hay@, needle@, k),
        decreases n - m + 1 - i,
    {
        if same_text(hay.substring_char(i, i + m), needle) {
            assert(occurs_at(hay@, needle@, i as int));
            return true;
        }
        if i == n - m {
            assert(forall|k: int| 0 <= k < i + 1 ==> !#[trigger] occurs_at(hay@, needle@, k));
            return false;
        }
        i += 1;
    }
    false
}

/// The runs of characters between white space, in order.
pub open spec fn words(s: Seq<char>) -> Seq<Seq<char>>
    decreases s.len(),
{
    if s.len() == 0 {
        Seq::empty()
    } else if white_space(s.last()) {
        words(s.drop_last())
    } else if s.len() == 1 || white_space(s[s.len() - 2]) {
        words(s.drop_last()).push(seq![s.last()])
    } else {
        let before = words(s.drop_last());
        before.drop_last().push(before.last().push(s.last()))
    }
}

proof fn lemma_has_words(s: Seq<char>)
    requires
        s.len() > 0,
        !white_space(s.last()),
    ensures
        words(s).len() > 0,
    decreases s.len(),
{
    if s.len() > 1 && !white_space(s[s.len() - 2]) {
        lemma_has_words(s.drop_last());
    }
}

/// Where a text is cut behind white space, its words are those before the cut and those behind it.
pub proof fn lemma_words_apart(a: Seq<char>, b: Seq<char>)
    requires
        a.len() == 0 || white_space(a.last()),
    ensures
        words(a + b) == words(a) + words(b),
    decreases b.len(),
{
    let s = a + b;
    if b.len() == 0 {
        assert(s =~= a);
        assert(words(a) + words(b) =~= words(a));
    } else {
        let head = b.drop_last();
        assert(s.drop_last() =~= a + head);
        lemma_words_apart(a, head);
        if !white_space(b.last()) {
            if b.len() == 1 || white_space(b[b.len() - 2]) {
                assert(words(s) =~= words(a) + words(b));
            } else {
                assert(s[s.len() - 2] == b[b.len() - 2]);
                lemma_has_words(head);
                let before = words(a) + words(head);
                assert(before.drop_last() =~= words(a) + words(head).drop_last());
                assert(words(s) =~= words(a) + words(b));
            }
        }
    }
}

/// Lowering the ASCII letters of a text lowers those of its words, and moves no word.
pub proof fn lemma_words_lowered(s: Seq<char>)
    ensures
        words(ascii_lowercase(s)) == Seq::new(words(s).len(), |i: int| ascii_lowercase(words(s)[i])),
    decreases s.len(),
{
    let low = ascii_lowercase(s);
    let lowered = Seq::new(words(s).len(), |i: int| ascii_lowercase(words(s)[i]));
    if s.len() == 0 {
        assert(words(low) =~= lowered);
    } else {
        let head = s.drop_last();
        assert(low.drop_last() =~= ascii_lowercase(head));
        lemma_words_lowered(head);
        let last = ascii_lower(s.last());
        if white_space(s.last()) {
        } else if s.len() == 1 || white_space(s[s.len() - 2]) {
            assert(ascii_lowercase(seq![s.last()]) =~= seq![last]);
            assert(words(low) =~= lowered);
        } else {
            lemma_has_words(head);
            assert(ascii_lowercase(words(head).last().push(s.last())) =~= ascii_lowercase(words(head).last()).push(last));
            assert(words(low) =~= lowered);
        }
    }
}

/// The words of an ASCII text are ASCII.
pub proof fn lemma_ascii_words(s: Seq<char>)
    requires
        is_ascii(s),
    ensures
        forall|i: int| 0 <= i < words(s).len() ==> is_ascii(#[trigger] words(s)[i]),
    decreases s.len(),
{
    if s.len() > 0 {
        let head = s.drop_last();
        assert(is_ascii(head)) by {
            assert(forall|i: int| 0 <= i < head.len() ==> #[trigger] head[i] == s[i]);
        }
        lemma_ascii_words(head);
        assert(s.last() as u32 <= 127);
        if !white_space(s.last()) && !(s.len() == 1 || white_space(s[s.len() - 2])) {
            lemma_has_words(head);
            let word = words(head).last();
            assert(is_ascii(word));
            assert(is_ascii(word.push(s.last())));
        }
    }
}

/// The runs of characters between white space, in order.
pub fn split_words(s: &str) -> (r: Vec<String>)
    ensures
        texts(r@) == words(s@),
{
    let n: usize = s.unicode_len();
    let mut out: Vec<String> = Vec::new();
    // The word being read starts at `from`; there is none while `from == i`.
    let mut from: usize = 0;
    let mut i: usize = 0;
    assert(s@.take(0) =~= Seq::empty());
    assert(texts(out@) =~= words(s@.take(0)));
    while i < n
        invariant
            n == s@.len(),
            from <= i <= n,
            from == i ==> texts(out@) == words(s@.take(i as int)),
            from == i && i > 0 ==> white_space(s@[i - 1]),
            from < i ==> !white_space(s@[i - 1]) && words(s@.take(i as int)) == texts(out@).push(
                s@.subrange(from as int, i as int),
            ),
        decreases n - i,
    {
        let ghost head = s@.take(i + 1);
        assert(head.drop_last() =~= s@.take(i as int));
        assert(head.last() == s@[i as int]);
        if i > 0 {
            assert(head[head.len() - 2] == s@[i - 1]);
        }
        if is_white_space(s.get_char(i)) {
            if from < i {
                let ghost was = texts(out@);
                out.push(s.substring_char(from, i).to_owned());
                assert(texts(out@) =~= was.push(s@.subrange(from as int, i as int)));
            }
            from = i + 1;
        } else if from == i {
            assert(s@.subrange(from as int, i + 1) =~= seq![s@[i as int]]);
        } else {
            let before = Ghost(words(s@.take(i as int)));
            assert(before@.drop_last() =~= texts(out@));
            assert(s@.subrange(from as int, i + 1) =~= s@.subrange(from as int, i as int).push(s@[i as int]));
        }
        i += 1;
    }
    assert(s@.take(n as int) =~= s@);
    if from < n {
        let ghost was = texts(out@);
        out.push(s.substring_char(from, n).to_owned());
        assert(texts(out@) =~= was.push(s@.subrange(from as int, n as int)));
    }
    out
}

/// `s` with every character in lower case, by Unicode's full mapping.
pub uninterp spec fn lowercase(s: Seq<char>) -> Seq<char>;

/// Whether every character of `s` is an ASCII one.
pub open spec fn is_ascii(s: Seq<char>) -> bool {
    forall|i: int| 0 <= i < s.len() ==> (#[trigger] s[i]) as u32 <= 127
}

/// `str::to_lowercase`: the lower-case form of `s` depends on `s` alone, and of ASCII text it is that
/// text with its letters `A` to `Z` in lower case.
#[verifier::external_body]
pub(crate) fn to_lowercase(s: &str) -> (r: String)
    ensures
        r@ == lowercase(s@),
        is_ascii(s@) ==> r@ == ascii_lowercase(s@),
{
    s.to_lowercase()
}

/// `s` with every character in upper case, by Unicode's full mapping.
pub uninterp spec fn uppercase(s: Seq<char>) -> Seq<char>;

/// `str::to_uppercase`: the upper-case form of `s` depends on `s` alone.
#[verifier::external_body]
pub(crate) fn to_uppercase(s: &str) -> (r: String)
    ensures
        r@ == uppercase(s@),
{
    s.to_uppercase()
}

/// `c` in lower case where it is an ASCII letter, else `c`.
pub open spec fn ascii_lower(c: char) -> char {
    if 'A' <= c <= 'Z' {
        (c as u8 + 32) as char
    } else {
        c
    }
}

/// `s` with its ASCII letters in lower case.
pub open spec fn ascii_lowercase(s: Seq<char>) -> Seq<char> {
    Seq::new(s.len(), |i: int| ascii_lower(s[i]))
}

/// `s` with its ASCII letters in lower case, every other character unchanged.
pub fn to_ascii_lowercase(s: &str) -> (r: String)
    ensures
        r@ == ascii_lowercase(s@),
{
    let letters = "abcdefghijklmnopqrstuvwxyz";
    let n: usize = s.unicode_len();
    let mut out = String::new();
    let mut i: usize = 0;
    while i < n
        invariant
            i <= n,
            n == s@.len(),
            letters@ == "abcdefghijklmnopqrstuvwxyz"@,
            out@ == ascii_lowercase(s@.take(i as int)),
        decreases n - i,
    {
        let c: char = s.get_char(i);
        let ghost before = out@;
        if 'A' <= c && c <= 'Z' {
            proof {
                reveal_strlit("abcdefghijklmnopqrstuvwxyz");
            }
            let at: usize = (c as u8 - 65) as usize;
            out.append(letters.substring_char(at, at + 1));
            assert(out@ =~= before.push(ascii_lower(c)));
        } else {
            out.append(s.substring_char(i, i + 1));
            assert(out@ =~= before.push(c));
        }
        i += 1;
        assert(out@ =~= ascii_lowercase(s@.take(i as int)));
    }
    assert(s@.take(n as int) =~= s@);
    out
}

/// Whether `s` reads as `lower` once its ASCII letters are in lower case.
pub fn lowers_to(s: &str, lower: &str) -> (r: bool)
    ensures
        r == (ascii_lowercase(s@) == lower@),
{
    let n: usize = s.unicode_len();
    if n != lower.unicode_len() {
        assert(ascii_lowercase(s@).len() != lower@.len());
        return false;
    }
    let mut i: usize = 0;
    while i < n
        invariant
            i <= n,
            n == s@.len(),
            n == lower@.len(),
            forall|k: int| 0 <= k < i ==> #[trigger] ascii_lower(s@[k]) == lower@[k],
        decreases n - i,
    {
        let c: char = s.get_char(i);
        let low: char = if 'A' <= c && c <= 'Z' {
            (c as u8 + 32) as char
        } else {
            c
        };
        if low != lower.get_char(i) {
            assert(ascii_lowercase(s@)[i as int] != lower@[i as int]);
            return false;
        }
        i += 1;
    }
    assert(ascii_lowercase(s@) =~= lower@);
    true
}

/// A number is written digit by digit: one digit for each below ten, and a further digit for each place.
pub proof fn a_number_is_written_in_digits(n: nat, d: nat)
    requires
        d < 10,
    ensures
        dec(d) == seq![('0' as u8 + d) as char],
        n > 0 ==> dec(n * 10 + d) == dec(n) + dec(d),
{
    if n > 0 {
        assert((n * 10 + d) / 10 == n);
        assert((n * 10 + d) % 10 == d);
        assert(dec(n * 10 + d) =~= dec(n) + dec(d));
    }
}

/// Joined texts stand in their order with the separator between each two, and nowhere else.
pub proof fn joining_puts_the_separator_between(parts: Seq<Seq<char>>, part: Seq<char>, sep: Seq<char>)
    ensures
        joined(Seq::<Seq<char>>::empty(), sep) == Seq::<char>::empty(),
        joined(seq![part], sep) == part,
        parts.len() > 0 ==> joined(parts.push(part), sep) == joined(parts, sep) + sep + part,
{
    assert(parts.push(part).drop_last() =~= parts);
}

/// White space is what Unicode lists as such: tabs and line ends, the space, and the spaces of other scripts
/// and widths.
pub proof fn white_space_is_unicodes(c: char)
    ensures
        white_space(c) <==> (9 <= c as u32 <= 13 || c as u32 == 32 || c as u32 == 133 || c as u32 == 160 || c as u32 == 5760 || 8192 <= c as u32
            <= 8202 || c as u32 == 8232 || c as u32 == 8233 || c as u32 == 8239 || c as u32 == 8287 || c as u32 == 12288),
{
}

proof fn lemma_trim_start_cuts(s: Seq<char>) -> (from: int)
    ensures
        0 <= from <= s.len(),
        trim_start(s) == s.skip(from),
        forall|i: int| 0 <= i < from ==> white_space(#[trigger] s[i]),
    decreases s.len(),
{
    if s.len() > 0 && white_space(s[0]) {
        let rest = s.drop_first();
        let n = lemma_trim_start_cuts(rest);
        assert(rest.skip(n) =~= s.skip(n + 1));
        assert forall|i: int| 0 <= i < n + 1 implies white_space(#[trigger] s[i]) by {
            if i > 0 {
                assert(rest[i - 1] == s[i]);
            }
        }
        n + 1
    } else {
        assert(s.skip(0) =~= s);
        0
    }
}

proof fn lemma_trim_end_cuts(s: Seq<char>) -> (to: int)
    ensures
        0 <= to <= s.len(),
        trim_end(s) == s.take(to),
        forall|i: int| to <= i < s.len() ==> white_space(#[trigger] s[i]),
        to > 0 ==> !white_space(s[to - 1]),
    decreases s.len(),
{
    if s.len() > 0 && white_space(s.last()) {
        let head = s.drop_last();
        let n = lemma_trim_end_cuts(head);
        assert(head.take(n) =~= s.take(n));
        assert forall|i: int| n <= i < s.len() implies white_space(#[trigger] s[i]) by {
            if i < head.len() {
                assert(head[i] == s[i]);
            }
        }
        if n > 0 {
            assert(head[n - 1] == s[n - 1]);
        }
        n
    } else {
        assert(s.take(s.len() as int) =~= s);
        s.len() as int
    }
}

/// Trimming takes white space off both ends and nothing else: what is cut is all white space, what is left is
/// the middle of the text, and it neither starts nor ends with white space.
pub proof fn trimming_cuts_white_space_alone(s: Seq<char>)
    ensures
        exists|from: int, to: int|
            0 <= from <= to <= s.len() && trimmed(s) == #[trigger] s.subrange(from, to) && (forall|i: int|
                0 <= i < from || to <= i < s.len() ==> white_space(#[trigger] s[i])),
        trimmed(s).len() > 0 ==> !white_space(trimmed(s)[0]) && !white_space(trimmed(s).last()),
{
    let from = lemma_trim_start_cuts(s);
    let rest = trim_start(s);
    let to = lemma_trim_end_cuts(rest);
    assert forall|i: int| 0 <= i < from || from + to <= i < s.len() implies white_space(#[trigger] s[i]) by {
        if i >= from {
            assert(rest[i - from] == s[i]);
        }
    }
    assert(trimmed(s) =~= s.subrange(from, from + to));
    lemma_trim_start_blank(s);
    if trimmed(s).len() > 0 {
        assert(trimmed(s)[0] == rest[0]);
        assert(trimmed(s).last() == rest[to - 1]);
    }
}

/// A text occurs in another exactly where that one is something, the text, and something.
pub proof fn a_text_occurs_where_it_stands(hay: Seq<char>, needle: Seq<char>, before: Seq<char>, after: Seq<char>)
    ensures
        occurs(before + needle + after, needle),
        occurs(hay, needle) <==> exists|i: int| 0 <= i <= hay.len() - needle.len() && #[trigger] hay.subrange(i, i + needle.len()) == needle,
{
    let whole = before + needle + after;
    assert(whole.subrange(before.len() as int, (before.len() + needle.len()) as int) =~= needle);
    assert(occurs_at(whole, needle, before.len() as int));
    if occurs(hay, needle) {
        let i = choose|i: int| #[trigger] occurs_at(hay, needle, i);
        assert(hay.subrange(i, i + needle.len()) == needle);
    }
    if exists|i: int| 0 <= i <= hay.len() - needle.len() && #[trigger] hay.subrange(i, i + needle.len()) == needle {
        let i = choose|i: int| 0 <= i <= hay.len() - needle.len() && #[trigger] hay.subrange(i, i + needle.len()) == needle;
        assert(occurs_at(hay, needle, i));
    }
}

/// A text without white space is one word, and a blank one none.
pub proof fn words_lie_between_white_space(s: Seq<char>)
    ensures
        blank(s) ==> words(s).len() == 0,
        s.len() > 0 && (forall|i: int| 0 <= i < s.len() ==> !white_space(#[trigger] s[i])) ==> words(s) == seq![s],
    decreases s.len(),
{
    if s.len() > 0 {
        let head = s.drop_last();
        words_lie_between_white_space(head);
        assert(forall|i: int| 0 <= i < head.len() ==> #[trigger] head[i] == s[i]);
        if blank(s) {
            assert(blank(head));
            assert(white_space(s[s.len() - 1]));
        }
        if forall|i: int| 0 <= i < s.len() ==> !white_space(#[trigger] s[i]) {
            assert(!white_space(s[s.len() - 1]));
            if s.len() == 1 {
                assert(words(head) =~= Seq::empty());
                assert(words(s) =~= seq![s]) by {
                    assert(seq![s.last()] =~= s);
                }
            } else {
                assert(!white_space(s[s.len() - 2]));
                assert(words(head) == seq![head]);
                assert(head.push(s.last()) =~= s);
                assert(words(s) =~= seq![s]);
            }
        }
    }
}

/// Lowering ASCII letters changes the letters from A to Z, each into its small one, and nothing else.
pub proof fn only_capitals_are_lowered(s: Seq<char>, i: int)
    requires
        0 <= i < s.len(),
    ensures
        ascii_lowercase(s).len() == s.len(),
        65 <= s[i] as u32 <= 90 ==> ascii_lowercase(s)[i] as u32 == s[i] as u32 + 32,
        !(65 <= s[i] as u32 <= 90) ==> ascii_lowercase(s)[i] == s[i],
{
}

/// The texts of a list are those of its entries, in their places.
pub proof fn texts_are_the_entries(all: Seq<String>, one: Option<String>, i: int)
    requires
        0 <= i < all.len(),
    ensures
        texts(all).len() == all.len(),
        texts(all)[i] == all[i]@,
        opt_text(one) is Some <==> one is Some,
        one matches Some(text) ==> opt_text(one) == Some(text@),
{
}

/// A text is ASCII while every character of it is.
pub proof fn ascii_is_every_character(s: Seq<char>)
    ensures
        is_ascii(s) <==> forall|c: char| #[trigger] s.contains(c) ==> c as u32 <= 127,
{
    if is_ascii(s) {
        assert forall|c: char| #[trigger] s.contains(c) implies c as u32 <= 127 by {
            let i = choose|i: int| 0 <= i < s.len() && s[i] == c;
            assert(s[i] as u32 <= 127);
        }
    }
    if forall|c: char| #[trigger] s.contains(c) ==> c as u32 <= 127 {
        assert forall|i: int| 0 <= i < s.len() implies (#[trigger] s[i]) as u32 <= 127 by {
            assert(s.contains(s[i]));
        }
    }
}

} // verus!
