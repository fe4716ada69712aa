use vstd::prelude::*;

verus! {

/// The text of an optional string.
pub open spec fn opt_string_view(o: Option<String>) -> Option<Seq<char>> {
    match o {
        Some(s) => Some(s@),
        None => None,
    }
}

/// The character that stands for the decimal digit `d` (`d < 10`).
pub open spec fn digit_char(d: nat) -> char {
    (48 + d) as char
}

/// The decimal representation of `n`, without sign or leading zeros.
pub open spec fn decimal(n: nat) -> Seq<char>
    decreases n,
{
    if n < 10 {
        seq![digit_char(n)]
    } else {
        decimal(n / 10).push(digit_char(n % 10))
    }
}

/// The decimal representation of `n`, padded with a zero to two characters.
pub open spec fn decimal_pad2(n: nat) -> Seq<char> {
    if n < 10 {
        seq!['0'].push(digit_char(n))
    } else {
        decimal(n)
    }
}

/// The number that a string of decimal digits stands for.
pub open spec fn digits_value(s: Seq<char>) -> int
    decreases s.len(),
{
    if s.len() == 0 {
        0
    } else {
        digits_value(s.drop_last()) * 10 + (s.last() as int - 48)
    }
}

/// Whether every character of `s` is a decimal digit.
pub open spec fn all_digits(s: Seq<char>) -> bool {
    forall|i: int| 0 <= i < s.len() ==> '0' <= #[trigger] s[i] <= '9'
}

proof fn lemma_digit_char(d: nat)
    requires
        d < 10,
    ensures
        digit_char(d) as int == 48 + d,
        '0' <= digit_char(d) <= '9',
{
    let u: u32 = (48 + d) as u32;
    assert(u == 48 + d);
    assert(digit_char(d) == u as char);
}

/// The decimal text of `n` is made of digits, reads back as `n`, and has no
/// leading zero (but for 0 itself).
pub proof fn lemma_decimal_reads_back(n: nat)
    ensures
        all_digits(decimal(n)),
        digits_value(decimal(n)) == n,
        decimal(n).len() >= 1,
        decimal(n)[0] == '0' ==> n == 0,
    decreases n,
{
    lemma_digit_char(n % 10);
    if n >= 10 {
        lemma_decimal_reads_back(n / 10);
        assert(decimal(n).drop_last() == decimal(n / 10));
        assert(decimal(n).last() == digit_char(n % 10));
        assert(digits_value(decimal(n)) == digits_value(decimal(n / 10)) * 10 + (n % 10));
        assert((n / 10) * 10 + n % 10 == n);
    } else {
        assert(decimal(n).drop_last() =~= Seq::<char>::empty());
        assert(digits_value(Seq::<char>::empty()) == 0);
        assert(digits_value(decimal(n)) == digits_value(decimal(n).drop_last()) * 10 + (
        decimal(n).last() as int - 48));
    }
}

/// The two-digit padded text of `n` reads back as `n` and has at least two
/// characters.
pub proof fn lemma_decimal_pad2_reads_back(n: nat)
    ensures
        all_digits(decimal_pad2(n)),
        digits_value(decimal_pad2(n)) == n,
        decimal_pad2(n).len() >= 2,
        n >= 10 ==> decimal_pad2(n)[0] != '0',
{
    lemma_decimal_reads_back(n);
    if n < 10 {
        lemma_digit_char(n);
        let t = seq!['0'].push(digit_char(n));
        assert(t.drop_last() =~= seq!['0']);
        assert(seq!['0'].drop_last() =~= Seq::<char>::empty());
        assert(digits_value(Seq::<char>::empty()) == 0);
        assert('0' as int == 48);
        assert(digits_value(seq!['0']) == 0);
        assert(digits_value(t) == digits_value(t.drop_last()) * 10 + (t.last() as int - 48));
    } else {
        lemma_decimal_reads_back(n / 10);
    }
}

/// `String::push` of std: the character is appended at the end.
#[verifier::external_body]
pub(crate) fn push_char(s: &mut String, c: char)
    ensures
        final(s)@ == old(s)@.push(c),
{
    s.push(c);
}

/// Appends the decimal representation of `n`.
pub fn push_decimal(s: &mut String, n: u64)
    ensures
        final(s)@ == old(s)@ + decimal(n as nat),
    decreases n,
{
    if n >= 10 {
        push_decimal(s, n / 10);
    }
    let d: u8 = (n % 10) as u8;
    let c: char = (48u8 + d) as char;
    push_char(s, c);
    proof {
        assert(c == digit_char((n % 10) as nat));
    }
}

/// Appends `n` padded with a zero to two characters, as `{:02}` writes it.
pub fn push_decimal_pad2(s: &mut String, n: u64)
    ensures
        final(s)@ == old(s)@ + decimal_pad2(n as nat),
{
    if n < 10 {
        push_char(s, '0');
    }
    push_decimal(s, n);
    proof {
        if n < 10 {
            assert(decimal(n as nat) == seq![digit_char(n as nat)]);
        }
    }
}

/// The characters of `s`, one by one.
pub fn chars_of(s: &str) -> (r: Vec<char>)
    ensures
        r@ == s@,
{
    let mut r: Vec<char> = Vec::new();
    for c in it: s.chars()
        invariant
            it.seq() == s@,
            r@ == it.seq().subrange(0, it.index() as int),
    {
        r.push(c);
    }
    r
}

/// The string made of `v[from..to]`.
pub fn string_of_range(v: &Vec<char>, from: usize, to: usize) -> (r: String)
    requires
        from <= to <= v.len(),
    ensures
        r@ == v@.subrange(from as int, to as int),
{
    let mut r = String::new();
    let mut i = from;
    while i < to
        invariant
            from <= i <= to <= v.len(),
            r@ == v@.subrange(from as int, i as int),
        decreases to - i,
    {
        push_char(&mut r, v[i]);
        assert(v@.subrange(from as int, i + 1) == v@.subrange(from as int, i as int).push(v@[i as int]));
        i = i + 1;
    }
    r
}

/// Whether `v[from..to]` holds exactly the characters of `word`.
pub fn range_equals(v: &Vec<char>, from: usize, to: usize, word: &str) -> (r: bool)
    requires
        from <= to <= v.len(),
    ensures
        r == (v@.subrange(from as int, to as int) == word@),
{
    let w = chars_of(word);
    if to - from != w.len() {
        return false;
    }
    let mut i: usize = 0;
    while i < w.len()
        invariant
            from <= to <= v.len(),
            to - from == w.len(),
            w@ == word@,
            0 <= i <= w.len(),
            forall|j: int| 0 <= j < i ==> v@[from + j] == w@[j],
        decreases w.len() - i,
    {
        if v[from + i] != w[i] {
            assert(v@.subrange(from as int, to as int)[i as int] != word@[i as int]);
            return false;
        }
        i = i + 1;
    }
    assert(v@.subrange(from as int, to as int) =~= word@);
    true
}

/// The characters with the Unicode `White_Space` property, which
/// `char::is_whitespace` and `str::split_whitespace` go by.
pub open spec fn is_white_space(c: char) -> bool {
    let u = c as u32;
    ||| 0x09 <= u <= 0x0d
    ||| u == 0x20
    ||| u == 0x85
    ||| u == 0xa0
    ||| u == 0x1680
    ||| 0x2000 <= u <= 0x200a
    ||| u == 0x2028
    ||| u == 0x2029
    ||| u == 0x202f
    ||| u == 0x205f
    ||| u == 0x3000
}

/// Whether `c` has the Unicode `White_Space` property.
pub fn is_white_space_char(c: char) -> (r: bool)
    ensures
        r == is_white_space(c),
{
    let u = c as u32;
    (0x09 <= u && u <= 0x0d) || u == 0x20 || u == 0x85 || u == 0xa0 || u == 0x1680 || (0x2000
        <= u && u <= 0x200a) || u == 0x2028 || u == 0x2029 || u == 0x202f || u == 0x205f || u
        == 0x3000
}

/// The first index from `i` on that is not white space (or the length).
pub open spec fn skip_white_space(s: Seq<char>, i: int) -> int
    decreases s.len() - i,
{
    if 0 <= i < s.len() && is_white_space(s[i]) {
        skip_white_space(s, i + 1)
    } else {
        i
    }
}

/// The first index from `i` on that is white space (or the length).
pub open spec fn skip_word(s: Seq<char>, i: int) -> int
    decreases s.len() - i,
{
    if 0 <= i < s.len() && !is_white_space(s[i]) {
        skip_word(s, i + 1)
    } else {
        i
    }
}

/// The second of the words that white space separates in `s`, as
/// `s.split_whitespace().nth(1)` gives it.
pub open spec fn second_word(s: Seq<char>) -> Option<Seq<char>> {
    let a = skip_white_space(s, 0);
    let b = skip_word(s, a);
    let c = skip_white_space(s, b);
    let d = skip_word(s, c);
    if c < s.len() {
        Some(s.subrange(c, d))
    } else {
        None
    }
}

/// Whether every character of `s` is white space.
pub open spec fn all_white(s: Seq<char>) -> bool {
    forall|i: int| 0 <= i < s.len() ==> is_white_space(#[trigger] s[i])
}

/// Whether no character of `s` is white space.
pub open spec fn no_white(s: Seq<char>) -> bool {
    forall|i: int| 0 <= i < s.len() ==> !is_white_space(#[trigger] s[i])
}

proof fn lemma_skip_white_run(s: Seq<char>, i: int, j: int)
    requires
        0 <= i <= j <= s.len(),
        forall|k: int| i <= k < j ==> is_white_space(#[trigger] s[k]),
        j < s.len() ==> !is_white_space(s[j]),
    ensures
        skip_white_space(s, i) == j,
    decreases j - i,
{
    if i < j {
        lemma_skip_white_run(s, i + 1, j);
    }
}

proof fn lemma_skip_word_run(s: Seq<char>, i: int, j: int)
    requires
        0 <= i <= j <= s.len(),
        forall|k: int| i <= k < j ==> !is_white_space(#[trigger] s[k]),
        j < s.len() ==> is_white_space(s[j]),
    ensures
        skip_word(s, i) == j,
    decreases j - i,
{
    if i < j {
        lemma_skip_word_run(s, i + 1, j);
    }
}

/// In a text made of white space, a word, white space, a second word and
/// then nothing or more text after white space, the second word is found,
/// whatever the words and the white space around them.
pub proof fn lemma_second_word_found(
    a0: Seq<char>,
    w1: Seq<char>,
    a1: Seq<char>,
    w2: Seq<char>,
    rest: Seq<char>,
)
    requires
        all_white(a0),
        no_white(w1),
        w1.len() > 0,
        all_white(a1),
        a1.len() > 0,
        no_white(w2),
        w2.len() > 0,
        rest.len() > 0 ==> is_white_space(rest[0]),
    ensures
        second_word(a0 + w1 + a1 + w2 + rest) == Some(w2),
{
    let s = a0 + w1 + a1 + w2 + rest;
    let p1 = a0.len() as int;
    let p2 = p1 + w1.len();
    let p3 = p2 + a1.len();
    let p4 = p3 + w2.len();
    assert forall|k: int| 0 <= k < p1 implies is_white_space(#[trigger] s[k]) by {
        assert(s[k] == a0[k]);
    }
    assert forall|k: int| p1 <= k < p2 implies !is_white_space(#[trigger] s[k]) by {
        assert(s[k] == w1[k - p1]);
    }
    assert forall|k: int| p2 <= k < p3 implies is_white_space(#[trigger] s[k]) by {
        assert(s[k] == a1[k - p2]);
    }
    assert forall|k: int| p3 <= k < p4 implies !is_white_space(#[trigger] s[k]) by {
        assert(s[k] == w2[k - p3]);
    }
    assert(s[p1] == w1[0]);
    assert(s[p2] == a1[0]);
    assert(s[p3] == w2[0]);
    if p4 < s.len() {
        assert(s[p4] == rest[0]);
    }
    lemma_skip_white_run(s, 0, p1);
    lemma_skip_word_run(s, p1, p2);
    lemma_skip_white_run(s, p2, p3);
    lemma_skip_word_run(s, p3, p4);
    assert(s.subrange(p3, p4) =~= w2);
}

/// A text with at most one word has no second word.
pub proof fn lemma_no_second_word(a0: Seq<char>, w1: Seq<char>, a1: Seq<char>)
    requires
        all_white(a0),
        no_white(w1),
        all_white(a1),
    ensures
        second_word(a0 + w1 + a1) is None,
{
    let s = a0 + w1 + a1;
    let p1 = a0.len() as int;
    let p2 = p1 + w1.len();
    assert forall|k: int| 0 <= k < p1 implies is_white_space(#[trigger] s[k]) by {
        assert(s[k] == a0[k]);
    }
    assert forall|k: int| p1 <= k < p2 implies !is_white_space(#[trigger] s[k]) by {
        assert(s[k] == w1[k - p1]);
    }
    assert forall|k: int| p2 <= k < s.len() implies is_white_space(#[trigger] s[k]) by {
        assert(s[k] == a1[k - p2]);
    }
    if w1.len() > 0 {
        assert(s[p1] == w1[0]);
        lemma_skip_white_run(s, 0, p1);
        if p2 < s.len() {
            assert(s[p2] == a1[0]);
        }
        lemma_skip_word_run(s, p1, p2);
        lemma_skip_white_run(s, p2, s.len() as int);
    } else {
        lemma_skip_white_run(s, 0, s.len() as int);
        lemma_skip_word_run(s, s.len() as int, s.len() as int);
        lemma_skip_white_run(s, s.len() as int, s.len() as int);
    }
}

/// Whether `pat` occurs in `s` as a contiguous run.
pub open spec fn occurs_in(s: Seq<char>, pat: Seq<char>) -> bool {
    exists|i: int| 0 <= i && i + pat.len() <= s.len() && #[trigger] s.subrange(i, i + pat.len()) == pat
}

fn skip_white_space_exec(v: &Vec<char>, i: usize) -> (r: usize)
    requires
        i <= v.len(),
    ensures
        r == skip_white_space(v@, i as int),
        i <= r <= v.len(),
{
    let mut j = i;
    while j < v.len() && is_white_space_char(v[j])
        invariant
            i <= j <= v.len(),
            skip_white_space(v@, i as int) == skip_white_space(v@, j as int),
        decreases v.len() - j,
    {
        j = j + 1;
    }
    j
}

fn skip_word_exec(v: &Vec<char>, i: usize) -> (r: usize)
    requires
        i <= v.len(),
    ensures
        r == skip_word(v@, i as int),
        i <= r <= v.len(),
{
    let mut j = i;
    while j < v.len() && !is_white_space_char(v[j])
        invariant
            i <= j <= v.len(),
            skip_word(v@, i as int) == skip_word(v@, j as int),
        decreases v.len() - j,
    {
        j = j + 1;
    }
    j
}

/// The second white-space separated word of `s`, if there is one.
pub fn second_word_of(s: &str) -> (r: Option<String>)
    ensures
        match r {
            Some(w) => second_word(s@) == Some(w@),
            None => second_word(s@) is None,
        },
{
    let v = chars_of(s);
    let a = skip_white_space_exec(&v, 0);
    let b = skip_word_exec(&v, a);
    let c = skip_white_space_exec(&v, b);
    let d = skip_word_exec(&v, c);
    if c < v.len() {
        Some(string_of_range(&v, c, d))
    } else {
        None
    }
}

/// Whether `pat` occurs in `s`, as `str::contains` answers it.
pub fn contains_str(s: &str, pat: &str) -> (r: bool)
    ensures
        r == occurs_in(s@, pat@),
{
    let v = chars_of(s);
    let p = chars_of(pat);
    if p.len() > v.len() {
        return false;
    }
    let last = v.len() - p.len();
    let mut i: usize = 0;
    while i <= last
        invariant
            v@ == s@,
            p@ == pat@,
            last == v.len() - p.len(),
            i <= last + 1,
            forall|j: int| 0 <= j < i ==> #[trigger] v@.subrange(j, j + p.len()) != p@,
        decreases last + 1 - i,
    {
        let mut k: usize = 0;
        let mut same = true;
        while k < p.len()
            invariant
                v@ == s@,
                p@ == pat@,
                last == v.len() - p.len(),
                i <= last,
                k <= p.len(),
                same <==> forall|m: int| 0 <= m < k ==> v@[i + m] == p@[m],
            decreases p.len() - k,
        {
            if v[i + k] != p[k] {
                same = false;
            }
            k = k + 1;
        }
        if same {
            assert(v@.subrange(i as int, i + p.len()) =~= p@);
            return true;
        }
        proof {
            let m = choose|m: int| 0 <= m < p.len() && v@[i + m] != p@[m];
            assert(v@.subrange(i as int, i + p.len())[m] != p@[m]);
        }
        i = i + 1;
    }
    proof {
        if occurs_in(s@, pat@) {
            let j = choose|j: int|
                0 <= j && j + pat@.len() <= s@.len() && #[trigger] s@.subrange(j, j + pat@.len())
                    == pat@;
            assert(v@.subrange(j, j + p.len()) != p@);
        }
    }
    false
}

} // verus!
