//! Text: characters, trimming, joining and decimal numbers.
use vstd::prelude::*;
use vstd::string::StringExecFns;

verus! {

/// Trusted: `String::push` appends the given character to the end of the
/// string and keeps what was there before it.
pub assume_specification[ String::push ](s: &mut String, c: char)
    ensures
        final(s)@ == old(s)@.push(c),
;

// ---- Characters -----------------------------------------------------------
/// The characters of a string, in order.
pub fn chars_of(s: &str) -> (r: Vec<char>)
    ensures
        r@ == s@,
{
    let mut out: Vec<char> = Vec::new();
    for c in it: s.chars()
        invariant
            out@ == it.seq().take(it.index() as int),
            it.seq() == s@,
    {
        out.push(c);
    }
    out
}

/// The string that consists of the given characters.
pub fn string_of(chars: &Vec<char>) -> (r: String)
    ensures
        r@ == chars@,
{
    let mut out = String::new();
    let mut i: usize = 0;
    while i < chars.len()
        invariant
            i <= chars@.len(),
            out@ == chars@.take(i as int),
        decreases chars@.len() - i,
    {
        out.push(chars[i]);
        i += 1;
    }
    out
}

/// Whether two strings hold the same characters.
pub fn same_text(a: &str, b: &str) -> (r: bool)
    ensures
        r == (a@ == b@),
{
    a.to_string() == b.to_string()
}

/// An ASCII letter of either case or an ASCII digit.
pub open spec fn is_ascii_alphanumeric(c: char) -> bool {
    ||| 'a' <= c <= 'z'
    ||| 'A' <= c <= 'Z'
    ||| '0' <= c <= '9'
}

/// The lowercase counterpart of an ASCII uppercase letter; any other character
/// is its own counterpart.
pub open spec fn lower_ascii(c: char) -> char {
    if 'A' <= c <= 'Z' {
        (c as u32 + 32) as char
    } else {
        c
    }
}

/// Computes [`is_ascii_alphanumeric`].
pub fn check_ascii_alphanumeric(c: char) -> (r: bool)
    ensures
        r == is_ascii_alphanumeric(c),
{
    ('a' <= c && c <= 'z') || ('A' <= c && c <= 'Z') || ('0' <= c && c <= '9')
}

/// Computes [`lower_ascii`].
pub fn to_lower_ascii(c: char) -> (r: char)
    ensures
        r == lower_ascii(c),
{
    if 'A' <= c && c <= 'Z' {
        (c as u8 + 32) as char
    } else {
        c
    }
}

/// A text with every ASCII uppercase letter lowered.
pub open spec fn lowered(s: Seq<char>) -> Seq<char> {
    s.map_values(|c: char| lower_ascii(c))
}

/// Whether two strings are equal up to the case of ASCII letters.
pub fn same_text_ignoring_case(a: &str, b: &str) -> (r: bool)
    ensures
        r == (lowered(a@) == lowered(b@)),
{
    let left = chars_of(a);
    let right = chars_of(b);
    if left.len() != right.len() {
        assert(lowered(a@).len() != lowered(b@).len());
        return false;
    }
    let mut i: usize = 0;
    while i < left.len()
        invariant
            left@ == a@,
            right@ == b@,
            left@.len() == right@.len(),
            i <= left@.len(),
            forall|j: int|
                0 <= j < i ==> #[trigger] lower_ascii(left@[j]) == lower_ascii(right@[j]),
        decreases left@.len() - i,
    {
        if to_lower_ascii(left[i]) != to_lower_ascii(right[i]) {
            assert(lowered(a@)[i as int] != lowered(b@)[i as int]);
            return false;
        }
        i += 1;
    }
    assert(lowered(a@) =~= lowered(b@));
    true
}

/// Whether `s` begins with `prefix`.
pub fn starts_with(s: &str, prefix: &str) -> (r: bool)
    ensures
        r == prefix@.is_prefix_of(s@),
{
    let whole = chars_of(s);
    let head = chars_of(prefix);
    if head.len() > whole.len() {
        return false;
    }
    let mut i: usize = 0;
    while i < head.len()
        invariant
            whole@ == s@,
            head@ == prefix@,
            i <= head@.len() <= whole@.len(),
            forall|j: int| 0 <= j < i ==> #[trigger] head@[j] == whole@[j],
        decreases head@.len() - i,
    {
        if head[i] != whole[i] {
            assert(s@.take(prefix@.len() as int)[i as int] != prefix@[i as int]);
            return false;
        }
        i += 1;
    }
    assert(prefix@ =~= s@.subrange(0, prefix@.len() as int));
    true
}

// ---- Trimming -------------------------------------------------------------
/// `s` without the run of `c` at its start.
pub open spec fn trim_start(s: Seq<char>, c: char) -> Seq<char>
    decreases s.len(),
{
    if s.len() > 0 && s.first() == c {
        trim_start(s.drop_first(), c)
    } else {
        s
    }
}

/// `s` without the run of `c` at its end.
pub open spec fn trim_end(s: Seq<char>, c: char) -> Seq<char>
    decreases s.len(),
{
    if s.len() > 0 && s.last() == c {
        trim_end(s.drop_last(), c)
    } else {
        s
    }
}

/// Computes [`trim_start`].
pub fn without_leading(s: &Vec<char>, c: char) -> (r: Vec<char>)
    ensures
        r@ == trim_start(s@, c),
{
    let mut start: usize = 0;
    assert(s@.skip(0) =~= s@);
    while start < s.len() && s[start] == c
        invariant
            start <= s@.len(),
            trim_start(s@.skip(start as int), c) == trim_start(s@, c),
        decreases s@.len() - start,
    {
        assert(s@.skip(start as int).drop_first() =~= s@.skip(start + 1));
        start += 1;
    }
    let mut out: Vec<char> = Vec::new();
    let mut i: usize = start;
    while i < s.len()
        invariant
            start <= i <= s@.len(),
            out@ == s@.subrange(start as int, i as int),
        decreases s@.len() - i,
    {
        out.push(s[i]);
        i += 1;
    }
    assert(out@ =~= s@.skip(start as int));
    out
}

/// Computes [`trim_end`].
pub fn without_trailing(s: Vec<char>, c: char) -> (r: Vec<char>)
    ensures
        r@ == trim_end(s@, c),
{
    let mut out = s;
    while out.len() > 0 && out[out.len() - 1] == c
        invariant
            trim_end(out@, c) == trim_end(s@, c),
        decreases out@.len(),
    {
        let ghost before = out@;
        out.pop();
        assert(out@ =~= before.drop_last());
    }
    out
}

/// What trimming leaves at the start is a tail of the text, and does not begin
/// with the trimmed character; nothing but that character went.
pub proof fn lemma_trim_start(s: Seq<char>, c: char)
    ensures
        trim_start(s, c).len() <= s.len(),
        trim_start(s, c) == s.skip(s.len() - trim_start(s, c).len()),
        trim_start(s, c).len() > 0 ==> trim_start(s, c).first() != c,
        forall|i: int| 0 <= i < s.len() - trim_start(s, c).len() ==> #[trigger] s[i] == c,
    decreases s.len(),
{
    if s.len() > 0 && s.first() == c {
        lemma_trim_start(s.drop_first(), c);
        let rest = trim_start(s.drop_first(), c);
        assert(s.drop_first().skip(s.drop_first().len() - rest.len()) =~= s.skip(
            s.len() - rest.len(),
        ));
        assert forall|i: int| 0 <= i < s.len() - rest.len() implies #[trigger] s[i] == c by {
            if i > 0 {
                assert(s[i] == s.drop_first()[i - 1]);
            }
        }
    } else {
        assert(s.skip(0) =~= s);
    }
}

/// What trimming leaves at the end is a head of the text, and does not end with
/// the trimmed character; nothing but that character went.
pub proof fn lemma_trim_end(s: Seq<char>, c: char)
    ensures
        trim_end(s, c).len() <= s.len(),
        trim_end(s, c) == s.take(trim_end(s, c).len() as int),
        trim_end(s, c).len() > 0 ==> trim_end(s, c).last() != c,
        forall|i: int| trim_end(s, c).len() <= i < s.len() ==> #[trigger] s[i] == c,
    decreases s.len(),
{
    if s.len() > 0 && s.last() == c {
        lemma_trim_end(s.drop_last(), c);
        let rest = trim_end(s.drop_last(), c);
        assert(s.drop_last().take(rest.len() as int) =~= s.take(rest.len() as int));
        assert forall|i: int| rest.len() <= i < s.len() implies #[trigger] s[i] == c by {
            if i < s.len() - 1 {
                assert(s[i] == s.drop_last()[i]);
            }
        }
    } else {
        assert(s.take(s.len() as int) =~= s);
    }
}

// ---- Joining --------------------------------------------------------------
/// The texts one after the other, with `separator` between neighbours.
pub open spec fn joined(texts: Seq<Seq<char>>, separator: Seq<char>) -> Seq<char>
    decreases texts.len(),
{
    if texts.len() == 0 {
        Seq::empty()
    } else if texts.len() == 1 {
        texts.first()
    } else {
        texts.first() + separator + joined(texts.drop_first(), separator)
    }
}

/// Adding a text at the end of a join puts the separator and then the text
/// behind what was there.
pub proof fn lemma_joined_push(texts: Seq<Seq<char>>, separator: Seq<char>, text: Seq<char>)
    requires
        texts.len() > 0,
    ensures
        joined(texts.push(text), separator) == joined(texts, separator) + separator + text,
    decreases texts.len(),
{
    let more = texts.push(text);
    assert(more.drop_first() =~= texts.drop_first().push(text));
    if texts.len() == 1 {
        assert(more.drop_first() =~= seq![text]);
        assert(joined(seq![text], separator) == text);
    } else {
        lemma_joined_push(texts.drop_first(), separator, text);
    }
    assert(joined(more, separator) =~= joined(texts, separator) + separator + text);
}

/// Every joined text stands in the join as a whole.
pub proof fn lemma_joined_holds_each(texts: Seq<Seq<char>>, separator: Seq<char>, i: int)
    requires
        0 <= i < texts.len(),
    ensures
        contains_text(joined(texts, separator), texts[i]),
    decreases texts.len(),
{
    let all = joined(texts, separator);
    if i == 0 {
        assert(all.subrange(0, texts[0].len() as int) =~= texts[0]);
        assert(occurs_at(all, texts[0], 0));
    } else {
        let rest = texts.drop_first();
        lemma_joined_holds_each(rest, separator, i - 1);
        let at = choose|at: int| occurs_at(joined(rest, separator), texts[i], at);
        let shift = texts[0].len() + separator.len();
        assert(all.subrange(shift + at, shift + at + texts[i].len()) =~= texts[i]);
        assert(occurs_at(all, texts[i], shift + at));
    }
}

/// `part` stands in `whole`, starting at position `at`.
pub open spec fn occurs_at(whole: Seq<char>, part: Seq<char>, at: int) -> bool {
    &&& 0 <= at
    &&& at + part.len() <= whole.len()
    &&& whole.subrange(at, at + part.len()) == part
}

/// `part` stands somewhere in `whole`.
pub open spec fn contains_text(whole: Seq<char>, part: Seq<char>) -> bool {
    exists|at: int| occurs_at(whole, part, at)
}

/// A text between two others stands in the three put together.
pub proof fn lemma_contains_middle(before: Seq<char>, part: Seq<char>, after: Seq<char>)
    ensures
        contains_text(before + part + after, part),
{
    let whole = before + part + after;
    assert(whole.subrange(before.len() as int, (before.len() + part.len()) as int) =~= part);
    assert(occurs_at(whole, part, before.len() as int));
}

/// What stands in a part stands in the whole.
pub proof fn lemma_contains_transitive(whole: Seq<char>, part: Seq<char>, piece: Seq<char>)
    requires
        contains_text(whole, part),
        contains_text(part, piece),
    ensures
        contains_text(whole, piece),
{
    let a = choose|at: int| occurs_at(whole, part, at);
    let b = choose|at: int| occurs_at(part, piece, at);
    assert(whole.subrange(a + b, a + b + piece.len()) =~= whole.subrange(
        a,
        a + part.len(),
    ).subrange(b, b + piece.len()));
    assert(occurs_at(whole, piece, a + b));
}

/// Joins the texts with the separator.
pub fn join(texts: &Vec<String>, separator: &str) -> (r: String)
    ensures
        r@ == joined(texts.deep_view(), separator@),
{
    let mut out = String::new();
    let ghost all = texts.deep_view();
    let mut i: usize = 0;
    while i < texts.len()
        invariant
            i <= texts@.len(),
            all == texts.deep_view(),
            out@ == joined(all.take(i as int), separator@),
        decreases texts@.len() - i,
    {
        assert(all.take(i + 1) =~= all.take(i as int).push(all[i as int]));
        if i > 0 {
            proof {
                lemma_joined_push(all.take(i as int), separator@, all[i as int]);
            }
            out.append(separator);
            out.append(texts[i].as_str());
        } else {
            out.append(texts[i].as_str());
            assert(out@ =~= all[0]);
        }
        i += 1;
    }
    assert(all.take(i as int) =~= all);
    out
}

// ---- Decimal numbers ------------------------------------------------------
/// The character for a decimal digit.
pub open spec fn digit(d: nat) -> char {
    ('0' as u32 + d) as char
}

/// A number in decimal, without leading zeros.
pub open spec fn decimal(n: nat) -> Seq<char>
    decreases n,
{
    if n < 10 {
        seq![digit(n)]
    } else {
        decimal(n / 10).push(digit(n % 10))
    }
}

/// Writes a number in decimal.
pub fn decimal_text(n: u128) -> (r: String)
    ensures
        r@ == decimal(n as nat),
    decreases n,
{
    let mut out = if n < 10 {
        String::new()
    } else {
        decimal_text(n / 10)
    };
    out.push((48u8 + (n % 10) as u8) as char);
    assert(out@ =~= decimal(n as nat));
    out
}

/// A decimal digit.
pub open spec fn is_digit(c: char) -> bool {
    '0' <= c <= '9'
}

/// The number that a run of digits writes; leading zeros change nothing.
pub open spec fn digits_value(s: Seq<char>) -> nat
    decreases s.len(),
{
    if s.len() == 0 {
        0
    } else {
        digits_value(s.drop_last()) * 10 + (s.last() as u32 - '0' as u32) as nat
    }
}

// ---- Laws -----------------------------------------------------------------
/// An uppercase ASCII letter becomes the letter at the same place of the
/// lowercase alphabet; no other character changes.
pub proof fn law_lowering_keeps_the_letter(c: char)
    ensures
        'A' <= c <= 'Z' ==> 'a' <= lower_ascii(c) <= 'z' && lower_ascii(c) as u32 - 'a' as u32
            == c as u32 - 'A' as u32,
        !('A' <= c <= 'Z') ==> lower_ascii(c) == c,
{
}

/// The ASCII letters and digits are three runs of code points.
pub proof fn law_alphanumeric_code_points(c: char)
    ensures
        is_ascii_alphanumeric(c) <==> (48 <= c as u32 <= 57 || 65 <= c as u32 <= 90 || 97
            <= c as u32 <= 122),
{
}

/// Two characters are the same, or the two cases of one ASCII letter.
pub open spec fn same_letter(a: char, b: char) -> bool {
    ||| a == b
    ||| 'A' <= a <= 'Z' && b as u32 == a as u32 + 32
    ||| 'A' <= b <= 'Z' && a as u32 == b as u32 + 32
}

/// Texts are equal up to case exactly where they are equally long and agree
/// letter by letter.
pub proof fn law_equal_up_to_case(a: Seq<char>, b: Seq<char>)
    ensures
        lowered(a) == lowered(b) <==> a.len() == b.len() && forall|i: int|
            0 <= i < a.len() ==> same_letter(#[trigger] a[i], b[i]),
{
    if lowered(a) == lowered(b) {
        assert(lowered(a).len() == a.len());
        assert(lowered(b).len() == b.len());
        assert forall|i: int| 0 <= i < a.len() implies same_letter(#[trigger] a[i], b[i]) by {
            assert(lowered(a)[i] == lower_ascii(a[i]));
            assert(lowered(b)[i] == lower_ascii(b[i]));
        }
    }
    if a.len() == b.len() && forall|i: int| 0 <= i < a.len() ==> same_letter(#[trigger] a[i], b[i]) {
        assert forall|i: int| 0 <= i < a.len() implies lowered(a)[i] == lowered(b)[i] by {
            assert(same_letter(a[i], b[i]));
        }
        assert(lowered(a) =~= lowered(b));
    }
}

/// A join of nothing is empty, a join of one text is that text, and one text
/// more comes last, behind a separator.
pub proof fn law_joining(texts: Seq<Seq<char>>, separator: Seq<char>, text: Seq<char>)
    ensures
        joined(Seq::empty(), separator).len() == 0,
        joined(seq![text], separator) == text,
        texts.len() > 0 ==> joined(texts.push(text), separator) == joined(texts, separator)
            + separator + text,
{
    if texts.len() > 0 {
        lemma_joined_push(texts, separator, text);
    }
}

/// One more digit makes ten times the number and the digit; no digit is zero.
pub proof fn law_digits_count_by_ten(s: Seq<char>, c: char)
    requires
        '0' <= c <= '9',
    ensures
        digits_value(Seq::empty()) == 0,
        digits_value(s.push(c)) == 10 * digits_value(s) + (c as u32 - 48),
{
    assert(s.push(c).drop_last() =~= s);
}

/// A number is written in digits that give its value, without a zero in front
/// of other digits.
pub proof fn law_decimal_writes_the_number(n: nat)
    ensures
        decimal(n).len() > 0,
        forall|i: int| 0 <= i < decimal(n).len() ==> '0' <= #[trigger] decimal(n)[i] <= '9',
        digits_value(decimal(n)) == n,
        decimal(n).len() > 1 ==> decimal(n)[0] != '0',
        n < 10 <==> decimal(n).len() == 1,
    decreases n,
{
    let written = decimal(n);
    if n < 10 {
        assert(written.drop_last() =~= Seq::empty());
        assert(digits_value(written.drop_last()) == 0);
    } else {
        law_decimal_writes_the_number(n / 10);
        assert(written.drop_last() =~= decimal(n / 10));
        assert(written[0] == decimal(n / 10)[0]);
        if n / 10 < 10 {
            let first = decimal(n / 10);
            assert(first =~= seq![digit(n / 10)]);
            assert(n / 10 > 0);
        }
    }
}

} // verus!
