//! Names of the Kubernetes objects that one helm run creates.
//!
//! A Job is named after the kind of run, the Helm release and eight random
//! characters; the Secret with its credentials is named after the Job.
use vstd::prelude::*;
use vstd::string::StringExecFns;

use crate::text;

verus! {

/// The most characters of a release name that go into an object's name; this
/// leaves room for the prefix and the random suffix.
pub const MAX_SEGMENT: usize = 40;

/// The number of random characters at the end of a Job's name.
pub const SUFFIX_LENGTH: usize = 8;

// ---- Segments -------------------------------------------------------------
/// What a character of a release name becomes in an object's name.
pub open spec fn name_char(c: char) -> char {
    if text::is_ascii_alphanumeric(c) {
        text::lower_ascii(c)
    } else {
        '-'
    }
}

/// `s` with each character replaced by what it becomes in an object's name.
pub open spec fn name_chars(s: Seq<char>) -> Seq<char> {
    s.map_values(|c: char| name_char(c))
}

/// `s` without hyphens at either end.
pub open spec fn trim_hyphens(s: Seq<char>) -> Seq<char> {
    text::trim_end(text::trim_start(s, '-'), '-')
}

/// The first `n` characters of `s`, or all of a shorter text.
pub open spec fn first_chars(s: Seq<char>, n: nat) -> Seq<char> {
    if s.len() <= n {
        s
    } else {
        s.take(n as int)
    }
}

/// A release name as a segment of an object's name. The cut may lay a hyphen
/// bare at the end; it goes too.
pub open spec fn sanitized(s: Seq<char>) -> Seq<char> {
    text::trim_end(first_chars(trim_hyphens(name_chars(s)), MAX_SEGMENT as nat), '-')
}

/// A lowercase ASCII letter or a digit.
pub open spec fn is_lower_alphanumeric(c: char) -> bool {
    'a' <= c <= 'z' || '0' <= c <= '9'
}

/// A character that an object's name may hold.
pub open spec fn is_name_char(c: char) -> bool {
    is_lower_alphanumeric(c) || c == '-'
}

/// Every character of `s` may stand in an object's name.
pub open spec fn all_name_chars(s: Seq<char>) -> bool {
    forall|i: int| 0 <= i < s.len() ==> is_name_char(#[trigger] s[i])
}

/// Computes [`first_chars`].
fn leading_chars(chars: Vec<char>, n: usize) -> (r: Vec<char>)
    ensures
        r@ == first_chars(chars@, n as nat),
{
    let mut kept = chars;
    if kept.len() > n {
        kept.truncate(n);
        assert(kept@ =~= chars@.take(n as int));
    }
    kept
}

/// Converts arbitrary strings to valid segments of Kubernetes names: ASCII
/// letters are lowered, every character that is neither an ASCII letter nor a
/// digit becomes a hyphen, at most 40 characters stay, and no hyphen is left at
/// either end.
pub fn sanitize_k8s_name(s: &str) -> (r: String)
    ensures
        r@ == sanitized(s@),
{
    let chars = text::chars_of(s);
    let mut mapped: Vec<char> = Vec::new();
    let mut i: usize = 0;
    while i < chars.len()
        invariant
            chars@ == s@,
            i <= chars@.len(),
            mapped@ == name_chars(s@).take(i as int),
        decreases chars@.len() - i,
    {
        let c = chars[i];
        mapped.push(if text::check_ascii_alphanumeric(c) {
            text::to_lower_ascii(c)
        } else {
            '-'
        });
        i += 1;
        assert(mapped@ =~= name_chars(s@).take(i as int));
    }
    assert(mapped@ =~= name_chars(s@));
    let trimmed = text::without_trailing(text::without_leading(&mapped, '-'), '-');
    let cut = text::without_trailing(leading_chars(trimmed, MAX_SEGMENT), '-');
    text::string_of(&cut)
}

// ---- Job and Secret names -------------------------------------------------
/// A lowercase hexadecimal digit.
pub open spec fn is_lower_hex(c: char) -> bool {
    '0' <= c <= '9' || 'a' <= c <= 'f'
}

/// The places of the hyphens in a hyphenated UUID.
pub open spec fn is_uuid_hyphen(i: int) -> bool {
    i == 8 || i == 13 || i == 18 || i == 23
}

/// A version 4 UUID as text: 32 lowercase hexadecimal digits in five groups
/// with hyphens between, the digits of the version and of the variant fixed.
pub open spec fn is_uuid_v4_text(s: Seq<char>) -> bool {
    &&& s.len() == 36
    &&& forall|i: int|
        0 <= i < 36 ==> if is_uuid_hyphen(i) {
            #[trigger] s[i] == '-'
        } else {
            is_lower_hex(s[i])
        }
    &&& s[14] == '4'
    &&& s[19] == '8' || s[19] == '9' || s[19] == 'a' || s[19] == 'b'
}

/// Trusted: `uuid::Uuid::new_v4` and the text that `to_string` gives of it.
/// Claims of every outcome that it is the hyphenated lowercase text of a
/// version 4 UUID, and nothing of which one. The call panics only where the
/// operating system hands out no random bytes.
#[verifier::external_body]
pub(crate) fn random_uuid_text() -> (r: String)
    ensures
        is_uuid_v4_text(r@),
{
    uuid::Uuid::new_v4().to_string()
}

/// The suffix of a Job's name that a UUID gives: its first eight characters
/// other than hyphens.
pub open spec fn suffix_of(uuid: Seq<char>) -> Seq<char> {
    first_chars(uuid.filter(|c: char| c != '-'), SUFFIX_LENGTH as nat)
}

/// Computes the suffix that a UUID's text gives.
pub fn job_suffix(uuid: &str) -> (r: String)
    ensures
        r@ == suffix_of(uuid@),
{
    let chars = text::chars_of(uuid);
    let ghost keep = |c: char| c != '-';
    let mut kept: Vec<char> = Vec::new();
    let mut i: usize = 0;
    while i < chars.len()
        invariant
            chars@ == uuid@,
            i <= chars@.len(),
            keep == (|c: char| c != '-'),
            kept@ == uuid@.take(i as int).filter(keep),
        decreases chars@.len() - i,
    {
        proof {
            reveal(Seq::filter);
            assert(uuid@.take(i + 1).drop_last() =~= uuid@.take(i as int));
        }
        if chars[i] != '-' {
            kept.push(chars[i]);
        }
        i += 1;
    }
    assert(uuid@.take(i as int) =~= uuid@);
    text::string_of(&leading_chars(kept, SUFFIX_LENGTH))
}

/// The name of the Job for one run.
pub open spec fn job_name_of(
    job_label: Seq<char>,
    release_name: Seq<char>,
    uuid: Seq<char>,
) -> Seq<char> {
    "helm-"@ + job_label + "-"@ + sanitized(release_name) + "-"@ + suffix_of(uuid)
}

/// The name of the Secret that holds a Job's credentials.
pub open spec fn secret_name_of(job_name: Seq<char>) -> Seq<char> {
    job_name + "-creds"@
}

/// Names a Job after the kind of run, the sanitized release and the suffix.
pub fn job_name(job_label: &str, safe_release: &str, suffix: &str) -> (r: String)
    ensures
        r@ == "helm-"@ + job_label@ + "-"@ + safe_release@ + "-"@ + suffix@,
{
    let mut out = "helm-".to_string();
    out.append(job_label);
    out.append("-");
    out.append(safe_release);
    out.append("-");
    out.append(suffix);
    out
}

/// Names the Secret of a Job.
pub fn secret_name(job_name: &str) -> (r: String)
    ensures
        r@ == secret_name_of(job_name@),
{
    job_name.to_string().concat("-creds")
}

// ---- Laws -----------------------------------------------------------------
/// A character of a release name becomes a character that a name may hold.
proof fn lemma_name_char(c: char)
    ensures
        is_name_char(name_char(c)),
        is_name_char(c) ==> name_char(c) == c,
        name_char(text::lower_ascii(c)) == name_char(c),
{
}

/// Whatever the release name holds, its segment has at most 40 characters,
/// all of them lowercase letters, digits or hyphens, and no hyphen at either
/// end.
pub proof fn law_segment_is_valid(s: Seq<char>)
    ensures
        sanitized(s).len() <= MAX_SEGMENT,
        all_name_chars(sanitized(s)),
        sanitized(s).len() > 0 ==> is_lower_alphanumeric(sanitized(s).first()),
        sanitized(s).len() > 0 ==> is_lower_alphanumeric(sanitized(s).last()),
{
    let mapped = name_chars(s);
    let started = text::trim_start(mapped, '-');
    let trimmed = trim_hyphens(mapped);
    text::lemma_trim_start(mapped, '-');
    text::lemma_trim_end(started, '-');
    text::lemma_trim_end(first_chars(trimmed, MAX_SEGMENT as nat), '-');
    let skipped = mapped.len() - started.len();
    assert forall|i: int| 0 <= i < sanitized(s).len() implies is_name_char(
        #[trigger] sanitized(s)[i],
    ) by {
        lemma_name_char(s[skipped + i]);
        assert(sanitized(s)[i] == name_char(s[skipped + i]));
    }
    if sanitized(s).len() > 0 {
        assert(sanitized(s).first() == started.first());
        assert(is_name_char(sanitized(s)[0]));
        assert(is_name_char(sanitized(s)[sanitized(s).len() - 1]));
    }
}

/// A name that is already a segment, without a hyphen at either end, stays as
/// it is.
pub proof fn law_clean_name_is_kept(s: Seq<char>)
    requires
        all_name_chars(s),
        s.len() <= MAX_SEGMENT,
        s.len() > 0 ==> s.first() != '-' && s.last() != '-',
    ensures
        sanitized(s) == s,
{
    assert forall|i: int| 0 <= i < s.len() implies name_chars(s)[i] == #[trigger] s[i] by {
        lemma_name_char(s[i]);
    }
    assert(name_chars(s) =~= s);
}

/// Sanitizing a segment again changes nothing.
pub proof fn law_sanitizing_twice(s: Seq<char>)
    ensures
        sanitized(sanitized(s)) == sanitized(s),
{
    law_segment_is_valid(s);
    law_clean_name_is_kept(sanitized(s));
}

/// Names that differ only in the case of ASCII letters have one segment.
pub proof fn law_segment_ignores_case(a: Seq<char>, b: Seq<char>)
    requires
        text::lowered(a) == text::lowered(b),
    ensures
        sanitized(a) == sanitized(b),
{
    assert(a.len() == text::lowered(a).len());
    assert(b.len() == text::lowered(b).len());
    assert forall|i: int| 0 <= i < a.len() implies name_chars(a)[i] == name_chars(b)[i] by {
        lemma_name_char(a[i]);
        lemma_name_char(b[i]);
        assert(text::lowered(a)[i] == text::lower_ascii(a[i]));
        assert(text::lowered(b)[i] == text::lower_ascii(b[i]));
    }
    assert(name_chars(a) =~= name_chars(b));
}

/// Nothing is filtered out of a text all of whose characters pass.
proof fn lemma_filter_keeps_all(s: Seq<char>, keep: spec_fn(char) -> bool)
    requires
        forall|i: int| 0 <= i < s.len() ==> keep(#[trigger] s[i]),
    ensures
        s.filter(keep) == s,
    decreases s.len(),
{
    reveal(Seq::filter);
    if s.len() > 0 {
        lemma_filter_keeps_all(s.drop_last(), keep);
        assert(s.drop_last().push(s.last()) =~= s);
    } else {
        assert(s.filter(keep) =~= s);
    }
}

/// The suffix taken from a UUID is its first group: eight lowercase
/// hexadecimal digits.
pub proof fn law_suffix_is_eight_hex_digits(uuid: Seq<char>)
    requires
        is_uuid_v4_text(uuid),
    ensures
        suffix_of(uuid) == uuid.take(8),
        suffix_of(uuid).len() == SUFFIX_LENGTH,
        forall|i: int| 0 <= i < 8 ==> is_lower_hex(#[trigger] suffix_of(uuid)[i]),
{
    let keep = |c: char| c != '-';
    let head = uuid.take(8);
    let tail = uuid.skip(8);
    assert(head + tail =~= uuid);
    assert forall|i: int| 0 <= i < 8 implies keep(#[trigger] head[i]) && is_lower_hex(head[i]) by {
        assert(uuid[i] == head[i]);
    }
    lemma_filter_keeps_all(head, keep);
    Seq::filter_distributes_over_add(head, tail, keep);
    assert(uuid.filter(keep) == head + tail.filter(keep));
    assert(suffix_of(uuid) =~= head);
}

/// A label as DNS has it (RFC 1123): 1 to 63 lowercase letters, digits and
/// hyphens, with no hyphen at either end.
pub open spec fn is_dns_label(s: Seq<char>) -> bool {
    1 <= s.len() <= 63 && is_dns_subdomain_of_one_label(s)
}

/// A DNS subdomain name without dots: 1 to 253 lowercase letters, digits and
/// hyphens, with no hyphen at either end.
pub open spec fn is_dns_subdomain_of_one_label(s: Seq<char>) -> bool {
    &&& 1 <= s.len() <= 253
    &&& all_name_chars(s)
    &&& is_lower_alphanumeric(s.first())
    &&& is_lower_alphanumeric(s.last())
}

/// Every Job that is named after a run of a short, lowercase kind has a name
/// that Kubernetes takes for a Job and for the pods' label with the Job's
/// name, whatever the release is called; its Secret's name is valid too.
pub proof fn law_object_names_are_valid(
    job_label: Seq<char>,
    release_name: Seq<char>,
    uuid: Seq<char>,
)
    requires
        job_label.len() <= 8,
        all_name_chars(job_label),
        is_uuid_v4_text(uuid),
    ensures
        is_dns_label(job_name_of(job_label, release_name, uuid)),
        is_dns_subdomain_of_one_label(
            secret_name_of(job_name_of(job_label, release_name, uuid)),
        ),
{
    reveal_strlit("helm-");
    reveal_strlit("-");
    reveal_strlit("-creds");
    law_segment_is_valid(release_name);
    law_suffix_is_eight_hex_digits(uuid);
    let segment = sanitized(release_name);
    let suffix = suffix_of(uuid);
    let name = job_name_of(job_label, release_name, uuid);
    let a = 5 + job_label.len();
    let b = a + 1 + segment.len();
    assert(name.len() == b + 1 + 8);
    assert forall|i: int| 0 <= i < name.len() implies is_name_char(#[trigger] name[i]) by {
        if i < 5 {
            assert(name[i] == "helm-"@[i]);
        } else if i < a {
            assert(name[i] == job_label[i - 5]);
        } else if i == a {
            assert(name[i] == '-');
        } else if i < b {
            assert(name[i] == segment[i - a - 1]);
        } else if i == b {
            assert(name[i] == '-');
        } else {
            assert(name[i] == suffix[i - b - 1]);
        }
    }
    assert(name.first() == 'h');
    assert(name.last() == suffix[7]);
    let secret = secret_name_of(name);
    assert forall|i: int| 0 <= i < secret.len() implies is_name_char(#[trigger] secret[i]) by {
        if i < name.len() {
            assert(secret[i] == name[i]);
        } else {
            assert(secret[i] == "-creds"@[i - name.len()]);
        }
    }
}

/// Two runs whose UUIDs differ in the first group have Jobs and Secrets of
/// different names.
pub proof fn law_suffixes_tell_runs_apart(
    job_label: Seq<char>,
    release_name: Seq<char>,
    first: Seq<char>,
    second: Seq<char>,
)
    requires
        is_uuid_v4_text(first),
        is_uuid_v4_text(second),
        first.take(8) != second.take(8),
    ensures
        job_name_of(job_label, release_name, first) != job_name_of(
            job_label,
            release_name,
            second,
        ),
        secret_name_of(job_name_of(job_label, release_name, first)) != secret_name_of(
            job_name_of(job_label, release_name, second),
        ),
{
    law_suffix_is_eight_hex_digits(first);
    law_suffix_is_eight_hex_digits(second);
    let a = job_name_of(job_label, release_name, first);
    let b = job_name_of(job_label, release_name, second);
    let start = a.len() - 8;
    assert(a.skip(start) =~= first.take(8));
    assert(b.skip(start) =~= second.take(8));
    assert(secret_name_of(a).take(a.len() as int) =~= a);
    assert(secret_name_of(b).take(a.len() as int) =~= b);
}

/// `segment` stands for the characters of `s` from `start` on: each letter or
/// digit for itself in lower case, each other character as a hyphen. Before it
/// comes no letter and no digit. It begins and ends in a letter or a digit, and
/// what follows it up to the fortieth character is neither. It is empty only
/// where there is no letter and no digit at all.
pub open spec fn stands_for(s: Seq<char>, segment: Seq<char>, start: int) -> bool {
    &&& 0 <= start
    &&& start + segment.len() <= s.len()
    &&& segment.len() <= 40
    &&& forall|i: int| 0 <= i < start ==> !text::is_ascii_alphanumeric(#[trigger] s[i])
    &&& forall|i: int|
        0 <= i < segment.len() ==> #[trigger] segment[i] == (if text::is_ascii_alphanumeric(
            s[start + i],
        ) {
            text::lower_ascii(s[start + i])
        } else {
            '-'
        })
    &&& segment.len() > 0 ==> segment[0] != '-' && segment[segment.len() - 1] != '-'
    &&& forall|j: int|
        start + segment.len() <= j < s.len() && j < start + 40 ==> !text::is_ascii_alphanumeric(
            #[trigger] s[j],
        )
    &&& segment.len() == 0 ==> forall|j: int|
        0 <= j < s.len() ==> !text::is_ascii_alphanumeric(#[trigger] s[j])
}

/// The segment of a release name stands for the name, from its first letter or
/// digit on.
pub proof fn law_segment_stands_for_name(s: Seq<char>)
    ensures
        exists|start: int| stands_for(s, sanitized(s), start),
{
    let mapped = name_chars(s);
    let started = text::trim_start(mapped, '-');
    let trimmed = trim_hyphens(mapped);
    let cut = first_chars(trimmed, MAX_SEGMENT as nat);
    let segment = sanitized(s);
    text::lemma_trim_start(mapped, '-');
    text::lemma_trim_end(started, '-');
    text::lemma_trim_end(cut, '-');
    law_segment_is_valid(s);
    let start = mapped.len() - started.len();
    assert forall|i: int| 0 <= i < s.len() implies (mapped[i] == '-') == !text::is_ascii_alphanumeric(
        #[trigger] s[i],
    ) by {
        assert(mapped[i] == name_char(s[i]));
    }
    assert forall|i: int| 0 <= i < started.len() implies started[i] == #[trigger] mapped[start
        + i] by {}
    assert forall|i: int| 0 <= i < start implies !text::is_ascii_alphanumeric(
        #[trigger] s[i],
    ) by {
        assert(mapped[i] == '-');
    }
    assert forall|i: int| 0 <= i < segment.len() implies #[trigger] segment[i] == name_char(
        s[start + i],
    ) by {
        assert(segment[i] == cut[i]);
        assert(cut[i] == trimmed[i]);
        assert(trimmed[i] == started[i]);
        assert(started[i] == mapped[start + i]);
    }
    assert forall|j: int|
        start + segment.len() <= j < s.len() && j < start
            + 40 implies !text::is_ascii_alphanumeric(#[trigger] s[j]) by {
        let i = j - start;
        assert(started[i] == mapped[j]);
        if i < trimmed.len() {
            assert(cut[i] == trimmed[i]);
            assert(cut[i] == '-');
            assert(trimmed[i] == started[i]);
        } else {
            assert(started[i] == '-');
        }
    }
    if segment.len() == 0 {
        if trimmed.len() > 0 {
            assert(trimmed[0] == started[0]);
            assert(cut[0] == trimmed[0]);
            assert(false);
        }
        assert forall|j: int| 0 <= j < s.len() implies !text::is_ascii_alphanumeric(
            #[trigger] s[j],
        ) by {
            if j >= start {
                assert(started[j - start] == mapped[j]);
                assert(started[j - start] == '-');
            }
        }
    }
    assert(stands_for(s, segment, start));
}

/// Only one text stands for a name, so that the segment is fixed by it.
pub proof fn law_segment_is_unique(s: Seq<char>, a: Seq<char>, b: Seq<char>, m: int, n: int)
    requires
        stands_for(s, a, m),
        stands_for(s, b, n),
    ensures
        a == b,
{
    if a.len() > 0 {
        assert(a[0] != '-');
        assert(text::is_ascii_alphanumeric(s[m + 0]));
    }
    if b.len() > 0 {
        assert(b[0] != '-');
        assert(text::is_ascii_alphanumeric(s[n + 0]));
    }
    if a.len() > 0 && b.len() > 0 {
        assert(m == n);
        if a.len() < b.len() {
            assert(b[b.len() - 1] != '-');
            assert(text::is_ascii_alphanumeric(s[n + (b.len() - 1)]));
            assert(false);
        }
        if b.len() < a.len() {
            assert(a[a.len() - 1] != '-');
            assert(text::is_ascii_alphanumeric(s[m + (a.len() - 1)]));
            assert(false);
        }
        assert forall|i: int| 0 <= i < a.len() implies a[i] == b[i] by {}
    }
    assert(a =~= b);
}

/// A suffix is the first eight characters of a text without hyphens, and a
/// hyphen anywhere makes no difference to it.
pub proof fn law_suffix_passes_over_hyphens(a: Seq<char>, b: Seq<char>)
    ensures
        suffix_of(a + seq!['-'] + b) == suffix_of(a + b),
        (forall|i: int| 0 <= i < a.len() ==> #[trigger] a[i] != '-') ==> suffix_of(a) == a.take(
            if a.len() < 8 {
                a.len() as int
            } else {
                8
            },
        ),
{
    let keep = |c: char| c != '-';
    let hyphen = seq!['-'];
    Seq::filter_distributes_over_add(a + hyphen, b, keep);
    Seq::filter_distributes_over_add(a, hyphen, keep);
    Seq::filter_distributes_over_add(a, b, keep);
    assert(hyphen.filter(keep) =~= Seq::empty()) by {
        reveal(Seq::filter);
        assert(hyphen.drop_last() =~= Seq::empty());
        assert(hyphen.drop_last().filter(keep) =~= Seq::empty());
    }
    assert((a + hyphen + b).filter(keep) =~= (a + b).filter(keep));
    if forall|i: int| 0 <= i < a.len() ==> #[trigger] a[i] != '-' {
        lemma_filter_keeps_all(a, keep);
        assert(suffix_of(a) =~= a.take(
            if a.len() < 8 {
                a.len() as int
            } else {
                8
            },
        ));
    }
}

/// A Job's name is made of the word `helm`, the kind of run, the segment of the
/// release and the first group of the UUID, with hyphens between, and nothing
/// else; its Secret's name is the same with `-creds` behind.
pub proof fn law_names_are_made_of_their_parts(
    job_label: Seq<char>,
    release_name: Seq<char>,
    uuid: Seq<char>,
)
    requires
        is_uuid_v4_text(uuid),
    ensures
        ({
            let name = job_name_of(job_label, release_name, uuid);
            let secret = secret_name_of(name);
            let segment = sanitized(release_name);
            let at = 6int + job_label.len();
            &&& name.len() == at + segment.len() + 9
            &&& name.take(5) == seq!['h', 'e', 'l', 'm', '-']
            &&& name.subrange(5, at - 1) == job_label
            &&& name[at - 1] == '-'
            &&& name.subrange(at, at + segment.len()) == segment
            &&& name[at + segment.len()] == '-'
            &&& name.skip(name.len() - 8) == uuid.take(8)
            &&& secret.take(name.len() as int) == name
            &&& secret.skip(name.len() as int) == seq!['-', 'c', 'r', 'e', 'd', 's']
        }),
{
    reveal_strlit("helm-");
    reveal_strlit("-");
    reveal_strlit("-creds");
    law_suffix_is_eight_hex_digits(uuid);
    let name = job_name_of(job_label, release_name, uuid);
    let secret = secret_name_of(name);
    let segment = sanitized(release_name);
    let at = 6int + job_label.len();
    assert(name.take(5) =~= seq!['h', 'e', 'l', 'm', '-']);
    assert(name.subrange(5, at - 1) =~= job_label);
    assert(name.subrange(at, at + segment.len()) =~= segment);
    assert(name.skip(name.len() - 8) =~= uuid.take(8));
    assert(secret.take(name.len() as int) =~= name);
    assert(secret.skip(name.len() as int) =~= seq!['-', 'c', 'r', 'e', 'd', 's']);
}

} // verus!
