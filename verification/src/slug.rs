//! File names derived from video URLs.
use vstd::prelude::*;
use crate::text::{
    chars_of, char_is_alphanumeric, is_alphanumeric, skip_prefixes, starts_with, string_of, strip_prefixes,
    strip_trailing,
};

verus! {

/// The longest slug, in characters.
pub const SLUG_MAX_CHARS: usize = 80;

/// The character that stands for `c` in a slug, where `alphanumeric` tells
/// whether `c` is a letter or a digit: those, `-` and `_` stay, anything else
/// becomes `-`.
pub open spec fn slug_char_with(c: char, alphanumeric: bool) -> char {
    if alphanumeric || c == '-' || c == '_' {
        c
    } else {
        '-'
    }
}

/// The character that stands for `c` in a slug, by std's classification.
pub open spec fn slug_char(c: char) -> char {
    slug_char_with(c, char_is_alphanumeric(c))
}

/// The URL without its scheme (`https://`, then `http://`) and a `www.`
/// host prefix, each removed as often as it leads.
pub open spec fn url_without_prefixes(url: Seq<char>) -> Seq<char> {
    strip_prefixes(strip_prefixes(strip_prefixes(url, "https://"@), "http://"@), "www."@)
}

/// At most the first `n` elements of `s`.
pub open spec fn at_most(s: Seq<char>, n: nat) -> Seq<char> {
    if s.len() <= n {
        s
    } else {
        s.take(n as int)
    }
}

/// The slug before the fallback: the cleaned URL mapped character by
/// character, cut to `SLUG_MAX_CHARS` characters, without trailing `-`.
pub open spec fn slug_core(url: Seq<char>) -> Seq<char> {
    strip_trailing(
        at_most(url_without_prefixes(url).map_values(|c: char| slug_char(c)), SLUG_MAX_CHARS as nat),
        '-',
    )
}

/// The slug of a URL: `slug_core`, or `video` where that is empty.
pub open spec fn url_slug(url: Seq<char>) -> Seq<char> {
    if slug_core(url).len() == 0 {
        "video"@
    } else {
        slug_core(url)
    }
}

/// How many leading characters the prefixes take from the URL.
pub open spec fn prefix_cut(url: Seq<char>) -> int {
    url.len() - url_without_prefixes(url).len()
}

/// `slug_core` where `classes[i]` tells whether `url[i]` is a letter or a
/// digit.
pub open spec fn slug_core_with(url: Seq<char>, classes: Seq<bool>) -> Seq<char> {
    let k = prefix_cut(url);
    strip_trailing(
        at_most(
            Seq::new(
                url_without_prefixes(url).len(),
                |i: int| slug_char_with(url[k + i], classes[k + i]),
            ),
            SLUG_MAX_CHARS as nat,
        ),
        '-',
    )
}

/// `url_slug` where `classes[i]` tells whether `url[i]` is a letter or a
/// digit.
pub open spec fn url_slug_with(url: Seq<char>, classes: Seq<bool>) -> Seq<char> {
    if slug_core_with(url, classes).len() == 0 {
        "video"@
    } else {
        slug_core_with(url, classes)
    }
}

/// std's classification of each character of the URL as a letter or digit.
pub open spec fn alphanumeric_classes(url: Seq<char>) -> Seq<bool> {
    url.map_values(|c: char| char_is_alphanumeric(c))
}

/// The character that stands for `c` in a slug.
fn slug_char_with_exec(c: char, alphanumeric: bool) -> (r: char)
    ensures
        r == slug_char_with(c, alphanumeric),
{
    if alphanumeric || c == '-' || c == '_' {
        c
    } else {
        '-'
    }
}

/// Turns a URL into a file name, given whether each of its characters is a
/// letter or a digit (`alphanumeric[i]` for the i-th character): the scheme
/// and `www.` are dropped, every character other than a letter, a digit, `-`
/// or `_` becomes `-`, the result is cut to 80 characters and loses its
/// trailing `-`; `video` stands for an empty result.
pub fn url_to_slug_with(url: &str, alphanumeric: &Vec<bool>) -> (slug: String)
    requires
        alphanumeric@.len() == url@.len(),
    ensures
        slug@ == url_slug_with(url@, alphanumeric@),
{
    let v = chars_of(url);
    let https = chars_of("https://");
    let http = chars_of("http://");
    let www = chars_of("www.");
    assert(v@.skip(0) =~= v@);
    let a = skip_prefixes(&v, 0, &https);
    let b = skip_prefixes(&v, a, &http);
    let c = skip_prefixes(&v, b, &www);
    let ghost cleaned = url_without_prefixes(url@);
    assert(v@.skip(c as int) == cleaned);
    assert(prefix_cut(url@) == c);
    let ghost body = Seq::new(
        cleaned.len(),
        |i: int| slug_char_with(url@[c + i], alphanumeric@[c + i]),
    );
    let end = if v.len() - c > SLUG_MAX_CHARS {
        c + SLUG_MAX_CHARS
    } else {
        v.len()
    };
    let ghost cut = at_most(body, SLUG_MAX_CHARS as nat);
    assert(cut.len() == end - c);
    let mut out: Vec<char> = Vec::new();
    let mut k = c;
    while k < end
        invariant
            c <= k <= end <= v.len(),
            v@ == url@,
            alphanumeric@.len() == url@.len(),
            end - c == cut.len(),
            body.len() == cleaned.len(),
            cleaned.len() == v.len() - c,
            forall|i: int| 0 <= i < body.len() ==> #[trigger] body[i] == slug_char_with(url@[c + i], alphanumeric@[c + i]),
            cut == at_most(body, SLUG_MAX_CHARS as nat),
            out@ == cut.take(k - c),
        decreases end - k,
    {
        let ch = slug_char_with_exec(v[k], alphanumeric[k]);
        assert(cut[k - c] == body[k - c]);
        out.push(ch);
        assert(out@ =~= cut.take(k + 1 - c));
        k = k + 1;
    }
    assert(out@ =~= cut);
    while out.len() > 0 && out[out.len() - 1] == '-'
        invariant
            strip_trailing(out@, '-') == strip_trailing(cut, '-'),
        decreases out.len(),
    {
        let ghost before = out@;
        out.pop();
        assert(out@ =~= before.drop_last());
    }
    assert(strip_trailing(out@, '-') == out@);
    if out.len() == 0 {
        "video".to_owned()
    } else {
        string_of(&out)
    }
}

/// Turns a URL into a file name (see `url_to_slug_with`), with std's
/// classification of letters and digits.
pub fn url_to_slug(url: &str) -> (slug: String)
    ensures
        slug@ == url_slug(url@),
{
    let v = chars_of(url);
    let mut classes: Vec<bool> = Vec::new();
    let mut i: usize = 0;
    while i < v.len()
        invariant
            i <= v@.len(),
            v@ == url@,
            classes@ == alphanumeric_classes(url@).take(i as int),
        decreases v.len() - i,
    {
        classes.push(is_alphanumeric(v[i]));
        assert(classes@ =~= alphanumeric_classes(url@).take(i + 1));
        i = i + 1;
    }
    assert(classes@ =~= alphanumeric_classes(url@));
    proof {
        lemma_slug_with_std_classes(url@);
    }
    url_to_slug_with(url, &classes)
}

/// Whether std classifies the ASCII characters that the slug's fixed-point
/// law rests on as that law says (`ascii_classes_as_std`).
pub fn std_ascii_classes_hold() -> (b: bool)
    ensures
        b == ascii_classes_as_std(),
{
    is_alphanumeric('v') && is_alphanumeric('i') && is_alphanumeric('d') && is_alphanumeric('e')
        && is_alphanumeric('o') && !is_alphanumeric(':') && !is_alphanumeric('/')
        && !is_alphanumeric('.')
}

proof fn lemma_strip_prefixes_suffix(s: Seq<char>, p: Seq<char>)
    ensures
        strip_prefixes(s, p).len() <= s.len(),
        strip_prefixes(s, p) == s.skip(s.len() - strip_prefixes(s, p).len()),
    decreases s.len(),
{
    if p.len() > 0 && starts_with(s, p) {
        let s1 = s.skip(p.len() as int);
        lemma_strip_prefixes_suffix(s1, p);
        let t = strip_prefixes(s1, p);
        assert(s1.skip(s1.len() - t.len()) =~= s.skip(s.len() - t.len()));
    } else {
        assert(s.skip(0) =~= s);
    }
}

proof fn lemma_without_prefixes_suffix(url: Seq<char>)
    ensures
        0 <= prefix_cut(url) <= url.len(),
        url_without_prefixes(url) == url.skip(prefix_cut(url)),
{
    let s1 = strip_prefixes(url, "https://"@);
    let s2 = strip_prefixes(s1, "http://"@);
    let s3 = strip_prefixes(s2, "www."@);
    lemma_strip_prefixes_suffix(url, "https://"@);
    lemma_strip_prefixes_suffix(s1, "http://"@);
    lemma_strip_prefixes_suffix(s2, "www."@);
    assert(s3 =~= url.skip(url.len() - s3.len()));
}

/// With std's classification of letters and digits, the slug given the
/// classes is the slug.
pub proof fn lemma_slug_with_std_classes(url: Seq<char>)
    ensures
        url_slug_with(url, alphanumeric_classes(url)) == url_slug(url),
{
    lemma_without_prefixes_suffix(url);
    let k = prefix_cut(url);
    let cleaned = url_without_prefixes(url);
    let classes = alphanumeric_classes(url);
    let a = Seq::new(cleaned.len(), |i: int| slug_char_with(url[k + i], classes[k + i]));
    let b = cleaned.map_values(|c: char| slug_char(c));
    assert forall|i: int| 0 <= i < a.len() implies a[i] == b[i] by {
        assert(cleaned[i] == url[k + i]);
    }
    assert(a =~= b);
    assert(slug_core_with(url, classes) == slug_core(url));
}

// ---------------------------------------------------------------------------
// Laws
// ---------------------------------------------------------------------------

proof fn lemma_strip_trailing_prefix(s: Seq<char>, c: char)
    ensures
        strip_trailing(s, c).len() <= s.len(),
        strip_trailing(s, c) == s.take(strip_trailing(s, c).len() as int),
        strip_trailing(s, c).len() > 0 ==> strip_trailing(s, c).last() != c,
    decreases s.len(),
{
    if s.len() > 0 && s.last() == c {
        lemma_strip_trailing_prefix(s.drop_last(), c);
        let t = strip_trailing(s.drop_last(), c);
        assert(s.drop_last().take(t.len() as int) =~= s.take(t.len() as int));
    } else {
        assert(s.take(s.len() as int) =~= s);
    }
}

proof fn lemma_strip_trailing_noop(s: Seq<char>, c: char)
    requires
        s.len() == 0 || s.last() != c,
    ensures
        strip_trailing(s, c) == s,
{
}

proof fn lemma_strip_prefixes_noop(s: Seq<char>, p: Seq<char>)
    requires
        !starts_with(s, p),
    ensures
        strip_prefixes(s, p) == s,
{
}

/// A slug is never empty, holds at most 80 characters, does not end with
/// `-`, and, unless it is the fallback `video`, each of its characters stands
/// for itself (a letter, a digit, `-` or `_`).
pub proof fn lemma_slug_shape(url: Seq<char>)
    ensures
        1 <= url_slug(url).len() <= SLUG_MAX_CHARS,
        url_slug(url).last() != '-',
        url_slug(url) != "video"@ ==> forall|i: int|
            0 <= i < url_slug(url).len() ==> slug_char(#[trigger] url_slug(url)[i]) == url_slug(url)[i],
{
    reveal_strlit("video");
    let body = url_without_prefixes(url).map_values(|c: char| slug_char(c));
    let cut = at_most(body, SLUG_MAX_CHARS as nat);
    lemma_strip_trailing_prefix(cut, '-');
    let core = slug_core(url);
    if core.len() > 0 {
        assert forall|i: int| 0 <= i < core.len() implies slug_char(#[trigger] core[i]) == core[i] by {
            assert(core[i] == cut[i]);
            assert(cut[i] == body[i]);
        }
    }
}

/// The ASCII facts about std's `char::is_alphanumeric` that the slug's
/// fixed-point law rests on: the letters of `video` are alphanumeric, and
/// `:`, `/` and `.` are not.
pub open spec fn ascii_classes_as_std() -> bool {
    &&& char_is_alphanumeric('v')
    &&& char_is_alphanumeric('i')
    &&& char_is_alphanumeric('d')
    &&& char_is_alphanumeric('e')
    &&& char_is_alphanumeric('o')
    &&& !char_is_alphanumeric(':')
    &&& !char_is_alphanumeric('/')
    &&& !char_is_alphanumeric('.')
}

proof fn lemma_slug_has_no_prefix(s: Seq<char>)
    requires
        ascii_classes_as_std(),
        forall|i: int| 0 <= i < s.len() ==> slug_char(#[trigger] s[i]) == s[i],
    ensures
        !starts_with(s, "https://"@),
        !starts_with(s, "http://"@),
        !starts_with(s, "www."@),
{
    reveal_strlit("https://");
    reveal_strlit("http://");
    reveal_strlit("www.");
    if starts_with(s, "https://"@) {
        assert(s.subrange(0, 8)[5] == ':');
        assert(slug_char(s[5]) == s[5]);
    }
    if starts_with(s, "http://"@) {
        assert(s.subrange(0, 7)[4] == ':');
        assert(slug_char(s[4]) == s[4]);
    }
    if starts_with(s, "www."@) {
        assert(s.subrange(0, 4)[3] == '.');
        assert(slug_char(s[3]) == s[3]);
    }
}

/// Slugging a slug gives it back, and each character of a slug (the
/// fallback `video` included) stands for itself: given std's classification
/// of the ASCII characters involved, which `std_ascii_classes_hold` tests.
pub proof fn lemma_slug_idempotent(url: Seq<char>)
    requires
        ascii_classes_as_std(),
    ensures
        url_slug(url_slug(url)) == url_slug(url),
        forall|i: int|
            0 <= i < url_slug(url).len() ==> slug_char(#[trigger] url_slug(url)[i]) == url_slug(url)[i],
{
    reveal_strlit("video");
    let s = url_slug(url);
    lemma_slug_shape(url);
    assert forall|i: int| 0 <= i < s.len() implies slug_char(#[trigger] s[i]) == s[i] by {
        if s == "video"@ {
            assert(s[i] == 'v' || s[i] == 'i' || s[i] == 'd' || s[i] == 'e' || s[i] == 'o');
        }
    }
    lemma_slug_has_no_prefix(s);
    let s1 = strip_prefixes(s, "https://"@);
    lemma_strip_prefixes_noop(s, "https://"@);
    lemma_strip_prefixes_noop(s, "http://"@);
    lemma_strip_prefixes_noop(s, "www."@);
    assert(url_without_prefixes(s) == s);
    let body = s.map_values(|c: char| slug_char(c));
    assert(body =~= s);
    assert(at_most(body, SLUG_MAX_CHARS as nat) == s);
    lemma_strip_trailing_noop(s, '-');
    assert(slug_core(s) == s);
}

} // verus!
