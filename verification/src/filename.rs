//! File names for papers: how a name is built from metadata, and when a name
//! is safe to use.

use vstd::prelude::*;
use vstd::string::StringExecFns;
use crate::llm::PaperMetadata;
use crate::llm::PaperMetadataView;
use vstd::utf8::is_ascii_chars;
use crate::text::chars_of;
use crate::text::is_ascii_capital;
use crate::text::is_ascii_char;
use crate::text::is_lowercase;
use crate::text::is_space;
use crate::text::is_space_char;
use crate::text::is_word;
use crate::text::is_word_char;
use crate::text::lower_all;
use crate::text::lowered;
use crate::text::to_lower;

verus! {

/// The extension that every name carries: `.pdf`.
pub open spec fn pdf_extension() -> Seq<char> {
    seq!['.', 'p', 'd', 'f']
}

/// A whitespace character or an underscore becomes a dash; any other
/// character stays.
pub open spec fn dash_or_self(c: char) -> char {
    if is_space_char(c) || c == '_' {
        '-'
    } else {
        c
    }
}

/// The characters that a sanitized text may hold: letters, digits and the
/// dash.
pub open spec fn is_permitted(c: char) -> bool {
    is_word_char(c) || c == '-'
}

/// The text with each whitespace character and underscore replaced by a dash.
pub open spec fn with_dashes(s: Seq<char>) -> Seq<char> {
    s.map_values(|c: char| dash_or_self(c))
}

/// The text without the characters that are not permitted.
pub open spec fn only_permitted(s: Seq<char>) -> Seq<char> {
    s.filter(|c: char| is_permitted(c))
}

/// The text with every run of dashes collapsed into one dash, and without
/// dashes at its start and end.
pub open spec fn squeeze_dashes(s: Seq<char>) -> Seq<char>
    decreases s.len(),
{
    if s.len() == 0 {
        Seq::empty()
    } else if s.last() == '-' {
        squeeze_dashes(s.drop_last())
    } else {
        let before = squeeze_dashes(s.drop_last());
        if before.len() > 0 && s[s.len() - 2] == '-' {
            before.push('-').push(s.last())
        } else {
            before.push(s.last())
        }
    }
}

/// What sanitizing does to a text after it was put in lowercase.
pub open spec fn cleaned(s: Seq<char>) -> Seq<char> {
    squeeze_dashes(only_permitted(with_dashes(s)))
}

/// The sanitized form of a text: lowercase, dashes for whitespace and
/// underscores, nothing but letters, digits and dashes, no run of dashes, no
/// dash at either end.
pub open spec fn sanitized(s: Seq<char>) -> Seq<char> {
    cleaned(lowered(s))
}

/// The file name for a paper: author, year and title, each sanitized, joined
/// by dashes and followed by the extension.
pub open spec fn filename_of(m: PaperMetadataView) -> Seq<char> {
    sanitized(m.first_author) + seq!['-'] + sanitized(m.year) + seq!['-'] + sanitized(m.title)
        + pdf_extension()
}

/// The name ends with the extension `.pdf`.
pub open spec fn has_extension(s: Seq<char>) -> bool {
    pdf_extension().is_suffix_of(s)
}

/// The name holds two dots in a row, the step to a parent directory.
pub open spec fn has_parent_step(s: Seq<char>) -> bool {
    exists|i: int| 0 <= i < s.len() - 1 && #[trigger] s[i] == '.' && s[i + 1] == '.'
}

/// A name is safe to use when it is not empty, ends with the extension and
/// holds neither a step to a parent directory, nor a slash, nor a backslash.
pub open spec fn valid_filename(s: Seq<char>) -> bool {
    &&& !has_parent_step(s)
    &&& !s.contains('/')
    &&& !s.contains('\\')
    &&& s.len() > 0
    &&& has_extension(s)
}

/// The steps of sanitizing that follow the lowercasing: dashes for whitespace
/// and underscores, nothing but letters, digits and dashes, runs of dashes
/// collapsed, no dash at either end. Cleaning the result again gives the
/// result back.
pub fn clean(lowered: &str) -> (r: String)
    ensures
        r@ == cleaned(lowered@),
        is_tidy(r@),
        all_settled(r@),
        cleaned(r@) == r@,
{
    proof {
        lemma_cleaned_idempotent(lowered@);
    }
    let mut out = String::new();
    let mut started = false;
    let mut pending = false;
    for c in it: lowered.chars()
        invariant
            it.seq() == lowered@,
            out@ == cleaned(lowered@.take(it.index() as int)),
            started == (out@.len() > 0),
            pending == ({
                let p = only_permitted(with_dashes(lowered@.take(it.index() as int)));
                p.len() > 0 && p.last() == '-'
            }),
    {
        let m = if is_space(c) || c == '_' {
            '-'
        } else {
            c
        };
        proof {
            let seen = lowered@.take(it.index() as int);
            assert(lowered@.take(it.index() + 1) =~= seen.push(c));
            assert(with_dashes(seen.push(c)) =~= with_dashes(seen).push(m));
            with_dashes(seen).lemma_filter_push(m, |c: char| is_permitted(c));
            let p = only_permitted(with_dashes(seen));
            if is_permitted(m) {
                assert(p.push(m).drop_last() =~= p);
            }
        }
        if m == '-' {
            pending = true;
        } else if is_word(m) {
            if pending && started {
                out.push('-');
            }
            out.push(m);
            started = true;
            pending = false;
        }
    }
    proof {
        assert(lowered@.take(lowered@.len() as int) =~= lowered@);
    }
    out
}

/// Sanitizes a text for use in a file name: lowercase, dashes for whitespace
/// and underscores, nothing but letters, digits and dashes, runs of dashes
/// collapsed, no dash at either end.
///
/// Sanitizing the result again gives the result back, for every text of ASCII
/// characters and for every other text whose sanitized form is in lowercase.
pub fn sanitize(s: &str) -> (r: String)
    ensures
        r@ == sanitized(s@),
        is_tidy(r@),
        all_settled(r@),
        is_ascii_chars(s@) || is_lowercase(r@) ==> sanitized(r@) == r@,
{
    proof {
        if is_ascii_chars(s@) {
            lemma_sanitized_idempotent_on_ascii(s@);
        } else if is_lowercase(sanitized(s@)) {
            lemma_sanitized_idempotent(s@);
        }
    }
    let lowered = to_lower(s);
    clean(lowered.as_str())
}

/// Builds the file name for a paper: `<author>-<year>-<title>.pdf`, each part
/// sanitized. The name is always a valid one.
pub fn generate_filename(metadata: &PaperMetadata) -> (name: String)
    ensures
        name@ == filename_of(metadata@),
        valid_filename(name@),
{
    proof {
        lemma_generated_name_is_valid(metadata@);
    }
    let mut name = sanitize(metadata.first_author.as_str());
    let year = sanitize(metadata.year.as_str());
    let title = sanitize(metadata.title.as_str());
    name.push('-');
    name.append(year.as_str());
    name.push('-');
    name.append(title.as_str());
    name.append(".pdf");
    proof {
        reveal_strlit(".pdf");
        assert(".pdf"@ =~= pdf_extension());
        assert(name@ =~= filename_of(metadata@));
    }
    name
}

/// Whether the name ends with the extension `.pdf`.
pub fn has_pdf_extension(name: &str) -> (yes: bool)
    ensures
        yes == has_extension(name@),
{
    let chars = chars_of(name);
    let n = chars.len();
    if n < 4 {
        return false;
    }
    chars[n - 4] == '.' && chars[n - 3] == 'p' && chars[n - 2] == 'd' && chars[n - 1] == 'f'
}

/// Whether the name is safe to use as a file name in the paper's directory.
pub fn validate_filename(filename: &str) -> (ok: bool)
    ensures
        ok == valid_filename(filename@),
{
    let chars = chars_of(filename);
    let n = chars.len();
    let mut i: usize = 0;
    while i < n
        invariant
            i <= n,
            n == chars.len(),
            chars@ == filename@,
            forall|j: int| 0 <= j < i ==> chars[j] != '/' && chars[j] != '\\',
            forall|j: int| 0 <= j < i && j < n - 1 ==> !(#[trigger] chars[j] == '.' && chars[j + 1] == '.'),
        decreases n - i,
    {
        let c = chars[i];
        if c == '/' || c == '\\' {
            return false;
        }
        if c == '.' && i + 1 < n && chars[i + 1] == '.' {
            return false;
        }
        i += 1;
    }
    n > 0 && has_pdf_extension(filename)
}

/// A name that holds a step to a parent directory, a slash or a backslash,
/// that is empty or that lacks the extension is not valid; every other name
/// is.
pub proof fn lemma_valid_filename_rejects(s: Seq<char>)
    ensures
        has_parent_step(s) ==> !valid_filename(s),
        s.contains('/') ==> !valid_filename(s),
        s.contains('\\') ==> !valid_filename(s),
        s.len() == 0 ==> !valid_filename(s),
        !has_extension(s) ==> !valid_filename(s),
        !has_parent_step(s) && !s.contains('/') && !s.contains('\\') && s.len() > 0
            && has_extension(s) ==> valid_filename(s),
{
}

/// A text is tidy when it neither starts nor ends with a dash and holds no two
/// dashes in a row.
pub open spec fn is_tidy(s: Seq<char>) -> bool {
    &&& s.len() > 0 ==> s[0] != '-' && s.last() != '-'
    &&& forall|i: int| 0 <= i < s.len() - 1 ==> !(#[trigger] s[i] == '-' && s[i + 1] == '-')
}

/// The characters that sanitizing leaves as they are.
pub open spec fn is_settled(c: char) -> bool {
    c == '-' || (is_word_char(c) && !is_space_char(c) && c != '_')
}

/// Every character of the text is settled.
pub open spec fn all_settled(s: Seq<char>) -> bool {
    forall|i: int| 0 <= i < s.len() ==> is_settled(#[trigger] s[i])
}

/// Squeezing yields a tidy text.
pub proof fn lemma_squeeze_is_tidy(s: Seq<char>)
    ensures
        is_tidy(squeeze_dashes(s)),
    decreases s.len(),
{
    if s.len() > 0 {
        lemma_squeeze_is_tidy(s.drop_last());
    }
}

/// The text without its dashes.
pub open spec fn without_dashes(s: Seq<char>) -> Seq<char> {
    s.filter(|c: char| c != '-')
}

/// Squeezing neither drops, adds nor moves a character other than the dash.
pub proof fn lemma_squeeze_keeps_others(s: Seq<char>)
    ensures
        without_dashes(squeeze_dashes(s)) == without_dashes(s),
    decreases s.len(),
{
    if s.len() > 0 {
        let p = s.drop_last();
        let q = squeeze_dashes(p);
        let other = |c: char| c != '-';
        lemma_squeeze_keeps_others(p);
        assert(s =~= p.push(s.last()));
        p.lemma_filter_push(s.last(), other);
        if s.last() != '-' {
            if q.len() > 0 && s[s.len() - 2] == '-' {
                q.lemma_filter_push('-', other);
                q.push('-').lemma_filter_push(s.last(), other);
            } else {
                q.lemma_filter_push(s.last(), other);
            }
        }
    }
}

/// Every character of the text meets the condition.
pub open spec fn all_chars(s: Seq<char>, p: spec_fn(char) -> bool) -> bool {
    forall|i: int| 0 <= i < s.len() ==> p(#[trigger] s[i])
}

/// Squeezing adds no character but the dash: what holds of the dash and of
/// every character of a text holds of every character of the squeezed text.
pub proof fn lemma_squeeze_keeps(s: Seq<char>, p: spec_fn(char) -> bool)
    requires
        p('-'),
        all_chars(s, p),
    ensures
        all_chars(squeeze_dashes(s), p),
    decreases s.len(),
{
    if s.len() > 0 {
        lemma_squeeze_keeps(s.drop_last(), p);
    }
}

/// Cleaning adds no character but the dash: what holds of the dash and of
/// every character of a text holds of every character of the cleaned text.
pub proof fn lemma_cleaned_keeps(s: Seq<char>, p: spec_fn(char) -> bool)
    requires
        p('-'),
        all_chars(s, p),
    ensures
        all_chars(cleaned(s), p),
{
    lemma_permitted_keep(s, p);
    lemma_squeeze_keeps(only_permitted(with_dashes(s)), p);
}

/// The replacement and the filter add no character but the dash.
proof fn lemma_permitted_keep(s: Seq<char>, p: spec_fn(char) -> bool)
    requires
        p('-'),
        all_chars(s, p),
    ensures
        all_chars(only_permitted(with_dashes(s)), p),
    decreases s.len(),
{
    if s.len() > 0 {
        let rest = s.drop_last();
        lemma_permitted_keep(rest, p);
        assert(with_dashes(s) =~= with_dashes(rest).push(dash_or_self(s.last())));
        with_dashes(rest).lemma_filter_push(dash_or_self(s.last()), |c: char| is_permitted(c));
    } else {
        assert(with_dashes(s) =~= Seq::<char>::empty());
    }
}

/// A text without a dash at its start and without two dashes in a row is
/// squeezed by dropping the dash at its end, if there is one.
proof fn lemma_squeeze_of_nearly_tidy(s: Seq<char>)
    requires
        s.len() > 0 ==> s[0] != '-',
        forall|i: int| 0 <= i < s.len() - 1 ==> !(#[trigger] s[i] == '-' && s[i + 1] == '-'),
    ensures
        squeeze_dashes(s) == if s.len() > 0 && s.last() == '-' {
            s.drop_last()
        } else {
            s
        },
    decreases s.len(),
{
    if s.len() > 0 {
        let p = s.drop_last();
        lemma_squeeze_of_nearly_tidy(p);
        if s.last() == '-' {
            assert(s[s.len() - 2] != '-');
        } else if p.len() > 0 && p.last() == '-' {
            assert(p.len() >= 2);
            assert(p.drop_last().push('-').push(s.last()) =~= s);
        } else {
            assert(p.push(s.last()) =~= s);
        }
    }
}

/// Squeezing leaves a tidy text as it is.
pub proof fn lemma_squeeze_fixes_tidy(s: Seq<char>)
    requires
        is_tidy(s),
    ensures
        squeeze_dashes(s) == s,
{
    lemma_squeeze_of_nearly_tidy(s);
}

/// After the replacement and the filter every character is settled.
pub proof fn lemma_permitted_are_settled(s: Seq<char>)
    ensures
        all_settled(only_permitted(with_dashes(s))),
    decreases s.len(),
{
    if s.len() > 0 {
        let p = s.drop_last();
        lemma_permitted_are_settled(p);
        assert(with_dashes(s) =~= with_dashes(p).push(dash_or_self(s.last())));
        with_dashes(p).lemma_filter_push(dash_or_self(s.last()), |c: char| is_permitted(c));
    } else {
        assert(with_dashes(s) =~= Seq::<char>::empty());
    }
}

/// The replacement and the filter leave a text of settled characters as it
/// is.
pub proof fn lemma_settled_pass_unchanged(s: Seq<char>)
    requires
        all_settled(s),
    ensures
        only_permitted(with_dashes(s)) == s,
    decreases s.len(),
{
    assert(with_dashes(s) =~= s);
    if s.len() > 0 {
        let p = s.drop_last();
        lemma_settled_pass_unchanged(p);
        assert(with_dashes(p) =~= p);
        assert(s =~= p.push(s.last()));
        p.lemma_filter_push(s.last(), |c: char| is_permitted(c));
    }
}

/// Cleaning is idempotent: a cleaned text is cleaned to itself.
pub proof fn lemma_cleaned_idempotent(s: Seq<char>)
    ensures
        cleaned(cleaned(s)) == cleaned(s),
        is_tidy(cleaned(s)),
        all_settled(cleaned(s)),
{
    let p = only_permitted(with_dashes(s));
    lemma_permitted_are_settled(s);
    lemma_squeeze_keeps(p, |c: char| is_settled(c));
    lemma_squeeze_is_tidy(p);
    lemma_settled_pass_unchanged(cleaned(s));
    lemma_squeeze_fixes_tidy(cleaned(s));
}

/// Sanitizing is idempotent on every text whose sanitized form is in
/// lowercase: sanitizing the result once more gives the same result.
pub proof fn lemma_sanitized_idempotent(s: Seq<char>)
    requires
        is_lowercase(sanitized(s)),
    ensures
        sanitized(sanitized(s)) == sanitized(s),
{
    lemma_cleaned_idempotent(lowered(s));
}

/// The sanitized form of a text of ASCII characters is a text of ASCII
/// characters in lowercase.
pub proof fn lemma_sanitized_ascii_is_lowercase(s: Seq<char>)
    requires
        is_ascii_chars(s),
    ensures
        is_ascii_chars(sanitized(s)),
        is_lowercase(sanitized(s)),
{
    let small = |c: char| is_ascii_char(c) && !is_ascii_capital(c);
    assert(all_chars(lower_all(s), small));
    lemma_cleaned_keeps(lower_all(s), small);
    let t = sanitized(s);
    assert(is_ascii_chars(t)) by {
        assert forall|i: int| 0 <= i < t.len() implies '\0' <= #[trigger] t[i] <= '\u{7f}' by {
            assert(small(t[i]));
        }
    }
    assert(lower_all(t) =~= t) by {
        assert forall|i: int| 0 <= i < t.len() implies lower_all(t)[i] == t[i] by {
            assert(small(t[i]));
        }
    }
}

/// Sanitizing is idempotent on every text of ASCII characters.
pub proof fn lemma_sanitized_idempotent_on_ascii(s: Seq<char>)
    requires
        is_ascii_chars(s),
    ensures
        sanitized(sanitized(s)) == sanitized(s),
{
    lemma_sanitized_ascii_is_lowercase(s);
    lemma_sanitized_idempotent(s);
}

/// A text of settled characters followed by the extension is a valid name.
pub proof fn lemma_settled_name_is_valid(stem: Seq<char>)
    requires
        all_settled(stem),
    ensures
        valid_filename(stem + pdf_extension()),
{
    let name = stem + pdf_extension();
    assert(name.subrange(name.len() - 4, name.len() as int) =~= pdf_extension());
    assert forall|i: int| 0 <= i < name.len() implies name[i] != '/' && name[i] != '\\' && (name[i]
        == '.' ==> i == stem.len()) by {
        if i < stem.len() {
            assert(is_settled(stem[i]));
        }
    }
}

/// Every name that is built from metadata is valid.
pub proof fn lemma_generated_name_is_valid(m: PaperMetadataView)
    ensures
        valid_filename(filename_of(m)),
{
    lemma_cleaned_idempotent(lowered(m.first_author));
    lemma_cleaned_idempotent(lowered(m.year));
    lemma_cleaned_idempotent(lowered(m.title));
    let stem = sanitized(m.first_author) + seq!['-'] + sanitized(m.year) + seq!['-'] + sanitized(
        m.title,
    );
    assert(all_settled(stem));
    lemma_settled_name_is_valid(stem);
}

} // verus!
