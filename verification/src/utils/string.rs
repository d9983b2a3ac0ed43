//! Slugs and file names.

use vstd::prelude::*;
use vstd::string::{StrSliceExecFns, StringExecFns};
use crate::ids::{format_id, random_id, uuid_text};
use crate::text::{
    chars_of, last_dot, lowercase, push_char, push_chars, split_at_last_dot, str_eq, to_lowercase,
};

verus! {

/// The slug of a text: lower-case ASCII words joined by hyphens, as the
/// `slug` crate derives them.
pub uninterp spec fn slugified(text: Seq<char>) -> Seq<char>;

/// The slug of `text`. Calls `slug::slugify`, which depends on nothing but
/// the text.
#[verifier::external_body]
pub(crate) fn slugify(text: &str) -> (slug: String)
    ensures
        slug@ == slugified(text@),
{
    slug::slugify(text)
}

/// The slug under which a name is stored and looked up.
pub fn slug_of(name: &str) -> (slug: String)
    ensures
        slug@ == slugified(name@),
{
    slugify(name)
}

/// How many characters of an identifier's text make a suffix.
pub const SUFFIX_LEN: usize = 8;

/// The suffix that `id` gives: the first eight characters of its text,
/// which are hexadecimal digits.
pub open spec fn id_suffix(id: u128) -> Seq<char> {
    uuid_text(id).take(SUFFIX_LEN as int)
}

/// The slug of `input` with `suffix` behind a hyphen.
pub open spec fn slug_with_suffix(input: Seq<char>, suffix: Seq<char>) -> Seq<char> {
    slugified(input) + seq!['-'] + suffix
}

/// A slug for `input` that ends in the given suffix.
pub fn create_unique_slug_with(input: &str, suffix: &str) -> (slug: String)
    ensures
        slug@ == slug_with_suffix(input@, suffix@),
{
    let mut slug = slugify(input);
    push_char(&mut slug, '-');
    slug.append(suffix);
    slug
}

/// A slug for `input` that is readable and, by a random suffix, unique.
pub fn create_unique_slug(input: &str) -> (slug: String)
    ensures
        exists|id: u128| slug@ == slug_with_suffix(input@, #[trigger] id_suffix(id)),
{
    let id = random_id();
    let text = format_id(id);
    let slug = create_unique_slug_with(input, text.as_str().substring_char(0, SUFFIX_LEN));
    assert(slug@ == slug_with_suffix(input@, id_suffix(id)));
    slug
}

/// The extension of a file name: what follows its last `.`, in lower
/// case. A name without a `.` has none.
pub open spec fn file_extension(name: Seq<char>) -> Option<Seq<char>> {
    match last_dot(name) {
        Some(k) => Some(lowercase(name.skip(k + 1))),
        None => None,
    }
}

/// The extension of `filename`, in lower case.
pub fn get_file_extension(filename: &str) -> (extension: Option<String>)
    ensures
        match file_extension(filename@) {
            Some(e) => extension matches Some(found) && found@ == e,
            None => extension is None,
        },
{
    match split_at_last_dot(filename) {
        Some((_, tail)) => Some(to_lowercase(tail)),
        None => None,
    }
}

/// Membership of `extension` in `allowed`, as a statement over views.
pub open spec fn extension_allowed(extension: Seq<char>, allowed: Seq<&str>) -> bool {
    exists|i: int| 0 <= i < allowed.len() && (#[trigger] allowed[i])@ == extension
}

/// Whether `extension` is one of `allowed_extensions`, compared exactly.
pub fn is_allowed_extension(extension: &str, allowed_extensions: &[&str]) -> (allowed: bool)
    ensures
        allowed == extension_allowed(extension@, allowed_extensions@),
{
    let mut i: usize = 0;
    while i < allowed_extensions.len()
        invariant
            i <= allowed_extensions.len(),
            forall|j: int| 0 <= j < i ==> (#[trigger] allowed_extensions@[j])@ != extension@,
        decreases allowed_extensions.len() - i,
    {
        if str_eq(allowed_extensions[i], extension) {
            return true;
        }
        i += 1;
    }
    false
}

/// Characters that a stored file name must not hold.
pub open spec fn is_reserved(c: char) -> bool {
    c == ' ' || c == '/' || c == '\\' || c == ':' || c == '*' || c == '?' || c == '"' || c == '<'
        || c == '>' || c == '|'
}

/// `name` with an underscore in place of each reserved character.
pub open spec fn cleaned(name: Seq<char>) -> Seq<char> {
    name.map_values(|c: char| if is_reserved(c) { '_' } else { c })
}

/// `text` ends with `pattern`.
pub open spec fn ends_with(text: Seq<char>, pattern: Seq<char>) -> bool {
    pattern.len() <= text.len() && text.skip(text.len() - pattern.len()) == pattern
}

/// `text` without the copies of `pattern` that stand at its end, however
/// many there are.
pub open spec fn trim_end(text: Seq<char>, pattern: Seq<char>) -> Seq<char>
    decreases text.len(),
{
    if pattern.len() > 0 && ends_with(text, pattern) {
        trim_end(text.take(text.len() - pattern.len()), pattern)
    } else {
        text
    }
}

/// A cleaned name holds no reserved character and is as long as the name
/// it was made from.
pub proof fn lemma_cleaned_is_safe(name: Seq<char>)
    ensures
        cleaned(name).len() == name.len(),
        forall|i: int| 0 <= i < name.len() ==> !is_reserved(#[trigger] cleaned(name)[i]),
{
}

/// What `trim_end` returns is the front of the text, and it does not end
/// with the pattern.
pub proof fn lemma_trim_end(text: Seq<char>, pattern: Seq<char>)
    ensures
        trim_end(text, pattern).len() <= text.len(),
        trim_end(text, pattern) == text.take(trim_end(text, pattern).len() as int),
        pattern.len() > 0 ==> !ends_with(trim_end(text, pattern), pattern),
    decreases text.len(),
{
    if pattern.len() > 0 && ends_with(text, pattern) {
        let front = text.take(text.len() - pattern.len());
        lemma_trim_end(front, pattern);
        assert(front.take(trim_end(front, pattern).len() as int) =~= text.take(
            trim_end(front, pattern).len() as int,
        ));
    } else {
        assert(text.take(text.len() as int) =~= text);
    }
}

/// The stored name of a file: reserved characters replaced, `suffix`
/// added behind an underscore, and the lower-case extension, if the name
/// has one, moved behind the suffix.
pub open spec fn normalized(name: Seq<char>, suffix: Seq<char>) -> Seq<char> {
    let clean = cleaned(name);
    match file_extension(clean) {
        Some(extension) => trim_end(clean, seq!['.'] + extension) + seq!['_'] + suffix + seq!['.']
            + extension,
        None => clean + seq!['_'] + suffix,
    }
}

/// Whether the first `len` characters of `text` end with `pattern`.
pub(crate) fn prefix_ends_with(text: &Vec<char>, len: usize, pattern: &Vec<char>) -> (found: bool)
    requires
        len <= text.len(),
    ensures
        found == ends_with(text@.take(len as int), pattern@),
{
    if pattern.len() > len {
        return false;
    }
    let start = len - pattern.len();
    let ghost head = text@.take(len as int);
    let mut i: usize = 0;
    while i < pattern.len()
        invariant
            i <= pattern.len() <= len <= text.len(),
            start == len - pattern.len(),
            head == text@.take(len as int),
            forall|j: int| 0 <= j < i ==> text@[start + j] == pattern@[j],
        decreases pattern.len() - i,
    {
        if text[start + i] != pattern[i] {
            assert(head.skip(head.len() - pattern@.len())[i as int] != pattern@[i as int]);
            return false;
        }
        i += 1;
    }
    assert(head.skip(head.len() - pattern@.len()) =~= pattern@);
    true
}

/// The stored name of `filename` under the given suffix.
pub fn normalize_filename_with(filename: &str, suffix: &str) -> (name: String)
    ensures
        name@ == normalized(filename@, suffix@),
{
    let name_chars = chars_of(filename);
    let mut clean = String::new();
    let mut clean_chars: Vec<char> = Vec::new();
    let mut i: usize = 0;
    while i < name_chars.len()
        invariant
            i <= name_chars.len(),
            name_chars@ == filename@,
            clean@ == cleaned(filename@.take(i as int)),
            clean_chars@ == clean@,
        decreases name_chars.len() - i,
    {
        let c = name_chars[i];
        let replaced = if c == ' ' || c == '/' || c == '\\' || c == ':' || c == '*' || c == '?'
            || c == '"' || c == '<' || c == '>' || c == '|' {
            '_'
        } else {
            c
        };
        push_char(&mut clean, replaced);
        clean_chars.push(replaced);
        assert(cleaned(filename@.take(i + 1)) =~= cleaned(filename@.take(i as int)).push(replaced));
        i += 1;
    }
    assert(filename@.take(name_chars.len() as int) =~= filename@);
    let mut name = String::new();
    match get_file_extension(clean.as_str()) {
        Some(extension) => {
            let mut pattern: Vec<char> = Vec::new();
            pattern.push('.');
            let mut extension_chars = chars_of(extension.as_str());
            pattern.append(&mut extension_chars);
            assert(pattern@ =~= seq!['.'] + extension@);
            let mut kept: usize = clean_chars.len();
            assert(clean@.take(kept as int) =~= clean@);
            while prefix_ends_with(&clean_chars, kept, &pattern)
                invariant
                    kept <= clean_chars.len(),
                    clean_chars@ == clean@,
                    pattern@.len() > 0,
                    trim_end(clean@, pattern@) == trim_end(clean@.take(kept as int), pattern@),
                decreases kept,
            {
                assert(clean@.take(kept as int).take(kept - pattern@.len()) =~= clean@.take(
                    kept - pattern@.len(),
                ));
                kept -= pattern.len();
            }
            push_chars(&mut name, &clean_chars, 0, kept);
            assert(clean_chars@.subrange(0, kept as int) =~= clean@.take(kept as int));
            push_char(&mut name, '_');
            name.append(suffix);
            push_char(&mut name, '.');
            name.append(extension.as_str());
            assert(name@ =~= normalized(filename@, suffix@));
        },
        None => {
            name.append(clean.as_str());
            push_char(&mut name, '_');
            name.append(suffix);
            assert(name@ =~= normalized(filename@, suffix@));
        },
    }
    name
}

/// The stored name of `filename`, made unique by a random suffix.
pub fn normalize_filename(filename: &str) -> (name: String)
    ensures
        exists|id: u128| name@ == normalized(filename@, #[trigger] id_suffix(id)),
{
    let id = random_id();
    let text = format_id(id);
    let name = normalize_filename_with(filename, text.as_str().substring_char(0, SUFFIX_LEN));
    assert(name@ == normalized(filename@, id_suffix(id)));
    name
}

} // verus!
