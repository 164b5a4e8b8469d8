//! Version markers: the tag of a release and the locally installed version.
use vstd::prelude::*;
use vstd::string::*;

verus! {

/// Whether a character sequence begins with the version prefix `v`.
pub open spec fn starts_with_v(s: Seq<char>) -> bool {
    s.len() > 0 && s[0] == 'v'
}

/// A tag with one leading `v` removed, if it has one.
pub open spec fn strip_v(s: Seq<char>) -> Seq<char> {
    if starts_with_v(s) {
        s.drop_first()
    } else {
        s
    }
}

/// A tag with every leading `v` removed.
pub open spec fn strip_all_v(s: Seq<char>) -> Seq<char>
    decreases s.len(),
{
    if starts_with_v(s) {
        strip_all_v(s.drop_first())
    } else {
        s
    }
}

/// Removes a single leading `v` from a release tag (`v1.2.0` becomes `1.2.0`).
pub fn strip_version_prefix(tag: &str) -> (r: String)
    ensures
        r@ == strip_v(tag@),
{
    strip_leading_v(tag)
}

/// Relies on regex::Regex::replace with the pattern `^v`: the leftmost match,
/// a `v` at the very start of the text, is replaced by the empty string, and
/// text without such a match comes back unchanged.
#[verifier::external_body]
fn strip_leading_v(tag: &str) -> (r: String)
    ensures
        r@ == strip_v(tag@),
{
    regex::Regex::new(r"^v").unwrap().replace(tag, "").into_owned()
}

/// Removes every leading `v` from a version string, as the name of an
/// extracted release directory does.
pub fn trim_version_prefix(version: &str) -> (r: String)
    ensures
        r@ == strip_all_v(version@),
{
    let n = version.unicode_len();
    let mut i: usize = 0;
    assert(version@.subrange(0, n as int) =~= version@);
    while i < n && version.get_char(i) == 'v'
        invariant
            n == version@.len(),
            i <= n,
            strip_all_v(version@.subrange(i as int, n as int)) == strip_all_v(version@),
        decreases n - i,
    {
        proof {
            let s = version@.subrange(i as int, n as int);
            assert(s.drop_first() =~= version@.subrange(i + 1, n as int));
        }
        i = i + 1;
    }
    proof {
        let s = version@.subrange(i as int, n as int);
        assert(!starts_with_v(s));
    }
    String::from_str(version.substring_char(i, n))
}

/// The characters with Unicode's `White_Space` property.
pub open spec fn is_white_space(c: char) -> bool {
    let u = c as u32;
    (0x9 <= u && u <= 0xD) || u == 0x20 || u == 0x85 || u == 0xA0 || u == 0x1680 || (0x2000
        <= u && u <= 0x200A) || u == 0x2028 || u == 0x2029 || u == 0x202F || u == 0x205F || u
        == 0x3000
}

/// A text without the whitespace at its start.
pub open spec fn trim_start_ws(s: Seq<char>) -> Seq<char>
    decreases s.len(),
{
    if s.len() > 0 && is_white_space(s[0]) {
        trim_start_ws(s.drop_first())
    } else {
        s
    }
}

/// A text without the whitespace at its end.
pub open spec fn trim_end_ws(s: Seq<char>) -> Seq<char>
    decreases s.len(),
{
    if s.len() > 0 && is_white_space(s.last()) {
        trim_end_ws(s.drop_last())
    } else {
        s
    }
}

/// A text without the whitespace at either end.
pub open spec fn trimmed(s: Seq<char>) -> Seq<char> {
    trim_end_ws(trim_start_ws(s))
}

/// Relies on str::trim: the text with the leading and trailing characters
/// that have the Unicode `White_Space` property removed.
#[verifier::external_body]
fn trim_whitespace(s: &str) -> (r: String)
    ensures
        r@ == trimmed(s@),
{
    s.trim().to_string()
}

/// The installed version, from the contents of the version file: the text
/// with surrounding whitespace removed.
pub fn local_version(contents: &str) -> (r: String)
    ensures
        r@ == trimmed(contents@),
{
    trim_whitespace(contents)
}

/// Tag stripping leaves a version without a leading `v` as it is.
pub proof fn lemma_strip_keeps_unprefixed(s: Seq<char>)
    requires
        !starts_with_v(s),
    ensures
        strip_v(s) == s,
{
}

} // verus!
