use vstd::prelude::*;
use vstd::string::StrSliceExecFns;

verus! {

broadcast use vstd::string::group_string_axioms;

/// Characters with the Unicode `White_Space` property, the whitespace that `str::trim` removes.
pub open spec fn is_white_space(c: char) -> bool {
    ||| c == ' '
    ||| ('\t' <= c && c <= '\r')
    ||| c == '\u{85}'
    ||| c == '\u{a0}'
    ||| c == '\u{1680}'
    ||| ('\u{2000}' <= c && c <= '\u{200a}')
    ||| c == '\u{2028}'
    ||| c == '\u{2029}'
    ||| c == '\u{202f}'
    ||| c == '\u{205f}'
    ||| c == '\u{3000}'
}

/// `s` without its leading whitespace.
pub open spec fn trim_start(s: Seq<char>) -> Seq<char>
    decreases s.len(),
{
    if s.len() > 0 && is_white_space(s[0]) {
        trim_start(s.drop_first())
    } else {
        s
    }
}

/// `s` without its trailing whitespace.
pub open spec fn trim_end(s: Seq<char>) -> Seq<char>
    decreases s.len(),
{
    if s.len() > 0 && is_white_space(s.last()) {
        trim_end(s.drop_last())
    } else {
        s
    }
}

/// `s` without leading and trailing whitespace.
pub open spec fn trimmed(s: Seq<char>) -> Seq<char> {
    trim_end(trim_start(s))
}

/// Whether `c` is whitespace.
pub fn is_white_space_char(c: char) -> (r: bool)
    ensures
        r == is_white_space(c),
{
    c == ' ' || ('\t' <= c && c <= '\r') || c == '\u{85}' || c == '\u{a0}' || c == '\u{1680}' || (
    '\u{2000}' <= c && c <= '\u{200a}') || c == '\u{2028}' || c == '\u{2029}' || c == '\u{202f}'
        || c == '\u{205f}' || c == '\u{3000}'
}

/// `s` with leading and trailing whitespace removed, as `str::trim` gives it.
pub fn trim_whitespace(s: &str) -> (r: String)
    ensures
        r@ == trimmed(s@),
{
    let mut chars: Vec<char> = Vec::new();
    for c in it: s.chars()
        invariant
            chars.len() == it.index(),
            forall|k: int| 0 <= k < chars.len() ==> chars[k] == it.seq()[k],
    {
        chars.push(c);
    }
    assert(chars@ =~= s@);
    let n = chars.len();
    let mut i: usize = 0;
    assert(s@.subrange(0, n as int) =~= s@);
    while i < n && is_white_space_char(chars[i])
        invariant
            n == chars.len(),
            chars@ == s@,
            i <= n,
            trim_start(s@) == trim_start(s@.subrange(i as int, n as int)),
        decreases n - i,
    {
        assert(s@.subrange(i as int, n as int).drop_first() =~= s@.subrange(i + 1, n as int));
        i = i + 1;
    }
    assert(trim_start(s@) == s@.subrange(i as int, n as int));
    let mut j: usize = n;
    while j > i && is_white_space_char(chars[j - 1])
        invariant
            n == chars.len(),
            chars@ == s@,
            i <= j <= n,
            trimmed(s@) == trim_end(s@.subrange(i as int, j as int)),
        decreases j - i,
    {
        assert(s@.subrange(i as int, j as int).drop_last() =~= s@.subrange(i as int, j - 1));
        j = j - 1;
    }
    assert(trimmed(s@) == s@.subrange(i as int, j as int));
    s.substring_char(i, j).to_owned()
}

/// The text that `{:?}` prints for a string slice: the string in double quotes, escaped.
pub uninterp spec fn str_debug_text(s: Seq<char>) -> Seq<char>;

/// Formats `s` with `<str as Debug>::fmt`. Its result is named, not stated: the escaping rules
/// are std's.
#[verifier::external_body]
fn debug_str(s: &str) -> (r: String)
    ensures
        r@ == str_debug_text(s@),
{
    format!("{:?}", s)
}

/// `prefix` followed by `rest`.
pub fn joined(prefix: &str, rest: &str) -> (r: String)
    ensures
        r@ == prefix@ + rest@,
{
    let mut r = prefix.to_owned();
    r.append(rest);
    r
}

/// The error for a message whose `type` is none that the bridge sends; `kind` is the message's
/// `type` when it is a string.
pub open spec fn unknown_message(kind: Option<Seq<char>>) -> Seq<char> {
    match kind {
        None => "unknown Node code-mode message: None"@,
        Some(k) => "unknown Node code-mode message: Some("@ + str_debug_text(k) + ")"@,
    }
}

/// The error for an unknown message, from the `{:?}` text of its `type` (when it is a string).
pub fn unknown_message_text(kind_debug: Option<String>) -> (r: String)
    ensures
        r@ == match kind_debug {
            None => "unknown Node code-mode message: None"@,
            Some(d) => "unknown Node code-mode message: Some("@ + d@ + ")"@,
        },
{
    match kind_debug {
        None => String::from_str("unknown Node code-mode message: None"),
        Some(d) => {
            let mut r = String::from_str("unknown Node code-mode message: Some(");
            r.append(d.as_str());
            r.append(")");
            r
        },
    }
}

/// The error for a message whose `type` is `kind`, which is none that the bridge sends.
pub fn unknown_message_error(kind: Option<&str>) -> (r: String)
    ensures
        r@ == unknown_message(match kind {
            Some(k) => Some(k@),
            None => None,
        }),
{
    match kind {
        None => unknown_message_text(None),
        Some(k) => unknown_message_text(Some(debug_str(k))),
    }
}

} // verus!
