//! Identity normalization: deriving canonical, filesystem-safe names for
//! the qualifier / organization / application triplet from arbitrary
//! user-supplied strings. Normalization is total: any input yields a
//! (possibly empty) string.

use vstd::prelude::*;

verus! {

/// What `str::to_lowercase` returns; the mapping depends on the input
/// characters alone.
pub uninterp spec fn unicode_lower(s: Seq<char>) -> Seq<char>;

/// Whether a character has the Unicode white-space property, as
/// `char::is_whitespace` reports it; a function of the character alone.
pub uninterp spec fn is_unicode_whitespace(c: char) -> bool;

/// Relies on `str::to_lowercase`: the Unicode-lowercased text, a function
/// of the input characters alone.
#[verifier::external_body]
fn to_lowercase_str(s: &str) -> (r: String)
    ensures
        r@ == unicode_lower(s@),
{
    s.to_lowercase()
}

/// Relies on `char::is_whitespace`: whether the character has the Unicode
/// white-space property, a function of the character alone.
#[verifier::external_body]
fn char_is_whitespace(c: char) -> (r: bool)
    ensures
        r == is_unicode_whitespace(c),
{
    c.is_whitespace()
}

/// An ASCII decimal digit.
pub open spec fn is_ascii_digit_char(c: char) -> bool {
    48 <= c as u32 && c as u32 <= 57
}

/// An ASCII lowercase letter.
pub open spec fn is_ascii_lower_char(c: char) -> bool {
    97 <= c as u32 && c as u32 <= 122
}

/// An ASCII uppercase letter.
pub open spec fn is_ascii_upper_char(c: char) -> bool {
    65 <= c as u32 && c as u32 <= 90
}

/// An ASCII letter or digit.
pub open spec fn is_ascii_alnum_char(c: char) -> bool {
    is_ascii_digit_char(c) || is_ascii_lower_char(c) || is_ascii_upper_char(c)
}

/// An ASCII uppercase letter mapped to its lowercase form; all else unchanged.
pub open spec fn ascii_lower_char(c: char) -> char {
    if is_ascii_upper_char(c) {
        ((c as u32 + 32) as u32) as char
    } else {
        c
    }
}

/// The separators the Unix name form turns into `-`.
pub open spec fn is_unix_separator(c: char) -> bool {
    c == ' ' || c == '_' || c == '.' || c == '\\' || c == '/' || c == '@' || c == '#'
}

/// Per-character Unix mapping: ASCII-lowercase, then separators become `-`.
pub open spec fn unix_map_char(c: char) -> char {
    let l = ascii_lower_char(c);
    if is_unix_separator(l) {
        '-'
    } else {
        l
    }
}

/// Whether the Unix form keeps the (already mapped) character.
pub open spec fn unix_keep_char(c: char) -> bool {
    is_ascii_alnum_char(c) || c == '-'
}

/// What one input character contributes to the Unix name form.
pub open spec fn unix_norm_one(c: char) -> Seq<char> {
    if unix_keep_char(unix_map_char(c)) {
        seq![unix_map_char(c)]
    } else {
        Seq::empty()
    }
}

/// The Unix name form: lowercase, separators as `-`, every other
/// non-alphanumeric character dropped.
pub open spec fn unix_norm(s: Seq<char>) -> Seq<char>
    decreases s.len(),
{
    if s.len() == 0 {
        Seq::empty()
    } else {
        unix_norm(s.drop_last()) + unix_norm_one(s.last())
    }
}

/// The separators the Windows name form turns into `-`.
pub open spec fn is_windows_separator(c: char) -> bool {
    c == '\\' || c == '/' || c == '@' || c == '#'
}

/// Per-character Windows mapping: path/tag separators become `-`; case kept.
pub open spec fn windows_map_char(c: char) -> char {
    if is_windows_separator(c) {
        '-'
    } else {
        c
    }
}

/// Whether the Windows form keeps the (already mapped) character.
pub open spec fn windows_keep_char(c: char) -> bool {
    is_ascii_alnum_char(c) || is_unicode_whitespace(c) || c == '-' || c == '.' || c == '_'
        || c == '(' || c == ')'
}

/// What one input character contributes to the Windows name form.
pub open spec fn windows_norm_one(c: char) -> Seq<char> {
    if windows_keep_char(windows_map_char(c)) {
        seq![windows_map_char(c)]
    } else {
        Seq::empty()
    }
}

/// The Windows name form: separators as `-`, characters other than ASCII
/// alphanumerics, whitespace and `- . _ ( )` dropped, case preserved.
pub open spec fn windows_norm(s: Seq<char>) -> Seq<char>
    decreases s.len(),
{
    if s.len() == 0 {
        Seq::empty()
    } else {
        windows_norm(s.drop_last()) + windows_norm_one(s.last())
    }
}

/// Whether the qualifier form keeps a character of the lowercased input.
pub open spec fn qualifier_keep_char(c: char) -> bool {
    is_ascii_alnum_char(c) || is_unicode_whitespace(c) || c == '-' || c == '.'
}

/// What one lowercased character contributes to the qualifier form.
pub open spec fn qualifier_one(c: char) -> Seq<char> {
    if qualifier_keep_char(c) {
        seq![c]
    } else {
        Seq::empty()
    }
}

/// The kept characters of an already-lowercased qualifier.
pub open spec fn qualifier_filter(s: Seq<char>) -> Seq<char>
    decreases s.len(),
{
    if s.len() == 0 {
        Seq::empty()
    } else {
        qualifier_filter(s.drop_last()) + qualifier_one(s.last())
    }
}

/// The qualifier form: Unicode-lowercase, then keep only ASCII
/// alphanumerics, whitespace, `-` and `.`.
pub open spec fn qualifier_norm(s: Seq<char>) -> Seq<char> {
    qualifier_filter(unicode_lower(s))
}

/// The canonical name form for Unix-family systems.
pub fn unix_name_cleanup(name: &str) -> (r: String)
    ensures
        r@ == unix_norm(name@),
{
    let n = name.unicode_len();
    let mut r = String::new();
    let mut i: usize = 0;
    while i < n
        invariant
            n == name@.len(),
            i <= n,
            r@ == unix_norm(name@.take(i as int)),
        decreases n - i,
    {
        let c = name.get_char(i);
        let u = c as u32;
        let l: char = if 65 <= u && u <= 90 {
            ((c as u8) + 32) as char
        } else {
            c
        };
        proof {
            if is_ascii_upper_char(c) {
                vstd::utf8::char_u32_cast(l, l as u32);
                vstd::utf8::char_u32_cast(ascii_lower_char(c), (c as u32 + 32) as u32);
            }
            assert(l == ascii_lower_char(c));
        }
        let m: char = if l == ' ' || l == '_' || l == '.' || l == '\\' || l == '/' || l == '@'
            || l == '#' {
            '-'
        } else {
            l
        };
        let mu = m as u32;
        if (48 <= mu && mu <= 57) || (97 <= mu && mu <= 122) || (65 <= mu && mu <= 90) || m == '-' {
            r.push(m);
        }
        proof {
            assert(name@.take(i + 1).drop_last() =~= name@.take(i as int));
            assert(name@.take(i + 1).last() == name@[i as int]);
            assert(r@ == unix_norm(name@.take(i + 1)));
        }
        i = i + 1;
    }
    proof {
        assert(name@.take(n as int) =~= name@);
    }
    r
}

/// The canonical name form for Windows systems.
pub fn windows_name_cleanup(name: &str) -> (r: String)
    ensures
        r@ == windows_norm(name@),
{
    let n = name.unicode_len();
    let mut r = String::new();
    let mut i: usize = 0;
    while i < n
        invariant
            n == name@.len(),
            i <= n,
            r@ == windows_norm(name@.take(i as int)),
        decreases n - i,
    {
        let c = name.get_char(i);
        let m: char = if c == '\\' || c == '/' || c == '@' || c == '#' {
            '-'
        } else {
            c
        };
        let mu = m as u32;
        if (48 <= mu && mu <= 57) || (97 <= mu && mu <= 122) || (65 <= mu && mu <= 90)
            || char_is_whitespace(m) || m == '-' || m == '.' || m == '_' || m == '(' || m == ')' {
            r.push(m);
        }
        proof {
            assert(name@.take(i + 1).drop_last() =~= name@.take(i as int));
            assert(name@.take(i + 1).last() == name@[i as int]);
        }
        i = i + 1;
    }
    proof {
        assert(name@.take(n as int) =~= name@);
    }
    r
}

/// The canonical name form for the host platform (the Unix family here).
pub fn name_cleanup(name: &str) -> (r: String)
    ensures
        r@ == unix_norm(name@),
{
    unix_name_cleanup(name)
}

/// The canonical qualifier form.
pub fn qualifier_cleanup(qualifier: &str) -> (r: String)
    ensures
        r@ == qualifier_norm(qualifier@),
{
    let low = to_lowercase_str(qualifier);
    let lows = low.as_str();
    let n = lows.unicode_len();
    let mut r = String::new();
    let mut i: usize = 0;
    while i < n
        invariant
            n == lows@.len(),
            lows@ == unicode_lower(qualifier@),
            i <= n,
            r@ == qualifier_filter(lows@.take(i as int)),
        decreases n - i,
    {
        let c = lows.get_char(i);
        let u = c as u32;
        if (48 <= u && u <= 57) || (97 <= u && u <= 122) || (65 <= u && u <= 90)
            || char_is_whitespace(c) || c == '-' || c == '.' {
            r.push(c);
        }
        proof {
            assert(lows@.take(i + 1).drop_last() =~= lows@.take(i as int));
            assert(lows@.take(i + 1).last() == lows@[i as int]);
        }
        i = i + 1;
    }
    proof {
        assert(lows@.take(n as int) =~= lows@);
    }
    r
}

/// Law: the Unix name form is made of lowercase ASCII alphanumerics and
/// `-` only; no other character ever appears in it.
pub proof fn lemma_unix_norm_chars(s: Seq<char>)
    ensures
        forall|i: int|
            0 <= i < unix_norm(s).len() ==> (is_ascii_digit_char(#[trigger] unix_norm(s)[i])
                || is_ascii_lower_char(unix_norm(s)[i]) || unix_norm(s)[i] == '-'),
    decreases s.len(),
{
    if s.len() > 0 {
        lemma_unix_norm_chars(s.drop_last());
        let pre = unix_norm(s.drop_last());
        let c = s.last();
        let m = unix_map_char(c);
        if unix_keep_char(m) {
            if is_ascii_upper_char(c) {
                assert(((c as u32 + 32) as u32) as char as u32 == c as u32 + 32);
            }
            assert(is_ascii_digit_char(m) || is_ascii_lower_char(m) || m == '-');
            assert(unix_norm(s) == pre + seq![m]);
            assert forall|i: int| 0 <= i < unix_norm(s).len() implies (is_ascii_digit_char(
                #[trigger] unix_norm(s)[i],
            ) || is_ascii_lower_char(unix_norm(s)[i]) || unix_norm(s)[i] == '-') by {
                if i < pre.len() {
                    assert(unix_norm(s)[i] == pre[i]);
                } else {
                    assert(unix_norm(s)[i] == m);
                }
            }
        } else {
            assert(unix_norm(s) == pre + Seq::<char>::empty());
            assert(unix_norm(s) =~= pre);
        }
    }
}

} // verus!
