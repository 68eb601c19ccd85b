//! Which files are taken for conversion: those whose extension, lowercased,
//! is one of `jpg`, `jpeg`, `png` and `gif`.
use vstd::prelude::*;
use vstd::string::*;
use crate::paths::{extension, extension_of};

verus! {

/// What `str::to_lowercase` makes of a text.
pub uninterp spec fn lower_of(s: Seq<char>) -> Seq<char>;

/// Whether every character of `s` is ASCII.
pub open spec fn is_ascii_text(s: Seq<char>) -> bool {
    forall|i: int| 0 <= i < s.len() ==> (s[i] as u32) < 128
}

/// An ASCII capital letter turned into its small letter; any other
/// character unchanged.
pub open spec fn ascii_lower_char(c: char) -> char {
    if 'A' <= c && c <= 'Z' {
        ((c as u32) + 32) as char
    } else {
        c
    }
}

/// Relies on `str::to_lowercase`: the lowercase form of a text, which
/// depends on its characters alone. On ASCII text it maps `A`-`Z` to
/// `a`-`z` and keeps every other character.
#[verifier::external_body]
fn lowercase(s: &str) -> (r: String)
    ensures
        r@ == lower_of(s@),
        is_ascii_text(s@) ==> r@ == s@.map_values(|c: char| ascii_lower_char(c)),
{
    s.to_lowercase()
}

/// The extensions taken for conversion, in lowercase.
pub open spec fn accepted_ext(e: Seq<char>) -> bool {
    e == seq!['j', 'p', 'g'] || e == seq!['j', 'p', 'e', 'g'] || e == seq!['p', 'n', 'g']
        || e == seq!['g', 'i', 'f']
}

/// Whether the file at `p` is taken for conversion.
pub open spec fn is_supported(p: Seq<char>) -> bool {
    match extension(p) {
        Some(e) => accepted_ext(lower_of(e)),
        None => false,
    }
}

/// Whether an already lowercased extension is one of the accepted ones.
pub fn is_accepted_extension(lower: &str) -> (r: bool)
    ensures
        r == accepted_ext(lower@),
{
    let n = lower.unicode_len();
    if n == 3 {
        let a = lower.get_char(0);
        let b = lower.get_char(1);
        let c = lower.get_char(2);
        let r = (a == 'j' && b == 'p' && c == 'g') || (a == 'p' && b == 'n' && c == 'g') || (
        a == 'g' && b == 'i' && c == 'f');
        assert(r <==> (lower@ =~= seq!['j', 'p', 'g'] || lower@ =~= seq!['p', 'n', 'g']
            || lower@ =~= seq!['g', 'i', 'f']));
        assert(lower@ != seq!['j', 'p', 'e', 'g']);
        r
    } else if n == 4 {
        let r = lower.get_char(0) == 'j' && lower.get_char(1) == 'p' && lower.get_char(2) == 'e'
            && lower.get_char(3) == 'g';
        assert(r <==> lower@ =~= seq!['j', 'p', 'e', 'g']);
        assert(lower@ != seq!['j', 'p', 'g'] && lower@ != seq!['p', 'n', 'g'] && lower@ != seq![
            'g',
            'i',
            'f',
        ]);
        r
    } else {
        assert(lower@ != seq!['j', 'p', 'g'] && lower@ != seq!['p', 'n', 'g'] && lower@ != seq![
            'g',
            'i',
            'f',
        ] && lower@ != seq!['j', 'p', 'e', 'g']);
        false
    }
}

/// Whether the file at `path` is taken for conversion: it has an extension,
/// and that extension in lowercase is accepted.
pub fn is_supported_path(path: &str) -> (r: bool)
    ensures
        r == is_supported(path@),
        match extension(path@) {
            Some(e) => is_ascii_text(e) ==> r == accepted_ext(
                e.map_values(|c: char| ascii_lower_char(c)),
            ),
            None => !r,
        },
{
    match extension_of(path) {
        Some(e) => {
            let lower = lowercase(e.as_str());
            is_accepted_extension(lower.as_str())
        },
        None => false,
    }
}

} // verus!
