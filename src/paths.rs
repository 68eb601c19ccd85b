//! Path arithmetic on `/`-separated paths held as text.
use vstd::prelude::*;
use vstd::string::*;

verus! {

/// Index of the last occurrence of `c` in `s`, or -1 when there is none.
pub open spec fn last_index_of(s: Seq<char>, c: char) -> int
    decreases s.len(),
{
    if s.len() == 0 {
        -1
    } else if s.last() == c {
        s.len() - 1
    } else {
        last_index_of(s.drop_last(), c)
    }
}

/// The final segment of a path: the text after its last `/`. Only `/`
/// separates segments; a `\` is an ordinary character of a name.
pub open spec fn base_name(p: Seq<char>) -> Seq<char> {
    p.subrange(last_index_of(p, '/') + 1, p.len() as int)
}

/// Position of the dot that starts the extension of a base name, or -1
/// when the name holds no dot.
pub open spec fn ext_dot(b: Seq<char>) -> int {
    last_index_of(b, '.')
}

/// The extension of a path: the text after the last `.` of its final
/// segment, if it holds a dot at all. A name such as `.jpg` has the
/// extension `jpg` and an empty stem.
pub open spec fn extension(p: Seq<char>) -> Option<Seq<char>> {
    let b = base_name(p);
    if ext_dot(b) >= 0 {
        Some(b.subrange(ext_dot(b) + 1, b.len() as int))
    } else {
        None
    }
}

/// The base name without its extension.
pub open spec fn stem(b: Seq<char>) -> Seq<char> {
    if ext_dot(b) >= 0 {
        b.subrange(0, ext_dot(b))
    } else {
        b
    }
}

/// Whether the path names a file: its final segment is neither empty nor
/// `.` nor `..`.
pub open spec fn has_file_name(p: Seq<char>) -> bool {
    let b = base_name(p);
    b.len() != 0 && b != seq!['.'] && b != seq!['.', '.']
}

pub open spec fn webp_suffix() -> Seq<char> {
    seq!['.', 'w', 'e', 'b', 'p']
}

/// The name of the WebP file made from the file at `p`.
pub open spec fn output_name(p: Seq<char>) -> Seq<char> {
    stem(base_name(p)) + webp_suffix()
}

/// `name` placed inside the directory `dir`.
pub open spec fn join(dir: Seq<char>, name: Seq<char>) -> Seq<char> {
    if dir.len() == 0 {
        name
    } else if dir.last() == '/' {
        dir + name
    } else {
        dir + seq!['/'] + name
    }
}

/// Where the WebP file made from `p` is written: directly inside the output
/// root, whatever subdirectory `p` lies in.
pub open spec fn output_location(out_dir: Seq<char>, p: Seq<char>) -> Seq<char> {
    join(out_dir, output_name(p))
}

pub proof fn lemma_last_index_of(s: Seq<char>, c: char)
    ensures
        -1 <= last_index_of(s, c) < s.len(),
        last_index_of(s, c) >= 0 ==> s[last_index_of(s, c)] == c,
        forall|j: int| last_index_of(s, c) < j < s.len() ==> s[j] != c,
    decreases s.len(),
{
    if s.len() > 0 && s.last() != c {
        lemma_last_index_of(s.drop_last(), c);
        assert forall|j: int| last_index_of(s, c) < j < s.len() implies s[j] != c by {
            if j < s.len() - 1 {
                assert(s.drop_last()[j] == s[j]);
            }
        }
    }
}

/// Position of the last `c` in `s`.
pub fn last_index(s: &str, c: char) -> (r: Option<usize>)
    ensures
        match r {
            Some(i) => i == last_index_of(s@, c),
            None => last_index_of(s@, c) == -1,
        },
        r matches Some(i) ==> i < usize::MAX,
{
    let n = s.unicode_len();
    let mut i: usize = n;
    assert(s@.subrange(0, n as int) =~= s@);
    while i > 0
        invariant
            i <= n,
            n == s@.len(),
            last_index_of(s@, c) == last_index_of(s@.subrange(0, i as int), c),
        decreases i,
    {
        let ch = s.get_char(i - 1);
        if ch == c {
            return Some(i - 1);
        }
        assert(s@.subrange(0, i as int).drop_last() =~= s@.subrange(0, i - 1));
        i = i - 1;
    }
    None
}

/// Start of the final segment of `p`.
fn base_start(p: &str) -> (r: usize)
    ensures
        r == last_index_of(p@, '/') + 1,
        r <= p@.len(),
{
    proof {
        lemma_last_index_of(p@, '/');
    }
    match last_index(p, '/') {
        Some(i) => i + 1,
        None => 0,
    }
}

/// The final segment of a path.
pub fn file_name(p: &str) -> (r: &str)
    ensures
        r@ == base_name(p@),
{
    let start = base_start(p);
    p.substring_char(start, p.unicode_len())
}

/// The extension of a path, as [`extension`] defines it.
pub fn extension_of(p: &str) -> (r: Option<String>)
    ensures
        match r {
            Some(e) => extension(p@) == Some(e@),
            None => extension(p@) is None,
        },
{
    let b = file_name(p);
    proof {
        lemma_last_index_of(b@, '.');
    }
    let n = b.unicode_len();
    match last_index(b, '.') {
        Some(d) => Some(String::from_str(b.substring_char(d + 1, n))),
        None => None,
    }
}

/// Whether the path names a file, as [`has_file_name`] defines it.
pub fn names_file(p: &str) -> (r: bool)
    ensures
        r == has_file_name(p@),
{
    let b = file_name(p);
    let n = b.unicode_len();
    if n == 0 {
        false
    } else if n == 1 {
        let c = b.get_char(0);
        assert(c == '.' <==> b@ =~= seq!['.']);
        assert(b@ != seq!['.', '.']);
        c != '.'
    } else if n == 2 {
        let c0 = b.get_char(0);
        let c1 = b.get_char(1);
        assert((c0 == '.' && c1 == '.') <==> b@ =~= seq!['.', '.']);
        assert(b@ != seq!['.']);
        !(c0 == '.' && c1 == '.')
    } else {
        assert(b@ != seq!['.']);
        assert(b@ != seq!['.', '.']);
        true
    }
}

/// `name` placed inside the directory `dir`, as [`join`] defines it.
pub fn join_path(dir: &str, name: &str) -> (r: String)
    ensures
        r@ == join(dir@, name@),
{
    let n = dir.unicode_len();
    if n == 0 {
        String::from_str(name)
    } else if dir.get_char(n - 1) == '/' {
        String::from_str(dir).concat(name)
    } else {
        proof {
            reveal_strlit("/");
        }
        String::from_str(dir).concat("/").concat(name)
    }
}

/// Where the WebP file made from the file at `p` is written, or `None` when
/// `p` names no file.
pub fn output_path(out_dir: &str, p: &str) -> (r: Option<String>)
    ensures
        match r {
            Some(o) => has_file_name(p@) && o@ == output_location(out_dir@, p@),
            None => !has_file_name(p@),
        },
{
    if !names_file(p) {
        return None;
    }
    let b = file_name(p);
    proof {
        lemma_last_index_of(b@, '.');
    }
    let stem_part = match last_index(b, '.') {
        Some(d) => b.substring_char(0, d),
        None => b,
    };
    assert(stem_part@ == stem(b@));
    proof {
        reveal_strlit(".webp");
    }
    let name = String::from_str(stem_part).concat(".webp");
    assert(".webp"@ =~= webp_suffix());
    Some(join_path(out_dir, name.as_str()))
}

} // verus!
