//! Deriving a command name from a module path, and checking it.

use vstd::prelude::*;
use crate::text::str_eq;
use crate::error::InstallError;
use crate::module_url::{is_ascii_alpha, is_ascii_digit, ModuleUrl, infer_name_from_url};

verus! {

/// Index just past the last character of `p[0..n]` that is not a `/`
/// (trailing separators are ignored).
pub open spec fn trim_len(p: Seq<char>, n: int) -> int
    decreases n,
{
    if n > 0 && p[n - 1] == '/' {
        trim_len(p, n - 1)
    } else {
        n
    }
}

/// Start of the run of non-`/` characters that ends at `n`.
pub open spec fn seg_start(p: Seq<char>, n: int) -> int
    decreases n,
{
    if n > 0 && p[n - 1] != '/' {
        seg_start(p, n - 1)
    } else {
        n
    }
}

/// The last segment of `p[0..n]`, ignoring trailing separators.
pub open spec fn last_segment(p: Seq<char>, n: int) -> Option<Seq<char>> {
    let e = trim_len(p, n);
    let s = seg_start(p, e);
    if s < e {
        Some(p.subrange(s, e))
    } else {
        None
    }
}

/// The final segment of a path: its file name.
pub open spec fn file_name(p: Seq<char>) -> Option<Seq<char>> {
    last_segment(p, p.len() as int)
}

/// The name of the directory that holds the final segment.
pub open spec fn parent_name(p: Seq<char>) -> Option<Seq<char>> {
    last_segment(p, seg_start(p, trim_len(p, p.len() as int)))
}

/// Index of the last `.` in `n[0..k]`, or -1.
pub open spec fn last_dot(n: Seq<char>, k: int) -> int
    decreases k,
{
    if k <= 0 {
        -1
    } else if n[k - 1] == '.' {
        k - 1
    } else {
        last_dot(n, k - 1)
    }
}

/// A file name without its extension; a leading dot starts no extension.
pub open spec fn stem(n: Seq<char>) -> Seq<char> {
    let d = last_dot(n, n.len() as int);
    if d > 0 {
        n.subrange(0, d)
    } else {
        n
    }
}

/// Stems that name a conventional entry point rather than a tool.
pub open spec fn is_entry_stem(s: Seq<char>) -> bool {
    s == seq!['m', 'a', 'i', 'n'] || s == seq!['m', 'o', 'd'] || s == seq!['i', 'n', 'd', 'e', 'x']
        || s == seq!['c', 'l', 'i']
}

/// Index of the first `@` at or after `i`, or the length.
pub open spec fn at_index(s: Seq<char>, i: int) -> int
    decreases s.len() - i,
{
    if i >= s.len() {
        s.len() as int
    } else if s[i] == '@' {
        i
    } else {
        at_index(s, i + 1)
    }
}

/// `s` cut before its first `@`.
pub open spec fn before_at(s: Seq<char>) -> Seq<char> {
    s.subrange(0, at_index(s, 0))
}

/// The name inferred from a path, before the `@` cut.
pub open spec fn base_name(p: Seq<char>) -> Option<Seq<char>> {
    match file_name(p) {
        None => None,
        Some(f) => {
            let s = stem(f);
            if is_entry_stem(s) && parent_name(p).is_some() {
                Some(parent_name(p).unwrap())
            } else {
                Some(s)
            }
        },
    }
}

/// The command name inferred from a URL path.
pub open spec fn inferred_name(p: Seq<char>) -> Option<Seq<char>> {
    match base_name(p) {
        None => None,
        Some(b) => Some(before_at(b)),
    }
}

proof fn lemma_trim_bounds(p: Seq<char>, n: int)
    requires
        0 <= n <= p.len(),
    ensures
        0 <= trim_len(p, n) <= n,
    decreases n,
{
    if n > 0 && p[n - 1] == '/' {
        lemma_trim_bounds(p, n - 1);
    }
}

proof fn lemma_seg_bounds(p: Seq<char>, n: int)
    requires
        0 <= n <= p.len(),
    ensures
        0 <= seg_start(p, n) <= n,
    decreases n,
{
    if n > 0 && p[n - 1] != '/' {
        lemma_seg_bounds(p, n - 1);
    }
}

proof fn lemma_at_bounds(s: Seq<char>, i: int)
    requires
        0 <= i <= s.len(),
    ensures
        i <= at_index(s, i) <= s.len(),
    decreases s.len() - i,
{
    if i < s.len() && s[i] != '@' {
        lemma_at_bounds(s, i + 1);
    }
}

proof fn lemma_trim_all_slashes(p: Seq<char>, n: int)
    requires
        0 <= n <= p.len(),
        forall|i: int| 0 <= i < p.len() ==> p[i] == '/',
    ensures
        trim_len(p, n) == 0,
    decreases n,
{
    if n > 0 {
        lemma_trim_all_slashes(p, n - 1);
    }
}

proof fn lemma_before_at_index(s: Seq<char>, i: int)
    requires
        0 <= i <= s.len(),
    ensures
        forall|j: int| i <= j < at_index(s, i) ==> s[j] != '@',
    decreases s.len() - i,
{
    if i < s.len() && s[i] != '@' {
        lemma_before_at_index(s, i + 1);
    }
}

/// A file whose stem is a conventional entry point (`main`, `mod`, `index`,
/// `cli`) takes its name from its directory, when there is one; any other
/// file takes the name of its stem; a path with no segment gives no name.
pub proof fn law_entry_point_names(p: Seq<char>)
    ensures
        file_name(p) is Some && is_entry_stem(stem(file_name(p).unwrap())) && parent_name(p) is Some
            ==> inferred_name(p) == Some(before_at(parent_name(p).unwrap())),
        file_name(p) is Some && !is_entry_stem(stem(file_name(p).unwrap())) ==> inferred_name(p)
            == Some(before_at(stem(file_name(p).unwrap()))),
        file_name(p) is None ==> inferred_name(p) is None,
{
}

/// A path made only of separators, the empty one included, gives no name.
pub proof fn law_empty_path_no_name(p: Seq<char>)
    requires
        forall|i: int| 0 <= i < p.len() ==> p[i] == '/',
    ensures
        inferred_name(p) is None,
{
    lemma_trim_all_slashes(p, p.len() as int);
}

/// An inferred name stops before the first `@`: it holds no `@` and is
/// the start of the name it was cut from.
pub proof fn law_inferred_name_cut_at_sign(p: Seq<char>)
    ensures
        inferred_name(p) matches Some(n) ==> (forall|i: int| 0 <= i < n.len() ==> n[i] != '@'),
        inferred_name(p) matches Some(n) ==> n.is_prefix_of(base_name(p).unwrap()),
{
    if let Some(b) = base_name(p) {
        lemma_at_bounds(b, 0);
        lemma_before_at_index(b, 0);
        assert(before_at(b).is_prefix_of(b));
    }
}

/// Skips trailing separators of `p[0..n]`.
fn trim_end(p: &str, n: usize) -> (r: usize)
    requires
        n <= p@.len(),
    ensures
        r == trim_len(p@, n as int),
{
    let mut i: usize = n;
    while i > 0 && p.get_char(i - 1) == '/'
        invariant
            i <= n <= p@.len(),
            trim_len(p@, i as int) == trim_len(p@, n as int),
        decreases i,
    {
        i = i - 1;
    }
    i
}

/// Walks back to the separator before the segment that ends at `n`.
fn segment_start(p: &str, n: usize) -> (r: usize)
    requires
        n <= p@.len(),
    ensures
        r == seg_start(p@, n as int),
{
    let mut i: usize = n;
    while i > 0 && p.get_char(i - 1) != '/'
        invariant
            i <= n <= p@.len(),
            seg_start(p@, i as int) == seg_start(p@, n as int),
        decreases i,
    {
        i = i - 1;
    }
    i
}

/// The last segment of `p[0..n]` as a slice.
fn segment_before<'a>(p: &'a str, n: usize) -> (r: Option<&'a str>)
    requires
        n <= p@.len(),
    ensures
        r matches Some(s) ==> last_segment(p@, n as int) == Some(s@),
        r is None ==> last_segment(p@, n as int) is None,
{
    let e = trim_end(p, n);
    proof {
        lemma_trim_bounds(p@, n as int);
    }
    let s = segment_start(p, e);
    proof {
        lemma_seg_bounds(p@, e as int);
    }
    if s < e {
        Some(p.substring_char(s, e))
    } else {
        None
    }
}

/// The file name without its extension.
fn file_stem<'a>(f: &'a str) -> (r: &'a str)
    ensures
        r@ == stem(f@),
{
    let n = f.unicode_len();
    let mut k: usize = n;
    while k > 0 && f.get_char(k - 1) != '.'
        invariant
            k <= n == f@.len(),
            last_dot(f@, k as int) == last_dot(f@, n as int),
        decreases k,
    {
        k = k - 1;
    }
    // here `k - 1` is the last dot, or `k == 0` when there is none
    if k > 1 {
        f.substring_char(0, k - 1)
    } else {
        f
    }
}

/// `s` cut before its first `@`.
fn cut_at_sign<'a>(s: &'a str) -> (r: &'a str)
    ensures
        r@ == before_at(s@),
{
    let n = s.unicode_len();
    let mut i: usize = 0;
    while i < n && s.get_char(i) != '@'
        invariant
            i <= n == s@.len(),
            at_index(s@, i as int) == at_index(s@, 0),
        decreases n - i,
    {
        i = i + 1;
    }
    s.substring_char(0, i)
}

/// Whether `s` is one of the conventional entry-point stems.
fn is_entry_point(s: &str) -> (r: bool)
    ensures
        r == is_entry_stem(s@),
{
    proof {
        reveal_strlit("main");
        reveal_strlit("mod");
        reveal_strlit("index");
        reveal_strlit("cli");
        assert("main"@ =~= seq!['m', 'a', 'i', 'n']);
        assert("mod"@ =~= seq!['m', 'o', 'd']);
        assert("index"@ =~= seq!['i', 'n', 'd', 'e', 'x']);
        assert("cli"@ =~= seq!['c', 'l', 'i']);
    }
    str_eq(s, "main") || str_eq(s, "mod") || str_eq(s, "index") || str_eq(s, "cli")
}

/// Infers a command name from the path of a module URL: the file stem, or
/// the parent directory for an entry-point stem, cut before any `@`.
pub fn infer_name_from_path(path: &str) -> (r: Option<String>)
    ensures
        r matches Some(s) ==> inferred_name(path@) == Some(s@),
        r is None ==> inferred_name(path@) is None,
{
    let n = path.unicode_len();
    let file = segment_before(path, n);
    match file {
        None => None,
        Some(f) => {
            let st = file_stem(f);
            let mut base = st;
            if is_entry_point(st) {
                let e = trim_end(path, n);
                proof {
                    lemma_trim_bounds(path@, n as int);
                }
                let s = segment_start(path, e);
                proof {
                    lemma_seg_bounds(path@, e as int);
                }
                match segment_before(path, s) {
                    Some(parent) => {
                        base = parent;
                    },
                    None => {},
                }
            }
            let cut = cut_at_sign(base);
            Some(String::from_str(cut))
        },
    }
}

/// The pattern a command name must match, case-insensitively.
pub open spec fn name_pattern() -> Seq<char> {
    seq!['^', '[', 'a', '-', 'z', ']', '[', '\\', 'w', '-', ']', '*', '$']
}

/// Whether a whole text matches a pattern under the regex crate's syntax,
/// with case-insensitive matching.
pub uninterp spec fn regex_ci_matches(pattern: Seq<char>, text: Seq<char>) -> bool;

pub open spec fn is_ascii_text(s: Seq<char>) -> bool {
    forall|i: int| 0 <= i < s.len() ==> (#[trigger] s[i]) as u32 <= 0x7f
}

/// A character that may follow the first one of a name.
pub open spec fn is_name_char(c: char) -> bool {
    is_ascii_alpha(c) || is_ascii_digit(c) || c == '_' || c == '-'
}

/// An ASCII name of the accepted shape: a letter, then letters, digits,
/// underscores or hyphens.
pub open spec fn is_ascii_name(s: Seq<char>) -> bool {
    s.len() > 0 && is_ascii_alpha(s[0]) && forall|i: int|
        1 <= i < s.len() ==> is_name_char(#[trigger] s[i])
}

/// Relies on regex::RegexBuilder (with case_insensitive set) and
/// Regex::is_match: `None` when the pattern does not compile. On ASCII text
/// the name pattern's `[a-z]` matches any ASCII letter and `\w` any ASCII
/// letter, digit or underscore, so the match is `is_ascii_name`.
#[verifier::external_body]
fn regex_is_match_ci(pattern: &str, text: &str) -> (r: Option<bool>)
    ensures
        r matches Some(b) ==> b == regex_ci_matches(pattern@, text@),
        pattern@ == name_pattern() ==> r is Some,
        pattern@ == name_pattern() && is_ascii_text(text@) ==> r == Some(is_ascii_name(text@)),
{
    match regex::RegexBuilder::new(pattern).case_insensitive(true).build() {
        Ok(re) => Some(re.is_match(text)),
        Err(_) => None,
    }
}

/// Whether `name` is an acceptable command name.
pub open spec fn valid_name(name: Seq<char>) -> bool {
    regex_ci_matches(name_pattern(), name)
}

/// Checks that `name` has the shape of a command name.
pub fn validate_name(name: &str) -> (r: Result<(), InstallError>)
    ensures
        r is Ok <==> valid_name(name@),
        r matches Err(e) ==> e matches InstallError::InvalidName { name: n } && n@ == name@,
        is_ascii_text(name@) ==> (r is Ok <==> is_ascii_name(name@)),
{
    let pattern = "^[a-z][\\w-]*$";
    proof {
        reveal_strlit("^[a-z][\\w-]*$");
        assert(pattern@ =~= name_pattern());
    }
    match regex_is_match_ci(pattern, name) {
        Some(true) => Ok(()),
        _ => Err(InstallError::InvalidName { name: String::from_str(name) }),
    }
}

/// The name an installation would use: the one given, else the inferred one.
pub open spec fn chosen_name(given: Option<Seq<char>>, path: Seq<char>) -> Option<Seq<char>> {
    match given {
        Some(n) => Some(n),
        None => inferred_name(path),
    }
}

/// Names that start with a digit, or hold a space or a slash, are refused.
pub proof fn law_rejected_name_shapes(s: Seq<char>)
    ensures
        s.len() > 0 && is_ascii_digit(s[0]) ==> !is_ascii_name(s),
        (exists|i: int| 0 <= i < s.len() && (s[i] == ' ' || s[i] == '/')) ==> !is_ascii_name(s),
        s.len() == 0 ==> !is_ascii_name(s),
{
    if exists|i: int| 0 <= i < s.len() && (s[i] == ' ' || s[i] == '/') {
        let i = choose|i: int| 0 <= i < s.len() && (s[i] == ' ' || s[i] == '/');
        if i >= 1 {
            assert(!is_name_char(s[i]));
        }
    }
}

/// Picks the command name: an explicit one wins over inference; the result
/// must pass `validate_name`.
pub fn resolve_name(name: Option<String>, module: &ModuleUrl) -> (r: Result<String, InstallError>)
    ensures
        ({
            let given = match name {
                Some(n) => Some(n@),
                None => None,
            };
            match chosen_name(given, module.path@) {
                None => r == Err::<String, InstallError>(InstallError::MissingName),
                Some(c) => if valid_name(c) {
                    r matches Ok(s) && s@ == c
                } else {
                    r matches Err(e) && e matches InstallError::InvalidName { name: n } && n@ == c
                },
            }
        }),
{
    let chosen = match name {
        Some(n) => Some(n),
        None => infer_name_from_url(module),
    };
    match chosen {
        None => Err(InstallError::MissingName),
        Some(n) => match validate_name(n.as_str()) {
            Ok(()) => Ok(n),
            Err(e) => Err(e),
        },
    }
}

} // verus!
