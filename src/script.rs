//! Launcher scripts: the command line rendered in a platform's dialect.

use vstd::prelude::*;
use crate::args::{joined, views, join_strings};
use crate::module_url::{is_ascii_alpha, is_ascii_digit};
use crate::root::{ScriptDialect, command_path_of, launcher_path_of, launcher_path};
use crate::module_url::join_path;

verus! {

/// Characters a POSIX shell word may hold without quoting.
pub open spec fn is_shell_safe(c: char) -> bool {
    is_ascii_alpha(c) || is_ascii_digit(c) || c == '-' || c == '_' || c == '=' || c == '/' || c
        == ',' || c == '.' || c == '+'
}

pub open spec fn all_shell_safe(s: Seq<char>) -> bool {
    forall|i: int| 0 <= i < s.len() ==> is_shell_safe(#[trigger] s[i])
}

/// One character inside a single-quoted word: a quote or `!` closes the
/// quotes, is escaped with a backslash, and reopens them.
pub open spec fn quoted_char(c: char) -> Seq<char> {
    if c == '\'' || c == '!' {
        seq!['\'', '\\', c, '\'']
    } else {
        seq![c]
    }
}

pub open spec fn quoted_body(s: Seq<char>) -> Seq<char>
    decreases s.len(),
{
    if s.len() == 0 {
        Seq::empty()
    } else {
        quoted_char(s[0]) + quoted_body(s.drop_first())
    }
}

/// A token as a POSIX shell word: unchanged when every character is safe
/// (and there is at least one), single-quoted otherwise.
pub open spec fn shell_word(s: Seq<char>) -> Seq<char> {
    if s.len() > 0 && all_shell_safe(s) {
        s
    } else {
        seq!['\''] + quoted_body(s) + seq!['\'']
    }
}

/// Relies on shell_escape::unix::escape: a token made only of ASCII
/// letters, digits and `-_=/,.+` is kept, any other is wrapped in single
/// quotes with each `'` and `!` written as `'\'` or `'\!` followed by `'`.
#[verifier::external_body]
fn posix_escape(s: &str) -> (r: String)
    ensures
        r@ == shell_word(s@),
{
    shell_escape::unix::escape(std::borrow::Cow::Borrowed(s)).into_owned()
}

/// How a POSIX shell splits a line of words: unquoted spaces separate
/// words; outside quotes a `'` opens a quoted run and a backslash takes the
/// next character literally; inside, every character is literal up to the
/// closing `'`. `cur` is the word being read and `started` whether one is
/// under way.
pub open spec fn shell_split(s: Seq<char>, quoted: bool, started: bool, cur: Seq<char>) -> Seq<
    Seq<char>,
>
    decreases s.len(),
{
    if s.len() == 0 {
        if started {
            seq![cur]
        } else {
            seq![]
        }
    } else if quoted {
        if s[0] == '\'' {
            shell_split(s.drop_first(), false, true, cur)
        } else {
            shell_split(s.drop_first(), true, true, cur.push(s[0]))
        }
    } else if s[0] == ' ' {
        (if started {
            seq![cur]
        } else {
            seq![]
        }) + shell_split(s.drop_first(), false, false, Seq::empty())
    } else if s[0] == '\'' {
        shell_split(s.drop_first(), true, true, cur)
    } else if s[0] == '\\' && s.len() > 1 {
        shell_split(s.subrange(2, s.len() as int), false, true, cur.push(s[1]))
    } else {
        shell_split(s.drop_first(), false, true, cur.push(s[0]))
    }
}

proof fn lemma_split_quoted(t: Seq<char>, r: Seq<char>, cur: Seq<char>)
    ensures
        shell_split(quoted_body(t) + r, true, true, cur) == shell_split(r, true, true, cur + t),
    decreases t.len(),
{
    if t.len() == 0 {
        assert(quoted_body(t) + r =~= r);
        assert(cur + t =~= cur);
    } else {
        let c = t[0];
        let u = quoted_body(t.drop_first()) + r;
        lemma_split_quoted(t.drop_first(), r, cur.push(c));
        assert(cur.push(c) + t.drop_first() =~= cur + t);
        let w = quoted_char(c) + u;
        assert(quoted_body(t) + r =~= w);
        if c == '\'' || c == '!' {
            let w1 = seq!['\\', c, '\''] + u;
            let w2 = seq!['\''] + u;
            assert(w[0] == '\'');
            assert(w.drop_first() =~= w1);
            assert(w1[0] == '\\' && w1[1] == c);
            assert(w1.subrange(2, w1.len() as int) =~= w2);
            assert(w2.drop_first() =~= u);
            assert(shell_split(w2, false, true, cur.push(c)) == shell_split(u, true, true, cur.push(c)));
            assert(shell_split(w1, false, true, cur) == shell_split(w2, false, true, cur.push(c)));
            assert(shell_split(w, true, true, cur) == shell_split(w1, false, true, cur));
        } else {
            assert(w[0] == c);
            assert(w.drop_first() =~= u);
            assert(shell_split(w, true, true, cur) == shell_split(u, true, true, cur.push(c)));
        }
    }
}

proof fn lemma_split_safe(t: Seq<char>, r: Seq<char>, started: bool, cur: Seq<char>)
    requires
        all_shell_safe(t),
    ensures
        shell_split(t + r, false, started, cur) == shell_split(r, false, started || t.len() > 0, cur + t),
    decreases t.len(),
{
    if t.len() == 0 {
        assert(t + r =~= r);
        assert(cur + t =~= cur);
    } else {
        let c = t[0];
        assert(is_shell_safe(c));
        assert forall|i: int| 0 <= i < t.drop_first().len() implies is_shell_safe(
            #[trigger] t.drop_first()[i],
        ) by {
            assert(is_shell_safe(t[i + 1]));
        }
        lemma_split_safe(t.drop_first(), r, true, cur.push(c));
        assert(cur.push(c) + t.drop_first() =~= cur + t);
        let w = t + r;
        assert(w[0] == c);
        assert(w.drop_first() =~= t.drop_first() + r);
        assert(shell_split(w, false, started, cur) == shell_split(w.drop_first(), false, true, cur.push(c)));
    }
}

proof fn lemma_split_word(t: Seq<char>, r: Seq<char>)
    ensures
        shell_split(shell_word(t) + r, false, false, Seq::empty()) == shell_split(r, false, true, t),
{
    if t.len() > 0 && all_shell_safe(t) {
        lemma_split_safe(t, r, false, Seq::empty());
        assert(Seq::<char>::empty() + t =~= t);
    } else {
        let q = seq!['\''];
        let w = q + quoted_body(t) + q + r;
        assert(shell_word(t) + r =~= w);
        assert(w[0] == '\'');
        assert(w.drop_first() =~= quoted_body(t) + (q + r));
        lemma_split_quoted(t, q + r, Seq::empty());
        assert(Seq::<char>::empty() + t =~= t);
        assert((q + r)[0] == '\'');
        assert((q + r).drop_first() =~= r);
    }
}

proof fn lemma_joined_front(parts: Seq<Seq<char>>, sep: Seq<char>)
    requires
        parts.len() >= 2,
    ensures
        joined(parts, sep) == parts[0] + sep + joined(parts.drop_first(), sep),
    decreases parts.len(),
{
    let dl = parts.drop_last();
    let df = parts.drop_first();
    assert(joined(parts, sep) == joined(dl, sep) + sep + parts.last());
    if parts.len() == 2 {
        assert(joined(dl, sep) == dl[0]);
        assert(joined(df, sep) == df[0]);
        assert(dl[0] == parts[0] && df[0] == parts.last());
        assert(joined(parts, sep) =~= parts[0] + sep + joined(df, sep));
    } else {
        lemma_joined_front(dl, sep);
        assert(dl.drop_first() =~= df.drop_last());
        assert(df.last() == parts.last());
        assert(dl[0] == parts[0]);
        assert(joined(df, sep) == joined(df.drop_last(), sep) + sep + df.last());
        assert(joined(parts, sep) =~= parts[0] + sep + joined(df, sep));
    }
}

/// The argument words of a POSIX launcher, split as the shell splits them,
/// give back the tokens exactly, whatever quotes, spaces, `%` or other
/// special characters they hold.
pub proof fn law_shell_line_round_trip(args: Seq<Seq<char>>)
    ensures
        shell_split(joined(args.map_values(|a: Seq<char>| shell_word(a)), " "@), false, false, Seq::empty())
            == args,
    decreases args.len(),
{
    reveal_strlit(" ");
    let words = args.map_values(|a: Seq<char>| shell_word(a));
    if args.len() == 0 {
        assert(args =~= seq![]);
    } else if args.len() == 1 {
        lemma_split_word(args[0], Seq::empty());
        assert(words[0] + Seq::<char>::empty() =~= words[0]);
        assert(args =~= seq![args[0]]);
    } else {
        let rest = args.drop_first();
        law_shell_line_round_trip(rest);
        lemma_joined_front(words, " "@);
        assert(words.drop_first() =~= rest.map_values(|a: Seq<char>| shell_word(a)));
        let tail = joined(words.drop_first(), " "@);
        let r = " "@ + tail;
        assert(joined(words, " "@) =~= shell_word(args[0]) + r);
        lemma_split_word(args[0], r);
        assert(r[0] == ' ');
        assert(r.drop_first() =~= tail);
        assert(args =~= seq![args[0]] + rest);
    }
}

/// `%` doubled, as a batch file reads it.
pub open spec fn double_percent(s: Seq<char>) -> Seq<char>
    decreases s.len(),
{
    if s.len() == 0 {
        Seq::empty()
    } else {
        (if s[0] == '%' {
            seq!['%', '%']
        } else {
            seq![s[0]]
        }) + double_percent(s.drop_first())
    }
}

/// How a batch file reads a double-quoted argument: quotes are dropped and
/// `%%` stands for one `%`.
pub open spec fn cmd_read(s: Seq<char>) -> Seq<char>
    decreases s.len(),
{
    if s.len() == 0 {
        Seq::empty()
    } else if s[0] == '"' {
        cmd_read(s.drop_first())
    } else if s[0] == '%' && s.len() > 1 && s[1] == '%' {
        seq!['%'] + cmd_read(s.subrange(2, s.len() as int))
    } else {
        seq![s[0]] + cmd_read(s.drop_first())
    }
}

pub open spec fn has_double_quote(s: Seq<char>) -> bool {
    exists|i: int| 0 <= i < s.len() && s[i] == '"'
}

proof fn lemma_cmd_read_doubled(t: Seq<char>, tail: Seq<char>)
    requires
        !has_double_quote(t),
    ensures
        cmd_read(double_percent(t) + tail) == t + cmd_read(tail),
    decreases t.len(),
{
    if t.len() == 0 {
        assert(double_percent(t) + tail =~= tail);
        assert(t + cmd_read(tail) =~= cmd_read(tail));
    } else {
        let c = t[0];
        assert(c != '"') by {
            if c == '"' {
                assert(t[0] == '"');
            }
        }
        let r = t.drop_first();
        assert(!has_double_quote(r)) by {
            if has_double_quote(r) {
                let i = choose|i: int| 0 <= i < r.len() && r[i] == '"';
                assert(t[i + 1] == '"');
            }
        }
        lemma_cmd_read_doubled(r, tail);
        let u = double_percent(r) + tail;
        if c == '%' {
            let w = seq!['%', '%'] + u;
            assert(double_percent(t) + tail =~= w);
            assert(w[0] == '%' && w[1] == '%');
            assert(w.subrange(2, w.len() as int) =~= u);
            assert(cmd_read(w) == seq!['%'] + cmd_read(u));
        } else {
            let w = seq![c] + u;
            assert(double_percent(t) + tail =~= w);
            assert(w[0] == c);
            assert(w.drop_first() =~= u);
            assert(cmd_read(w) == seq![c] + cmd_read(u));
        }
        assert(t + cmd_read(tail) =~= seq![c] + (r + cmd_read(tail)));
    }
}

/// A token without double quotes, written as a batch file argument, reads
/// back as the same token, `%` included.
pub proof fn law_cmd_word_round_trip(t: Seq<char>)
    requires
        !has_double_quote(t),
    ensures
        cmd_read(cmd_word(t)) == t,
{
    let w = cmd_word(t);
    assert(w[0] == '"');
    assert(w.drop_first() =~= double_percent(t) + seq!['"']);
    assert(cmd_read(w) == cmd_read(double_percent(t) + seq!['"']));
    lemma_cmd_read_doubled(t, seq!['"']);
    let q = seq!['"'];
    assert(q.drop_first() =~= Seq::<char>::empty());
    assert(cmd_read(q) == cmd_read(Seq::<char>::empty()));
    assert(t + Seq::<char>::empty() =~= t);
}

/// A token in double quotes.
pub open spec fn dq_word(s: Seq<char>) -> Seq<char> {
    seq!['"'] + s + seq!['"']
}

/// A token as a batch file argument.
pub open spec fn cmd_word(s: Seq<char>) -> Seq<char> {
    dq_word(double_percent(s))
}

pub open spec fn posix_header() -> Seq<char> {
    "#!/bin/sh\n# generated by deno install\n"@
}

/// The POSIX launcher: it replaces itself with the runtime, passing the
/// escaped tokens and then whatever arguments it was called with.
pub open spec fn posix_script(args: Seq<Seq<char>>) -> Seq<char> {
    posix_header() + "exec deno "@ + joined(args.map_values(|a: Seq<char>| shell_word(a)), " "@)
        + " \"$@\"\n"@
}

/// The batch launcher: double-quoted tokens with `%` doubled, then `%*`.
pub open spec fn cmd_script(args: Seq<Seq<char>>) -> Seq<char> {
    "% generated by deno install %\n@deno "@ + joined(
        args.map_values(|a: Seq<char>| cmd_word(a)),
        " "@,
    ) + " %*\n"@
}

/// The companion of a batch launcher, for POSIX shells on the same platform.
pub open spec fn companion_script(args: Seq<Seq<char>>) -> Seq<char> {
    posix_header() + "deno "@ + joined(args.map_values(|a: Seq<char>| dq_word(a)), " "@)
        + " \"$@\"\n"@
}

/// One generated launcher file.
#[derive(Clone, Debug, PartialEq, Eq)]
pub struct LauncherFile {
    pub path: String,
    pub content: String,
    /// Whether the file gets mode 0755.
    pub executable: bool,
}

/// The launcher files of a dialect, as (path, content, executable).
pub open spec fn launcher_files(
    d: ScriptDialect,
    bin: Seq<char>,
    name: Seq<char>,
    args: Seq<Seq<char>>,
) -> Seq<(Seq<char>, Seq<char>, bool)> {
    match d {
        ScriptDialect::Posix => seq![(command_path_of(bin, name), posix_script(args), true)],
        ScriptDialect::DualWindows => seq![
            (launcher_path_of(bin, name, d), cmd_script(args), false),
            (command_path_of(bin, name), companion_script(args), false),
        ],
    }
}

pub open spec fn file_view(f: LauncherFile) -> (Seq<char>, Seq<char>, bool) {
    (f.path@, f.content@, f.executable)
}

pub open spec fn file_views(v: Seq<LauncherFile>) -> Seq<(Seq<char>, Seq<char>, bool)> {
    v.map_values(|f: LauncherFile| file_view(f))
}

/// `s` with every `%` doubled.
pub fn percent_doubled(s: &str) -> (r: String)
    ensures
        r@ == double_percent(s@),
{
    let n = s.unicode_len();
    let mut acc = String::new();
    let mut i: usize = n;
    // built from the back, so that each step prepends one character's piece
    while i > 0
        invariant
            i <= n == s@.len(),
            acc@ == double_percent(s@.subrange(i as int, n as int)),
        decreases i,
    {
        proof {
            let t = s@.subrange(i - 1, n as int);
            assert(t.drop_first() =~= s@.subrange(i as int, n as int));
            assert(t[0] == s@[i - 1]);
            reveal_strlit("%%");
        }
        let piece = if s.get_char(i - 1) == '%' {
            String::from_str("%%")
        } else {
            String::from_str(s.substring_char(i - 1, i))
        };
        proof {
            let t = s@.subrange(i - 1, n as int);
            assert(piece@ =~= (if t[0] == '%' {
                seq!['%', '%']
            } else {
                seq![t[0]]
            }));
        }
        acc = piece.concat(acc.as_str());
        i = i - 1;
    }
    proof {
        assert(s@.subrange(0, n as int) =~= s@);
    }
    acc
}

/// `s` in double quotes.
fn double_quoted(s: &str) -> (r: String)
    ensures
        r@ == dq_word(s@),
{
    proof {
        reveal_strlit("\"");
    }
    let r = String::from_str("\"").concat(s).concat("\"");
    assert(r@ =~= dq_word(s@));
    r
}

/// The tokens as batch file arguments.
fn cmd_words(args: &Vec<String>) -> (r: Vec<String>)
    ensures
        views(r@) == views(args@).map_values(|a: Seq<char>| cmd_word(a)),
{
    let mut out: Vec<String> = Vec::new();
    let mut i: usize = 0;
    while i < args.len()
        invariant
            i <= args@.len(),
            views(out@) == views(args@.subrange(0, i as int)).map_values(|a: Seq<char>| cmd_word(a)),
        decreases args@.len() - i,
    {
        let d = percent_doubled(args[i].as_str());
        out.push(double_quoted(d.as_str()));
        proof {
            let pre = views(args@.subrange(0, i as int));
            let post = views(args@.subrange(0, i + 1));
            assert(post =~= pre.push(args@[i as int]@));
            assert(post.map_values(|a: Seq<char>| cmd_word(a)) =~= pre.map_values(
                |a: Seq<char>| cmd_word(a),
            ).push(cmd_word(args@[i as int]@)));
            assert(views(out@) =~= post.map_values(|a: Seq<char>| cmd_word(a)));
        }
        i = i + 1;
    }
    proof {
        assert(args@.subrange(0, args@.len() as int) =~= args@);
    }
    out
}

/// The tokens in double quotes.
fn dq_words(args: &Vec<String>) -> (r: Vec<String>)
    ensures
        views(r@) == views(args@).map_values(|a: Seq<char>| dq_word(a)),
{
    let mut out: Vec<String> = Vec::new();
    let mut i: usize = 0;
    while i < args.len()
        invariant
            i <= args@.len(),
            views(out@) == views(args@.subrange(0, i as int)).map_values(|a: Seq<char>| dq_word(a)),
        decreases args@.len() - i,
    {
        out.push(double_quoted(args[i].as_str()));
        proof {
            let pre = views(args@.subrange(0, i as int));
            let post = views(args@.subrange(0, i + 1));
            assert(post =~= pre.push(args@[i as int]@));
            assert(post.map_values(|a: Seq<char>| dq_word(a)) =~= pre.map_values(
                |a: Seq<char>| dq_word(a),
            ).push(dq_word(args@[i as int]@)));
            assert(views(out@) =~= post.map_values(|a: Seq<char>| dq_word(a)));
        }
        i = i + 1;
    }
    proof {
        assert(args@.subrange(0, args@.len() as int) =~= args@);
    }
    out
}

/// The tokens as POSIX shell words.
fn shell_words(args: &Vec<String>) -> (r: Vec<String>)
    ensures
        views(r@) == views(args@).map_values(|a: Seq<char>| shell_word(a)),
{
    let mut out: Vec<String> = Vec::new();
    let mut i: usize = 0;
    while i < args.len()
        invariant
            i <= args@.len(),
            views(out@) == views(args@.subrange(0, i as int)).map_values(
                |a: Seq<char>| shell_word(a),
            ),
        decreases args@.len() - i,
    {
        out.push(posix_escape(args[i].as_str()));
        proof {
            let pre = views(args@.subrange(0, i as int));
            let post = views(args@.subrange(0, i + 1));
            assert(post =~= pre.push(args@[i as int]@));
            assert(post.map_values(|a: Seq<char>| shell_word(a)) =~= pre.map_values(
                |a: Seq<char>| shell_word(a),
            ).push(shell_word(args@[i as int]@)));
            assert(views(out@) =~= post.map_values(|a: Seq<char>| shell_word(a)));
        }
        i = i + 1;
    }
    proof {
        assert(args@.subrange(0, args@.len() as int) =~= args@);
    }
    out
}

/// The text of a POSIX launcher.
pub fn render_posix(args: &Vec<String>) -> (r: String)
    ensures
        r@ == posix_script(views(args@)),
{
    let words = shell_words(args);
    String::from_str("#!/bin/sh\n# generated by deno install\n").concat("exec deno ").concat(
        join_strings(&words, " ").as_str(),
    ).concat(" \"$@\"\n")
}

/// The text of a batch launcher.
pub fn render_cmd(args: &Vec<String>) -> (r: String)
    ensures
        r@ == cmd_script(views(args@)),
{
    let words = cmd_words(args);
    String::from_str("% generated by deno install %\n@deno ").concat(
        join_strings(&words, " ").as_str(),
    ).concat(" %*\n")
}

/// The text of the POSIX companion of a batch launcher.
pub fn render_companion(args: &Vec<String>) -> (r: String)
    ensures
        r@ == companion_script(views(args@)),
{
    let words = dq_words(args);
    String::from_str("#!/bin/sh\n# generated by deno install\n").concat("deno ").concat(
        join_strings(&words, " ").as_str(),
    ).concat(" \"$@\"\n")
}

/// The launcher files for a command: one POSIX script, or a batch file and
/// its POSIX companion.
pub fn emit(d: ScriptDialect, bin: &str, name: &str, args: &Vec<String>) -> (r: Vec<LauncherFile>)
    ensures
        file_views(r@) == launcher_files(d, bin@, name@, views(args@)),
{
    let mut out: Vec<LauncherFile> = Vec::new();
    match d {
        ScriptDialect::Posix => {
            out.push(
                LauncherFile { path: join_path(bin, name), content: render_posix(args), executable: true },
            );
        },
        ScriptDialect::DualWindows => {
            out.push(
                LauncherFile {
                    path: launcher_path(bin, name, d),
                    content: render_cmd(args),
                    executable: false,
                },
            );
            out.push(
                LauncherFile {
                    path: join_path(bin, name),
                    content: render_companion(args),
                    executable: false,
                },
            );
        },
    }
    assert(file_views(out@) =~= launcher_files(d, bin@, name@, views(args@)));
    out
}

} // verus!
