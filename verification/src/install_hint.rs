//! Advice for putting the program on PATH, chosen by the user's shell.

use vstd::prelude::*;
use crate::backend::opt_text;
use crate::text::{ends_with, same_text, text_ends_with};

verus! {

/// The run of characters after the last `/` of `p` (all of `p` when it has none).
pub open spec fn last_segment(p: Seq<char>) -> Seq<char>
    decreases p.len(),
{
    if p.len() == 0 || p.last() == '/' {
        Seq::empty()
    } else {
        last_segment(p.drop_last()).push(p.last())
    }
}

/// The file name of path `p`: its final component, ignoring trailing `/` and
/// `.` components; none when the path has no components left or ends in `..`.
pub open spec fn file_name(p: Seq<char>) -> Option<Seq<char>>
    decreases p.len(),
{
    if p.len() == 0 {
        None
    } else if p.last() == '/' {
        file_name(p.drop_last())
    } else if last_segment(p) == seq!['.'] {
        file_name(p.drop_last())
    } else if last_segment(p) == seq!['.', '.'] {
        None
    } else {
        Some(last_segment(p))
    }
}

/// The segment of `p` that ends at its end and starts just after a `/` (or at
/// the start) is its last segment.
proof fn lemma_last_segment(p: Seq<char>, start: int)
    requires
        0 <= start <= p.len(),
        start == 0 || p[start - 1] == '/',
        forall|j: int| start <= j < p.len() ==> p[j] != '/',
    ensures
        last_segment(p) == p.subrange(start, p.len() as int),
    decreases p.len(),
{
    if p.len() == start {
        assert(p.subrange(start, p.len() as int) =~= Seq::<char>::empty());
    } else {
        lemma_last_segment(p.drop_last(), start);
        assert(p.subrange(start, p.len() as int) =~= p.drop_last().subrange(
            start,
            p.len() - 1,
        ).push(p.last()));
    }
}

/// The file name of `s`, as a part of it.
fn file_name_of(s: &str) -> (r: Option<&str>)
    ensures
        opt_text(r) == file_name(s@),
{
    let n = s.unicode_len();
    let mut end = n;
    assert(s@.subrange(0, n as int) =~= s@);
    loop
        invariant
            n == s@.len(),
            end <= n,
            file_name(s@.subrange(0, end as int)) == file_name(s@),
        decreases end,
    {
        let ghost p = s@.subrange(0, end as int);
        if end == 0 {
            return None;
        }
        if s.get_char(end - 1) == '/' {
            assert(p.drop_last() =~= s@.subrange(0, end - 1));
            end = end - 1;
        } else {
            let mut start = end;
            while start > 0 && s.get_char(start - 1) != '/'
                invariant
                    n == s@.len(),
                    start <= end <= n,
                    forall|j: int| start <= j < end ==> s@[j] != '/',
                decreases start,
            {
                start = start - 1;
            }
            proof {
                lemma_last_segment(p, start as int);
                assert(p.subrange(start as int, end as int) =~= s@.subrange(
                    start as int,
                    end as int,
                ));
            }
            let len = end - start;
            if len == 1 && s.get_char(start) == '.' {
                assert(s@.subrange(start as int, end as int) =~= seq!['.']);
                assert(p.drop_last() =~= s@.subrange(0, end - 1));
                end = end - 1;
            } else if len == 2 && s.get_char(start) == '.' && s.get_char(start + 1) == '.' {
                assert(s@.subrange(start as int, end as int) =~= seq!['.', '.']);
                return None;
            } else {
                proof {
                    if s@.subrange(start as int, end as int) == seq!['.'] {
                        assert(s@.subrange(start as int, end as int)[0] == s@[start as int]);
                    }
                    if s@.subrange(start as int, end as int) == seq!['.', '.'] {
                        assert(s@.subrange(start as int, end as int)[0] == s@[start as int]);
                        assert(s@.subrange(start as int, end as int)[1] == s@[start + 1]);
                    }
                }
                return Some(s.substring_char(start, end));
            }
        }
    }
}

/// The shell startup file to append to, and the command, if any, that makes
/// the shell forget its cached command lookups; bash on macOS reads
/// `~/.bash_profile` rather than `~/.bashrc`.
pub open spec fn shell_advice_spec(shell: Seq<char>, macos: bool) -> (Seq<char>, Option<Seq<char>>) {
    let name = file_name(shell);
    if name == Some("zsh"@) {
        ("~/.zshrc"@, Some("rehash"@))
    } else if name == Some("bash"@) {
        if macos {
            ("~/.bash_profile"@, Some("hash -r"@))
        } else {
            ("~/.bashrc"@, Some("hash -r"@))
        }
    } else if name == Some("fish"@) {
        ("~/.config/fish/config.fish"@, None)
    } else {
        ("your shell startup file"@, None)
    }
}

/// The startup file of `shell` (a path such as `$SHELL`) and the command that
/// clears its command cache; `macos` tells whether the target system is macOS.
pub fn shell_advice(shell: &str, macos: bool) -> (r: (&'static str, Option<&'static str>))
    ensures
        (r.0@, opt_text(r.1)) == shell_advice_spec(shell@, macos),
{
    match file_name_of(shell) {
        Some(name) => {
            if same_text(name, "zsh") {
                ("~/.zshrc", Some("rehash"))
            } else if same_text(name, "bash") {
                if macos {
                    ("~/.bash_profile", Some("hash -r"))
                } else {
                    ("~/.bashrc", Some("hash -r"))
                }
            } else if same_text(name, "fish") {
                ("~/.config/fish/config.fish", None)
            } else {
                ("your shell startup file", None)
            }
        },
        None => ("your shell startup file", None),
    }
}

/// The lines that tell how to put directory `dir` on PATH, for `shell`.
pub open spec fn hint_lines_spec(dir: Seq<char>, shell: Seq<char>, macos: bool) -> Seq<Seq<char>> {
    let rc = shell_advice_spec(shell, macos).0;
    let rehash = shell_advice_spec(shell, macos).1;
    seq![
        ""@,
        "pkg: "@ + dir + " is not on your PATH, so `pkg` only works by full path."@,
        "     Fix it with:\n"@,
    ] + (if ends_with(rc, "config.fish"@) {
        seq!["         fish_add_path "@ + dir]
    } else {
        seq!["         echo 'export PATH=\""@ + dir + ":$PATH\"' >> "@ + rc, "         source "@ + rc]
    }) + (match rehash {
        Some(cmd) => seq!["         "@ + cmd],
        None => Seq::empty(),
    }) + seq![""@]
}

/// The text `a` followed by `b`.
fn concat2(a: &str, b: &str) -> (r: String)
    ensures
        r@ == a@ + b@,
{
    let mut s = a.to_owned();
    s.append(b);
    s
}

/// The text `a`, `b`, `c` in a row.
fn concat3(a: &str, b: &str, c: &str) -> (r: String)
    ensures
        r@ == a@ + b@ + c@,
{
    let mut s = a.to_owned();
    s.append(b);
    s.append(c);
    s
}

/// The lines, each printed on its own, that tell how to put directory `dir`
/// on PATH for `shell`.
pub fn hint_lines(dir: &str, shell: &str, macos: bool) -> (r: Vec<String>)
    ensures
        r@.map_values(|x: String| x@) == hint_lines_spec(dir@, shell@, macos),
{
    let (rc, rehash) = shell_advice(shell, macos);
    let mut lines: Vec<String> = Vec::new();
    lines.push("".to_owned());
    lines.push(concat3("pkg: ", dir, " is not on your PATH, so `pkg` only works by full path."));
    lines.push("     Fix it with:\n".to_owned());
    if text_ends_with(rc, "config.fish") {
        lines.push(concat2("         fish_add_path ", dir));
    } else {
        let mut echo = concat3("         echo 'export PATH=\"", dir, ":$PATH\"' >> ");
        echo.append(rc);
        lines.push(echo);
        lines.push(concat2("         source ", rc));
    }
    match rehash {
        Some(cmd) => lines.push(concat2("         ", cmd)),
        None => {},
    }
    lines.push("".to_owned());
    assert(lines@.map_values(|x: String| x@) =~= hint_lines_spec(dir@, shell@, macos));
    lines
}

} // verus!
