//! The command generator: joining the final entries into one path-list
//! string and emitting the one-line shell statement that re-applies it,
//! plus the inverse split used to read the initial list.

use vstd::prelude::*;
use vstd::string::StrSliceExecFns;
use vstd::string::StringExecFns;

use crate::text::chars_to_string;

verus! {

/// The platform's path-list separator.
pub const PATH_SEPARATOR: char = ':';

/// The shell variant the output statement is written for; anything that is
/// not fish-like gets the portable form.
#[derive(Clone, Copy, PartialEq, Eq, Structural, Debug)]
pub enum Shell {
    Posix,
    Fish,
}

/// The list cannot be joined losslessly: the entry at `index` contains the
/// separator character itself.
#[derive(Clone, Copy, PartialEq, Eq, Structural, Debug)]
pub struct JoinError {
    pub index: usize,
}

/// Whether an entry is free of the separator, so a join keeps it intact.
pub open spec fn sep_free(e: Seq<char>, sep: char) -> bool {
    forall|i: int| 0 <= i < e.len() ==> e[i] != sep
}

/// The entries joined into one string with `sep` between each two.
pub open spec fn joined_with(es: Seq<Seq<char>>, sep: char) -> Seq<char>
    decreases es.len(),
{
    if es.len() == 0 {
        Seq::empty()
    } else if es.len() == 1 {
        es[0]
    } else {
        joined_with(es.drop_last(), sep) + seq![sep] + es.last()
    }
}

/// The one output line for a final list: the portable form quotes the
/// separator-joined list, the fish-like form lists the entries unquoted,
/// separated by spaces.
pub open spec fn command_line(shell: Shell, entries: Seq<Seq<char>>) -> Seq<char> {
    match shell {
        Shell::Posix => "export PATH=\""@ + joined_with(entries, PATH_SEPARATOR) + "\""@,
        Shell::Fish => "set -x PATH "@ + joined_with(entries, ' '),
    }
}

/// Whether the string holds the character `sep` anywhere.
fn contains_char(s: &String, sep: char) -> (r: bool)
    ensures
        r == !sep_free(s@, sep),
{
    let n = s.as_str().unicode_len();
    let mut i: usize = 0;
    while i < n
        invariant
            i <= n,
            n == s@.len(),
            forall|j: int| 0 <= j < i ==> s@[j] != sep,
        decreases n - i,
    {
        if s.as_str().get_char(i) == sep {
            return true;
        }
        i += 1;
    }
    false
}

/// Join the entries with `sep`; `sep_str` must be the one-character string
/// of `sep`.
fn join_with(paths: &Vec<String>, sep: char, sep_str: &str) -> (r: String)
    requires
        sep_str@ == seq![sep],
    ensures
        r@ == joined_with(paths.deep_view(), sep),
{
    let mut out = String::new();
    let n = paths.len();
    let mut i: usize = 0;
    while i < n
        invariant
            i <= n,
            n == paths@.len(),
            sep_str@ == seq![sep],
            out@ == joined_with(paths.deep_view().take(i as int), sep),
        decreases n - i,
    {
        if i > 0 {
            out.append(sep_str);
        }
        out.append(paths[i].as_str());
        proof {
            let dv = paths.deep_view();
            assert(dv.take(i + 1 as int).drop_last() =~= dv.take(i as int));
            assert(dv.take(i + 1 as int).last() == dv[i as int]);
            if i == 0 {
                assert(out@ =~= joined_with(dv.take(i + 1 as int), sep));
            } else {
                assert(out@ =~= joined_with(dv.take(i as int), sep) + seq![sep] + dv[i as int]);
            }
        }
        i += 1;
    }
    proof {
        assert(paths.deep_view().take(n as int) =~= paths.deep_view());
    }
    out
}

/// Join the entries with the platform separator. An entry containing the
/// separator cannot be represented losslessly; the first such index comes
/// back as a `JoinError` and nothing is joined.
pub fn join_paths(paths: &Vec<String>) -> (r: Result<String, JoinError>)
    ensures
        match r {
            Ok(s) => s@ == joined_with(paths.deep_view(), PATH_SEPARATOR) && forall|i: int|
                0 <= i < paths.deep_view().len() ==> sep_free(
                    #[trigger] paths.deep_view()[i],
                    PATH_SEPARATOR,
                ),
            Err(e) => e.index < paths.deep_view().len() && !sep_free(
                paths.deep_view()[e.index as int],
                PATH_SEPARATOR,
            ) && forall|i: int| 0 <= i < e.index ==> sep_free(
                #[trigger] paths.deep_view()[i],
                PATH_SEPARATOR,
            ),
        },
{
    let n = paths.len();
    let mut i: usize = 0;
    while i < n
        invariant
            i <= n,
            n == paths@.len(),
            forall|j: int| 0 <= j < i ==> sep_free(#[trigger] paths.deep_view()[j], PATH_SEPARATOR),
        decreases n - i,
    {
        if contains_char(&paths[i], PATH_SEPARATOR) {
            return Err(JoinError { index: i });
        }
        i += 1;
    }
    proof {
        reveal_strlit(":");
        assert(":"@ =~= seq![PATH_SEPARATOR]);
    }
    Ok(join_with(paths, PATH_SEPARATOR, ":"))
}

/// The one-line statement that re-applies the final list as the search
/// path, in the syntax of the given shell variant.
pub fn generate_shell_command(paths: &Vec<String>, shell: Shell) -> (r: Result<String, JoinError>)
    ensures
        match r {
            Ok(cmd) => cmd@ == command_line(shell, paths.deep_view()) && forall|i: int|
                0 <= i < paths.deep_view().len() ==> sep_free(
                    #[trigger] paths.deep_view()[i],
                    PATH_SEPARATOR,
                ),
            Err(e) => e.index < paths.deep_view().len() && !sep_free(
                paths.deep_view()[e.index as int],
                PATH_SEPARATOR,
            ) && forall|i: int| 0 <= i < e.index ==> sep_free(
                #[trigger] paths.deep_view()[i],
                PATH_SEPARATOR,
            ),
        },
{
    let joined = match join_paths(paths) {
        Ok(s) => s,
        Err(e) => {
            return Err(e);
        },
    };
    match shell {
        Shell::Posix => {
            let mut out = "export PATH=\"".to_owned();
            out.append(joined.as_str());
            out.append("\"");
            Ok(out)
        },
        Shell::Fish => {
            proof {
                reveal_strlit(" ");
                assert(" "@ =~= seq![' ']);
            }
            let spaced = join_with(paths, ' ', " ");
            let mut out = "set -x PATH ".to_owned();
            out.append(spaced.as_str());
            Ok(out)
        },
    }
}

/// Whether the string holds a path separator ('/') anywhere.
pub open spec fn has_slash(s: Seq<char>) -> bool {
    exists|i: int| 0 <= i < s.len() && s[i] == '/'
}

/// The suffix after the last '/' of a path string, or the whole string
/// when it has none: the file name the shell path points at.
pub open spec fn basename(s: Seq<char>) -> Seq<char>
    decreases s.len(),
{
    if !has_slash(s) {
        s
    } else {
        basename(s.drop_first())
    }
}

proof fn lemma_basename_after_last_slash(s: Seq<char>, k: int)
    requires
        0 <= k <= s.len(),
        k == 0 || s[k - 1] == '/',
        forall|j: int| k <= j < s.len() ==> s[j] != '/',
    ensures
        basename(s) == s.skip(k),
    decreases k,
{
    if k == 0 {
        assert(!has_slash(s));
        assert(basename(s) =~= s.skip(0));
    } else {
        assert(has_slash(s));
        let t = s.drop_first();
        assert(forall|j: int| k - 1 <= j < t.len() ==> t[j] != '/');
        lemma_basename_after_last_slash(t, k - 1);
        assert(t.skip(k - 1) =~= s.skip(k));
    }
}

/// Classify the shell named by a search-path-style value (the contents of
/// the shell-selection variable): fish-like exactly when the file name
/// after the last '/' reads "fish", everything else portable.
pub fn detect_shell(shell_path: &str) -> (r: Shell)
    ensures
        r == (if basename(shell_path@) == "fish"@ {
            Shell::Fish
        } else {
            Shell::Posix
        }),
{
    let n = shell_path.unicode_len();
    let mut start: usize = 0;
    let mut i: usize = 0;
    while i < n
        invariant
            i <= n,
            start <= i,
            n == shell_path@.len(),
            start == 0 || shell_path@[start - 1] == '/',
            forall|j: int| start <= j < i ==> shell_path@[j] != '/',
        decreases n - i,
    {
        if shell_path.get_char(i) == '/' {
            start = i + 1;
        }
        i += 1;
    }
    proof {
        lemma_basename_after_last_slash(shell_path@, start as int);
        reveal_strlit("fish");
    }
    if n - start == 4 && shell_path.get_char(start) == 'f' && shell_path.get_char(start + 1) == 'i'
        && shell_path.get_char(start + 2) == 's' && shell_path.get_char(start + 3) == 'h' {
        proof {
            assert(shell_path@.skip(start as int) =~= "fish"@);
        }
        Shell::Fish
    } else {
        proof {
            if basename(shell_path@) == "fish"@ {
                let u = shell_path@.skip(start as int);
                assert(u == "fish"@);
                assert(u.len() == 4 && n - start == 4);
                assert(u[0] == 'f' && u[1] == 'i' && u[2] == 's' && u[3] == 'h');
                assert(shell_path@[start as int] == 'f');
                assert(shell_path@[start + 1 as int] == 'i');
                assert(shell_path@[start + 2 as int] == 's');
                assert(shell_path@[start + 3 as int] == 'h');
                assert(false);
            }
        }
        Shell::Posix
    }
}

proof fn lemma_joined_grow_segment(prefix: Seq<Seq<char>>, cur: Seq<char>, c: char, sep: char)
    ensures
        joined_with(prefix.push(cur.push(c)), sep) == joined_with(prefix.push(cur), sep).push(c),
{
    let a = prefix.push(cur.push(c));
    let b = prefix.push(cur);
    if prefix.len() == 0 {
        assert(a.len() == 1 && b.len() == 1);
        assert(a[0] == cur.push(c) && b[0] == cur);
    } else {
        assert(a.drop_last() =~= prefix);
        assert(b.drop_last() =~= prefix);
        assert(a.last() == cur.push(c) && b.last() == cur);
        assert(joined_with(prefix, sep) + seq![sep] + cur.push(c) =~= (joined_with(prefix, sep)
            + seq![sep] + cur).push(c));
    }
}

proof fn lemma_joined_new_segment(es: Seq<Seq<char>>, sep: char)
    requires
        es.len() > 0,
    ensures
        joined_with(es.push(Seq::empty()), sep) == joined_with(es, sep).push(sep),
{
    let a = es.push(Seq::empty());
    assert(a.drop_last() =~= es);
    assert(a.last() =~= Seq::<char>::empty());
    assert(joined_with(es, sep) + seq![sep] + Seq::<char>::empty() =~= joined_with(
        es,
        sep,
    ).push(sep));
}

/// Split a path-list string on the platform separator: the entries whose
/// join gives the string back. An empty string holds no entries.
pub fn split_path_list(s: &str) -> (r: Vec<String>)
    ensures
        joined_with(r.deep_view(), PATH_SEPARATOR) == s@,
        forall|i: int| 0 <= i < r.deep_view().len() ==> sep_free(
            #[trigger] r.deep_view()[i],
            PATH_SEPARATOR,
        ),
        s@.len() == 0 ==> r@.len() == 0,
        r@.len() == 0 ==> s@.len() == 0,
{
    let n = s.unicode_len();
    if n == 0 {
        let r: Vec<String> = Vec::new();
        proof {
            assert(r.deep_view() =~= Seq::<Seq<char>>::empty());
            assert(joined_with(r.deep_view(), PATH_SEPARATOR) =~= s@);
        }
        return r;
    }
    let mut done: Vec<String> = Vec::new();
    let mut cur: Vec<char> = Vec::new();
    let mut i: usize = 0;
    while i < n
        invariant
            i <= n,
            n == s@.len(),
            joined_with(done.deep_view().push(cur@), PATH_SEPARATOR) == s@.take(i as int),
            forall|j: int| 0 <= j < done.deep_view().len() ==> sep_free(
                #[trigger] done.deep_view()[j],
                PATH_SEPARATOR,
            ),
            sep_free(cur@, PATH_SEPARATOR),
        decreases n - i,
    {
        let c = s.get_char(i);
        proof {
            assert(s@.take(i + 1 as int) =~= s@.take(i as int).push(s@[i as int]));
        }
        if c == PATH_SEPARATOR {
            let ghost dv0 = done.deep_view();
            let ghost cur0 = cur@;
            proof {
                lemma_joined_new_segment(dv0.push(cur0), PATH_SEPARATOR);
            }
            let seg = chars_to_string(&cur);
            done.push(seg);
            cur = Vec::new();
            proof {
                assert(done.deep_view() =~= dv0.push(cur0));
                assert(done.deep_view().push(cur@) =~= dv0.push(cur0).push(Seq::empty()));
            }
        } else {
            proof {
                lemma_joined_grow_segment(done.deep_view(), cur@, c, PATH_SEPARATOR);
            }
            cur.push(c);
        }
        i += 1;
    }
    proof {
        assert(s@.take(n as int) =~= s@);
    }
    let ghost dv_last = done.deep_view();
    let ghost cur_last = cur@;
    let seg = chars_to_string(&cur);
    done.push(seg);
    proof {
        assert(done.deep_view() =~= dv_last.push(cur_last));
        assert forall|j: int| 0 <= j < done.deep_view().len() implies sep_free(
            #[trigger] done.deep_view()[j],
            PATH_SEPARATOR,
        ) by {
            if j < dv_last.len() {
                assert(done.deep_view()[j] == dv_last[j]);
            } else {
                assert(done.deep_view()[j] == cur_last);
            }
        }
    }
    done
}

} // verus!
