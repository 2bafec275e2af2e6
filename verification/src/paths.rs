//! Path strings: where the config and session files live, and the short forms
//! of a working directory shown in the sidebar.
//!
//! The environment (`$HOME`, `$XDG_CONFIG_HOME`, ...) is read by the caller and
//! handed in as plain values.

use vstd::prelude::*;
use vstd::string::*;
use crate::instance::{session_file_name, suffix_of};
use crate::text::{str_eq, starts_with};

verus! {

/// `s` without its trailing `/` characters.
pub open spec fn strip_trailing_slashes(s: Seq<char>) -> Seq<char>
    decreases s.len(),
{
    if s.len() > 0 && s.last() == '/' {
        strip_trailing_slashes(s.drop_last())
    } else {
        s
    }
}

/// Index of the last `/` of `s`, if any.
pub open spec fn last_slash(s: Seq<char>) -> Option<int>
    decreases s.len(),
{
    if s.len() == 0 {
        None
    } else if s.last() == '/' {
        Some(s.len() - 1)
    } else {
        last_slash(s.drop_last())
    }
}

/// The part of `s` after its last `/` (all of `s` when it has none).
pub open spec fn after_last_slash(s: Seq<char>) -> Seq<char> {
    match last_slash(s) {
        Some(i) => s.skip(i + 1),
        None => s,
    }
}

/// Last path component, for the sidebar title: trailing slashes are ignored,
/// an empty path gives the empty string and a bare root gives `/`.
pub open spec fn basename_spec(path: Seq<char>) -> Seq<char> {
    let trimmed = strip_trailing_slashes(path);
    if trimmed.len() == 0 {
        if path.len() == 0 {
            Seq::empty()
        } else {
            seq!['/']
        }
    } else {
        after_last_slash(trimmed)
    }
}

/// Parent directory of a path, for the sidebar subtitle: everything before
/// the last `/`, `/` when that slash is the first character, and the path
/// itself when it has no slash.
pub open spec fn parent_spec(path: Seq<char>) -> Seq<char> {
    match last_slash(path) {
        Some(i) => if i == 0 {
            seq!['/']
        } else {
            path.take(i)
        },
        None => path,
    }
}

/// `path` with the home directory written as `~`: the home directory itself
/// becomes `~`, a path below it `~/rest`, anything else is unchanged.
pub open spec fn shorten_spec(path: Seq<char>, home: Option<Seq<char>>) -> Seq<char> {
    if path.len() == 0 {
        Seq::empty()
    } else {
        match home {
            Some(h) => if path == h {
                seq!['~']
            } else if h.len() + 1 <= path.len() && path.take(h.len() as int + 1) == h.push('/') {
                seq!['~', '/'] + path.skip(h.len() as int + 1)
            } else {
                path
            },
            None => path,
        }
    }
}

/// `base` joined with a relative component, as `PathBuf::join` does: a `/`
/// goes between them unless `base` is empty or already ends with one.
pub open spec fn join_spec(base: Seq<char>, component: Seq<char>) -> Seq<char> {
    if base.len() > 0 && base.last() != '/' {
        base + seq!['/'] + component
    } else {
        base + component
    }
}

proof fn lemma_strip_is(s: Seq<char>, n: int)
    requires
        0 <= n <= s.len(),
        n > 0 ==> s[n - 1] != '/',
        forall|i: int| n <= i < s.len() ==> #[trigger] s[i] == '/',
    ensures
        strip_trailing_slashes(s) == s.take(n),
    decreases s.len(),
{
    if s.len() > n {
        assert(s.last() == '/');
        let t = s.drop_last();
        assert forall|i: int| n <= i < t.len() implies #[trigger] t[i] == '/' by {
            assert(t[i] == s[i]);
        }
        if n > 0 {
            assert(t[n - 1] == s[n - 1]);
        }
        lemma_strip_is(t, n);
        assert(t.take(n) =~= s.take(n));
    } else {
        assert(s.take(n) =~= s);
        if n > 0 {
            assert(s.last() == s[n - 1]);
        }
    }
}

proof fn lemma_last_slash_is(s: Seq<char>, k: int)
    requires
        -1 <= k < s.len(),
        k >= 0 ==> s[k] == '/',
        forall|i: int| k < i < s.len() ==> #[trigger] s[i] != '/',
    ensures
        last_slash(s) == (if k >= 0 {
            Some(k)
        } else {
            None::<int>
        }),
    decreases s.len(),
{
    if s.len() > 0 {
        if s.last() == '/' {
            assert(k == s.len() - 1);
        } else {
            let t = s.drop_last();
            assert forall|i: int| k < i < t.len() implies #[trigger] t[i] != '/' by {
                assert(t[i] == s[i]);
            }
            if k >= 0 {
                assert(t[k] == s[k]);
            }
            lemma_last_slash_is(t, k);
        }
    }
}

/// Index of the last `/` of `s`, scanning from the end.
fn find_last_slash(s: &str) -> (r: Option<usize>)
    ensures
        match r {
            Some(i) => last_slash(s@) == Some(i as int) && i < s@.len(),
            None => last_slash(s@) is None,
        },
{
    let n = s.unicode_len();
    let mut i: usize = n;
    while i > 0
        invariant
            i <= n,
            n == s@.len(),
            forall|j: int| i <= j < n ==> #[trigger] s@[j] != '/',
        decreases i,
    {
        if s.get_char(i - 1) == '/' {
            proof {
                lemma_last_slash_is(s@, i - 1);
            }
            return Some(i - 1);
        }
        i = i - 1;
    }
    proof {
        lemma_last_slash_is(s@, -1);
    }
    None
}

/// Last path component, for the sidebar title (`/home/lee/Desktop/cmux` gives
/// `cmux`). Empty input yields the empty string, a bare root yields `/`.
pub fn path_basename(path: &str) -> (r: String)
    ensures
        r@ == basename_spec(path@),
{
    proof {
        reveal_strlit("/");
    }
    let n = path.unicode_len();
    let mut end: usize = n;
    while end > 0 && path.get_char(end - 1) == '/'
        invariant
            end <= n,
            n == path@.len(),
            forall|j: int| end <= j < n ==> #[trigger] path@[j] == '/',
        decreases end,
    {
        end = end - 1;
    }
    proof {
        lemma_strip_is(path@, end as int);
    }
    if end == 0 {
        if n == 0 {
            return String::new();
        } else {
            let r = String::from_str("/");
            return r;
        }
    }
    let trimmed = path.substring_char(0, end);
    assert(trimmed@ =~= strip_trailing_slashes(path@));
    match find_last_slash(trimmed) {
        Some(i) => {
            let r = trimmed.substring_char(i + 1, end);
            assert(r@ =~= after_last_slash(trimmed@));
            String::from_str(r)
        },
        None => String::from_str(trimmed),
    }
}

/// Parent directory of a (possibly shortened) path, for the sidebar subtitle:
/// `~/Desktop/cmux` gives `~/Desktop`, `/foo` gives `/`, `~` or `cmux` give
/// themselves, empty gives empty.
pub fn path_parent(path: &str) -> (r: String)
    ensures
        r@ == parent_spec(path@),
{
    proof {
        reveal_strlit("/");
    }
    match find_last_slash(path) {
        Some(i) => if i == 0 {
            String::from_str("/")
        } else {
            let r = path.substring_char(0, i);
            assert(r@ =~= path@.take(i as int));
            String::from_str(r)
        },
        None => String::from_str(path),
    }
}

/// Shortens an absolute path for the sidebar subtitle: the home directory
/// (`home`, the value of `$HOME` when set) becomes `~`. Returns the input
/// unchanged when it is not under the home directory; empty stays empty.
pub fn shorten_path(path: &str, home: Option<&str>) -> (r: String)
    ensures
        r@ == shorten_spec(
            path@,
            match home {
                Some(h) => Some(h@),
                None => None,
            },
        ),
{
    proof {
        reveal_strlit("~");
        reveal_strlit("~/");
        reveal_strlit("/");
    }
    if path.unicode_len() == 0 {
        return String::new();
    }
    match home {
        Some(h) => {
            if str_eq(path, h) {
                return String::from_str("~");
            }
            let mut prefix = String::from_str(h);
            prefix.append("/");
            if starts_with(path, prefix.as_str()) {
                let n = path.unicode_len();
                let m = prefix.as_str().unicode_len();
                let rest = path.substring_char(m, n);
                let mut r = String::from_str("~/");
                r.append(rest);
                assert(prefix@ =~= h@.push('/'));
                assert(rest@ =~= path@.skip(h@.len() as int + 1));
                return r;
            }
            assert(prefix@ =~= h@.push('/'));
            String::from_str(path)
        },
        None => String::from_str(path),
    }
}

/// `base` joined with the relative component `component`, as `PathBuf::join` does.
pub fn path_join(base: &str, component: &str) -> (r: String)
    ensures
        r@ == join_spec(base@, component@),
{
    proof {
        reveal_strlit("/");
    }
    let n = base.unicode_len();
    let mut r = String::from_str(base);
    if n > 0 && base.get_char(n - 1) != '/' {
        r.append("/");
    }
    r.append(component);
    r
}

/// The directory holding a per-user file: `$XDG_…_HOME` when set, otherwise
/// `$HOME` (or `.` when unset) followed by the fallback below it.
pub open spec fn base_dir_spec(
    xdg: Option<Seq<char>>,
    home: Option<Seq<char>>,
    fallback: Seq<char>,
) -> Seq<char> {
    match xdg {
        Some(x) => x,
        None => match home {
            Some(h) => h + fallback,
            None => seq!['.'] + fallback,
        },
    }
}

fn base_dir(xdg: Option<&str>, home: Option<&str>, fallback: &str) -> (r: String)
    ensures
        r@ == base_dir_spec(
            match xdg {
                Some(x) => Some(x@),
                None => None,
            },
            match home {
                Some(h) => Some(h@),
                None => None,
            },
            fallback@,
        ),
{
    proof {
        reveal_strlit(".");
    }
    match xdg {
        Some(x) => String::from_str(x),
        None => {
            let mut r = match home {
                Some(h) => String::from_str(h),
                None => String::from_str("."),
            };
            r.append(fallback);
            r
        },
    }
}

/// The config file path: `$XDG_CONFIG_HOME/cmux/config.toml`, falling back to
/// `~/.config/cmux/config.toml` (`xdg_config_home` and `home` are the values
/// of those variables, `None` when unset).
pub fn config_path(xdg_config_home: Option<&str>, home: Option<&str>) -> (r: String)
    ensures
        r@ == join_spec(
            join_spec(
                base_dir_spec(
                    match xdg_config_home {
                        Some(x) => Some(x@),
                        None => None,
                    },
                    match home {
                        Some(h) => Some(h@),
                        None => None,
                    },
                    "/.config"@,
                ),
                "cmux"@,
            ),
            "config.toml"@,
        ),
{
    let base = base_dir(xdg_config_home, home, "/.config");
    let dir = path_join(base.as_str(), "cmux");
    path_join(dir.as_str(), "config.toml")
}

/// The session file path of instance slot `slot`:
/// `$XDG_DATA_HOME/cmux/session<suffix>.json`, falling back to
/// `~/.local/share/cmux/session<suffix>.json`.
pub fn session_path(xdg_data_home: Option<&str>, home: Option<&str>, slot: u32) -> (r: String)
    ensures
        r@ == join_spec(
            join_spec(
                base_dir_spec(
                    match xdg_data_home {
                        Some(x) => Some(x@),
                        None => None,
                    },
                    match home {
                        Some(h) => Some(h@),
                        None => None,
                    },
                    "/.local/share"@,
                ),
                "cmux"@,
            ),
            seq!['s', 'e', 's', 's', 'i', 'o', 'n'] + suffix_of(slot) + seq!['.', 'j', 's', 'o', 'n'],
        ),
{
    let base = base_dir(xdg_data_home, home, "/.local/share");
    let dir = path_join(base.as_str(), "cmux");
    let name = session_file_name(slot);
    path_join(dir.as_str(), name.as_str())
}

} // verus!
