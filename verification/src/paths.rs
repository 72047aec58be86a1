//! Path composition, the XDG Base Directory chain, and the syntactic
//! checks on values that come from the environment.

use vstd::prelude::*;
use crate::text::{chars_of, str_starts_with};

verus! {

/// Appending a component to a path, as `PathBuf::push` does on Unix: an
/// absolute component replaces the path, and a separator is inserted
/// unless the path is empty or already ends in one.
pub open spec fn path_join(base: Seq<char>, comp: Seq<char>) -> Seq<char> {
    if comp.len() > 0 && comp[0] == '/' {
        comp
    } else if base.len() == 0 || base.last() == '/' {
        base + comp
    } else {
        base + seq!['/'] + comp
    }
}

/// Joins `comp` onto `base` (see [`path_join`]).
pub fn join_path(base: &str, comp: &str) -> (r: String)
    ensures
        r@ == path_join(base@, comp@),
{
    proof { reveal_strlit("/"); }
    assert("/"@ =~= seq!['/']);
    if str_starts_with(comp, "/") {
        assert(comp@.subrange(0, 1)[0] == comp@[0]);
        assert(comp@.len() > 0 && comp@[0] == '/');
        return String::from_str(comp);
    }
    assert(!(comp@.len() > 0 && comp@[0] == '/')) by {
        if comp@.len() > 0 && comp@[0] == '/' {
            assert(comp@.subrange(0, 1) =~= "/"@);
        }
    }
    let n = base.unicode_len();
    if n == 0 || base.get_char(n - 1) == '/' {
        String::from_str(base).concat(comp)
    } else {
        assert("/"@ =~= seq!['/']);
        String::from_str(base).concat("/").concat(comp)
    }
}

/// Splitting on a separator character, as `str::split` with a `char`
/// pattern does: `n` separators give `n + 1` (possibly empty) pieces.
pub open spec fn split_on(s: Seq<char>, sep: char) -> Seq<Seq<char>>
    decreases s.len(),
{
    if s.len() == 0 {
        seq![Seq::<char>::empty()]
    } else {
        let rest = split_on(s.drop_last(), sep);
        if s.last() == sep {
            rest.push(Seq::<char>::empty())
        } else {
            rest.update(rest.len() - 1, rest.last().push(s.last()))
        }
    }
}

proof fn lemma_split_nonempty(s: Seq<char>, sep: char)
    ensures
        split_on(s, sep).len() >= 1,
    decreases s.len(),
{
    if s.len() > 0 {
        lemma_split_nonempty(s.drop_last(), sep);
    }
}

/// Splits `s` at every `sep`.
pub fn split_string(s: &str, sep: char) -> (parts: Vec<String>)
    ensures
        parts.deep_view() == split_on(s@, sep),
{
    let cs = chars_of(s);
    let n = cs.len();
    let mut parts: Vec<String> = Vec::new();
    let mut start: usize = 0;
    let mut i: usize = 0;
    assert(parts.deep_view() =~= Seq::<Seq<char>>::empty());
    assert(s@.take(0) =~= Seq::<char>::empty());
    assert(s@.subrange(0, 0) =~= Seq::<char>::empty());
    while i < n
        invariant
            n == cs@.len(),
            cs@ == s@,
            start <= i <= n,
            split_on(s@.take(i as int), sep) =~= parts.deep_view().push(s@.subrange(start as int, i as int)),
        decreases n - i,
    {
        let ghost prev = s@.take(i as int);
        assert(s@.take(i as int + 1).drop_last() =~= prev);
        assert(s@.take(i as int + 1).last() == s@[i as int]);
        proof { lemma_split_nonempty(prev, sep); }
        if cs[i] == sep {
            let piece = String::from_str(s.substring_char(start, i));
            parts.push(piece);
            start = i + 1;
            i = i + 1;
            assert(s@.subrange(start as int, i as int) =~= Seq::<char>::empty());
        } else {
            i = i + 1;
            assert(s@.subrange(start as int, i as int) =~= s@.subrange(start as int, i as int - 1).push(s@[i as int - 1]));
        }
    }
    assert(s@.take(n as int) =~= s@);
    let last = String::from_str(s.substring_char(start, n));
    parts.push(last);
    parts
}

/// The system-wide part of the XDG chain. `segs` lists the entries of
/// `$XDG_CONFIG_DIRS` highest priority first; the result lists them lowest
/// priority first, empty entries dropped, each joined with `app`.
pub open spec fn xdg_system_dirs(segs: Seq<Seq<char>>, app: Seq<char>) -> Seq<Seq<char>>
    decreases segs.len(),
{
    if segs.len() == 0 {
        Seq::empty()
    } else {
        let here = if segs.last().len() > 0 {
            seq![path_join(segs.last(), app)]
        } else {
            Seq::empty()
        };
        here + xdg_system_dirs(segs.drop_last(), app)
    }
}

/// The full XDG chain of configuration directories for `app`, lowest
/// priority first: every entry of `$XDG_CONFIG_DIRS` (default `/etc/xdg`),
/// then the user config home, then the explicit override directory.
pub open spec fn xdg_chain(
    app: Seq<char>,
    xdg_config_dirs: Option<Seq<char>>,
    config_home: Option<Seq<char>>,
    explicit_dir: Option<Seq<char>>,
) -> Seq<Seq<char>> {
    let list = match xdg_config_dirs {
        Some(v) => v,
        None => "/etc/xdg"@,
    };
    let system = xdg_system_dirs(split_on(list, ':'), app);
    let with_home = match config_home {
        Some(h) => system.push(path_join(h, app)),
        None => system,
    };
    match explicit_dir {
        Some(d) => with_home.push(d),
        None => with_home,
    }
}

/// Builds the XDG directory chain (see [`xdg_chain`]).
pub fn xdg_config_chain(
    app_name: &str,
    xdg_config_dirs: Option<String>,
    config_home: Option<String>,
    explicit_dir: Option<String>,
) -> (dirs: Vec<String>)
    ensures
        dirs.deep_view() == xdg_chain(
            app_name@,
            xdg_config_dirs.deep_view(),
            config_home.deep_view(),
            explicit_dir.deep_view(),
        ),
{
    let list = match xdg_config_dirs {
        Some(v) => v,
        None => String::from_str("/etc/xdg"),
    };
    let segs = split_string(list.as_str(), ':');
    let ghost segv = segs.deep_view();
    let mut dirs: Vec<String> = Vec::new();
    let mut k: usize = segs.len();
    assert(dirs.deep_view() =~= Seq::<Seq<char>>::empty());
    assert(segv.take(k as int) =~= segv);
    while k > 0
        invariant
            k <= segs@.len(),
            segv == segs.deep_view(),
            xdg_system_dirs(segv, app_name@) =~= dirs.deep_view()
                + xdg_system_dirs(segv.take(k as int), app_name@),
        decreases k,
    {
        let ghost tk = segv.take(k as int);
        assert(tk.drop_last() =~= segv.take(k as int - 1));
        assert(tk.last() == segv[k as int - 1]);
        let seg = &segs[k - 1];
        if seg.as_str().unicode_len() > 0 {
            let d = join_path(seg.as_str(), app_name);
            dirs.push(d);
        }
        k = k - 1;
    }
    assert(segv.take(0) =~= Seq::<Seq<char>>::empty());
    if let Some(h) = config_home {
        let d = join_path(h.as_str(), app_name);
        dirs.push(d);
    }
    if let Some(d) = explicit_dir {
        dirs.push(d);
    }
    dirs
}

/// Calls `dirs::config_dir()` (on Linux `$XDG_CONFIG_HOME`, else
/// `$HOME/.config`) and renders the path as text. The result depends on the
/// process environment, so nothing is stated of it.
#[verifier::external_body]
pub fn user_config_dir() -> (r: Option<String>) {
    dirs::config_dir().map(|p| p.to_string_lossy().into_owned())
}

/// An ASCII decimal digit.
pub open spec fn is_ascii_digit(c: char) -> bool {
    '0' <= c && c <= '9'
}

/// The value of a string of ASCII digits, most significant first.
pub open spec fn digits_value(d: Seq<char>) -> nat
    decreases d.len(),
{
    if d.len() == 0 {
        0
    } else {
        digits_value(d.drop_last()) * 10 + ((d.last() as nat) - ('0' as nat)) as nat
    }
}

/// The digits of an unsigned number: one leading `+` is allowed.
pub open spec fn unsigned_digits(s: Seq<char>) -> Seq<char> {
    if s.len() > 0 && s[0] == '+' {
        s.drop_first()
    } else {
        s
    }
}

/// What `<u64 as FromStr>::from_str` accepts: an optional `+`, then at
/// least one ASCII digit and nothing else, with a value that fits in `u64`.
pub open spec fn parse_u64(s: Seq<char>) -> Option<u64> {
    let d = unsigned_digits(s);
    if d.len() > 0 && (forall|i: int| 0 <= i < d.len() ==> is_ascii_digit(#[trigger] d[i]))
        && digits_value(d) <= u64::MAX {
        Some(digits_value(d) as u64)
    } else {
        None
    }
}

proof fn lemma_digits_prefix_le(d: Seq<char>, j: int)
    requires
        0 <= j <= d.len(),
        forall|i: int| 0 <= i < d.len() ==> is_ascii_digit(#[trigger] d[i]),
    ensures
        digits_value(d.take(j)) <= digits_value(d),
    decreases d.len(),
{
    if j < d.len() {
        let p = d.drop_last();
        assert(p.take(j) =~= d.take(j));
        assert forall|i: int| 0 <= i < p.len() implies is_ascii_digit(#[trigger] p[i]) by {
            assert(p[i] == d[i]);
        }
        lemma_digits_prefix_le(p, j);
        assert(is_ascii_digit(d[d.len() - 1]));
    } else {
        assert(d.take(j) =~= d);
    }
}

/// Parses an unsigned decimal integer the way `u64::from_str` does.
pub fn parse_u64_str(s: &str) -> (r: Option<u64>)
    ensures
        r == parse_u64(s@),
{
    let cs = chars_of(s);
    let n = cs.len();
    let mut i: usize = 0;
    if n > 0 && cs[0] == '+' {
        i = 1;
    }
    let ghost d = unsigned_digits(s@);
    assert(d =~= s@.skip(i as int));
    if i == n {
        return None;
    }
    let mut acc: u64 = 0;
    let start = i;
    while i < n
        invariant
            n == cs@.len(),
            cs@ == s@,
            d == s@.skip(start as int),
            d == unsigned_digits(s@),
            start <= i <= n,
            start < n,
            forall|k: int| 0 <= k < i - start ==> is_ascii_digit(#[trigger] d[k]),
            acc as nat == digits_value(d.take(i - start)),
        decreases n - i,
    {
        let c = cs[i];
        assert(d[i - start] == s@[i as int]);
        assert(c == d[i - start]);
        if !('0' <= c && c <= '9') {
            assert(!is_ascii_digit(d[i - start]));
            return None;
        }
        let dv: u64 = ((c as u32) - ('0' as u32)) as u64;
        let ghost pre = d.take(i - start);
        let ghost nxt = d.take(i - start + 1);
        assert(nxt.drop_last() =~= pre);
        assert(nxt.last() == c);
        assert(digits_value(nxt) == digits_value(pre) * 10 + ((c as nat) - ('0' as nat)) as nat);
        match acc.checked_mul(10) {
            None => {
                proof {
                    assert forall|k: int| 0 <= k < nxt.len() implies is_ascii_digit(#[trigger] nxt[k]) by {
                        assert(nxt[k] == d[k]);
                    }
                    if forall|k: int| 0 <= k < d.len() ==> is_ascii_digit(#[trigger] d[k]) {
                        lemma_digits_prefix_le(d, i - start + 1);
                    }
                }
                return None;
            },
            Some(m) => {
                match m.checked_add(dv) {
                    None => {
                        proof {
                            if forall|k: int| 0 <= k < d.len() ==> is_ascii_digit(#[trigger] d[k]) {
                                lemma_digits_prefix_le(d, i - start + 1);
                            }
                        }
                        return None;
                    },
                    Some(a) => {
                        acc = a;
                    },
                }
            },
        }
        i = i + 1;
    }
    assert(d.take(n - start) =~= d);
    Some(acc)
}

/// A character allowed in a tenant id: `[a-zA-Z0-9_-]`.
pub open spec fn tenant_char_ok(c: char) -> bool {
    ('a' <= c && c <= 'z') || ('A' <= c && c <= 'Z') || ('0' <= c && c <= '9') || c == '_'
        || c == '-'
}

/// A tenant id that cannot escape the `tenants/` directory: non-empty and
/// made of `[a-zA-Z0-9_-]` only.
pub open spec fn tenant_id_ok(id: Seq<char>) -> bool {
    id.len() > 0 && forall|i: int| 0 <= i < id.len() ==> tenant_char_ok(#[trigger] id[i])
}

/// Checks a tenant id (see [`tenant_id_ok`]).
pub fn tenant_id_is_valid(id: &str) -> (r: bool)
    ensures
        r == tenant_id_ok(id@),
{
    let cs = chars_of(id);
    let n = cs.len();
    if n == 0 {
        return false;
    }
    let mut i: usize = 0;
    while i < n
        invariant
            n == cs@.len(),
            cs@ == id@,
            i <= n,
            forall|k: int| 0 <= k < i ==> tenant_char_ok(#[trigger] id@[k]),
        decreases n - i,
    {
        let c = cs[i];
        let ok = ('a' <= c && c <= 'z') || ('A' <= c && c <= 'Z') || ('0' <= c && c <= '9')
            || c == '_' || c == '-';
        if !ok {
            assert(!tenant_char_ok(id@[i as int]));
            return false;
        }
        i = i + 1;
    }
    true
}

} // verus!
