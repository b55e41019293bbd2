//! Environment resolution for launched apps: parsing a `.env` file and
//! merging it with manifest-declared variables, where a manifest value of
//! the form `$ENV:NAME` is resolved first from `.env`, then from the
//! process environment, and any literal manifest value overrides the
//! corresponding `.env` key.

use vstd::prelude::*;
use crate::assoc::spec_assoc;
use crate::split::spec_split;
use crate::strutil::{spec_starts_with, spec_trim, starts_with, trim};

verus! {

/// The lines of a text: the pieces split on `'\n'`.
pub open spec fn spec_lines(s: Seq<char>) -> Seq<Seq<char>> {
    spec_split(s, '\n')
}

/// Splitting at the first `'='`: the text before it and the text after it.
pub open spec fn spec_split_eq(s: Seq<char>) -> Option<(Seq<char>, Seq<char>)>
    decreases s.len(),
{
    if s.len() == 0 {
        None
    } else if s[0] == '=' {
        Some((Seq::<char>::empty(), s.drop_first()))
    } else {
        match spec_split_eq(s.drop_first()) {
            Some(kv) => Some((seq![s[0]] + kv.0, kv.1)),
            None => None,
        }
    }
}

proof fn lemma_split_eq_at(s: Seq<char>, i: int)
    requires
        0 <= i <= s.len(),
        forall|j: int| 0 <= j < i ==> s[j] != '=',
        i == s.len() || s[i] == '=',
    ensures
        spec_split_eq(s) == if i == s.len() {
            None::<(Seq<char>, Seq<char>)>
        } else {
            Some((s.take(i), s.skip(i + 1)))
        },
    decreases i,
{
    if s.len() == 0 {
    } else if i == 0 {
        if s[0] == '=' {
            assert(s.take(0) =~= Seq::<char>::empty());
            assert(s.drop_first() =~= s.skip(1));
        }
    } else {
        lemma_split_eq_at(s.drop_first(), i - 1);
        if i < s.len() {
            assert(seq![s[0]] + s.drop_first().take(i - 1) =~= s.take(i));
            assert(s.drop_first().skip(i) =~= s.skip(i + 1));
        }
    }
}

/// `s` stripped of every leading and trailing occurrence of `c`.
pub open spec fn spec_strip_front(s: Seq<char>, c: char) -> Seq<char>
    decreases s.len(),
{
    if s.len() > 0 && s[0] == c {
        spec_strip_front(s.drop_first(), c)
    } else {
        s
    }
}

pub open spec fn spec_strip_back(s: Seq<char>, c: char) -> Seq<char>
    decreases s.len(),
{
    if s.len() > 0 && s[s.len() - 1] == c {
        spec_strip_back(s.drop_last(), c)
    } else {
        s
    }
}

pub open spec fn spec_strip_char(s: Seq<char>, c: char) -> Seq<char> {
    spec_strip_back(spec_strip_front(s, c), c)
}

proof fn lemma_strip_front_skip(s: Seq<char>, c: char, i: int)
    requires
        0 <= i <= s.len(),
        forall|j: int| 0 <= j < i ==> s[j] == c,
    ensures
        spec_strip_front(s, c) == spec_strip_front(s.skip(i), c),
    decreases i,
{
    if i > 0 {
        assert(s.drop_first() =~= s.skip(1));
        lemma_strip_front_skip(s.skip(1), c, i - 1);
        assert(s.skip(1).skip(i - 1) =~= s.skip(i));
    } else {
        assert(s.skip(0) =~= s);
    }
}

proof fn lemma_strip_back_take(s: Seq<char>, c: char, i: int)
    requires
        0 <= i <= s.len(),
        forall|j: int| i <= j < s.len() ==> s[j] == c,
    ensures
        spec_strip_back(s, c) == spec_strip_back(s.take(i), c),
    decreases s.len() - i,
{
    if i < s.len() {
        assert(s.drop_last() =~= s.take(s.len() - 1));
        lemma_strip_back_take(s.take(s.len() - 1), c, i);
        assert(s.take(s.len() - 1).take(i) =~= s.take(i));
    } else {
        assert(s.take(i) =~= s);
    }
}

/// Strips every leading and trailing occurrence of `c`, as quote removal
/// around `.env` values does.
pub fn strip_char(s: &str, c: char) -> (r: String)
    ensures
        r@ == spec_strip_char(s@, c),
{
    let n = s.unicode_len();
    let mut a: usize = 0;
    while a < n && s.get_char(a) == c
        invariant
            a <= n,
            n == s@.len(),
            forall|j: int| 0 <= j < a ==> s@[j] == c,
        decreases n - a,
    {
        a += 1;
    }
    proof {
        lemma_strip_front_skip(s@, c, a as int);
    }
    if a == n {
        proof {
            assert(s@.skip(a as int) =~= Seq::<char>::empty());
        }
        return String::new();
    }
    assert(spec_strip_front(s@, c) == s@.skip(a as int));
    let mut b: usize = n;
    while b > a && s.get_char(b - 1) == c
        invariant
            a <= b <= n,
            n == s@.len(),
            forall|j: int| b <= j < n ==> s@[j] == c,
        decreases b,
    {
        b -= 1;
    }
    assert(b > a);
    let piece = s.substring_char(a, b);
    proof {
        lemma_strip_back_take(s@.skip(a as int), c, b - a);
        assert(s@.skip(a as int).take(b - a) =~= s@.subrange(a as int, b as int));
        assert(spec_strip_back(s@.subrange(a as int, b as int), c) == s@.subrange(
            a as int,
            b as int,
        ));
    }
    piece.to_owned()
}

/// What one `.env` line contributes: nothing for a blank or `#` comment
/// line or one without `'='`; otherwise the trimmed key and the trimmed,
/// quote-stripped value.
pub open spec fn spec_env_line(line: Seq<char>) -> Option<(Seq<char>, Seq<char>)> {
    let t = spec_trim(line);
    if t.len() == 0 || t[0] == '#' {
        None
    } else {
        match spec_split_eq(t) {
            Some(kv) => Some(
                (
                    spec_trim(kv.0),
                    spec_strip_char(spec_strip_char(spec_trim(kv.1), '"'), '\''),
                ),
            ),
            None => None,
        }
    }
}

/// Parses one `.env` line.
pub fn parse_env_line(line: &str) -> (r: Option<(String, String)>)
    ensures
        match r {
            Some(kv) => spec_env_line(line@) matches Some(s) && s.0 == kv.0@ && s.1 == kv.1@,
            None => spec_env_line(line@) is None,
        },
{
    let t = trim(line);
    if t.as_str().is_empty() {
        return None;
    }
    if t.as_str().get_char(0) == '#' {
        return None;
    }
    match crate::strutil::find_char(t.as_str(), '=') {
        Some(i) => {
            proof {
                lemma_split_eq_at(t@, i as int);
            }
            let n = t.as_str().unicode_len();
            let before = t.as_str().substring_char(0, i);
            let after = t.as_str().substring_char(i + 1, n);
            proof {
                assert(t@.subrange(0, i as int) =~= t@.take(i as int));
                assert(t@.subrange(i + 1, t@.len() as int) =~= t@.skip(i + 1));
            }
            let key = trim(before);
            let raw = trim(after);
            let unq = strip_char(raw.as_str(), '"');
            let val = strip_char(unq.as_str(), '\'');
            Some((key, val))
        },
        None => {
            proof {
                lemma_split_eq_at(t@, t@.len() as int);
            }
            None
        },
    }
}

/// The entries a sequence of `.env` lines yields, in order.
pub open spec fn spec_env_entries(lines: Seq<Seq<char>>) -> Seq<(Seq<char>, Seq<char>)>
    decreases lines.len(),
{
    if lines.len() == 0 {
        Seq::empty()
    } else {
        spec_env_entries(lines.drop_last()) + match spec_env_line(lines.last()) {
            Some(kv) => seq![kv],
            None => Seq::<(Seq<char>, Seq<char>)>::empty(),
        }
    }
}

/// The key/value pairs of a whole `.env` file.
pub open spec fn spec_dot_env(content: Seq<char>) -> Seq<(Seq<char>, Seq<char>)> {
    spec_env_entries(spec_lines(content))
}

/// The view of an executable environment list.
pub open spec fn spec_env_view(v: Seq<(String, String)>) -> Seq<(Seq<char>, Seq<char>)> {
    v.map_values(|e: (String, String)| (e.0@, e.1@))
}

/// Parses a `.env` file's text: blank and comment lines are skipped, each
/// `KEY=VALUE` line contributes its trimmed key and its trimmed value with
/// surrounding quotes removed.
pub fn parse_dot_env(content: &str) -> (r: Vec<(String, String)>)
    ensures
        spec_env_view(r@) == spec_dot_env(content@),
{
    let lines = crate::split::split_on(content, '\n');
    let ghost lviews = lines@.map_values(|x: String| x@);
    let mut out: Vec<(String, String)> = Vec::new();
    let n = lines.len();
    let mut i: usize = 0;
    while i < n
        invariant
            i <= n,
            n == lines@.len(),
            lviews == lines@.map_values(|x: String| x@),
            spec_env_view(out@) == spec_env_entries(lviews.take(i as int)),
        decreases n - i,
    {
        proof {
            assert(lviews.take(i + 1).drop_last() =~= lviews.take(i as int));
            assert(lviews.take(i + 1).last() == lines@[i as int]@);
        }
        match parse_env_line(lines[i].as_str()) {
            Some(kv) => {
                out.push(kv);
                proof {
                    assert(spec_env_view(out@) =~= spec_env_view(out@.drop_last()).push(
                        (out@.last().0@, out@.last().1@),
                    ));
                    assert(spec_env_view(out@) =~= spec_env_entries(lviews.take(i + 1)));
                }
            },
            None => {
                proof {
                    assert(spec_env_entries(lviews.take(i + 1)) =~= spec_env_entries(
                        lviews.take(i as int),
                    ));
                }
            },
        }
        i += 1;
    }
    proof {
        assert(lviews.take(n as int) =~= lviews);
    }
    out
}

/// How one manifest-declared value resolves: a `$ENV:NAME` reference takes
/// the `.env` binding for NAME, else the process-environment binding, else
/// the empty string; any other value stands literally.
pub open spec fn spec_resolve_value(
    v: Seq<char>,
    dot_env: Seq<(String, String)>,
    proc_env: Seq<(String, String)>,
) -> Seq<char> {
    if spec_starts_with(v, "$ENV:"@) {
        let name = v.skip(5);
        match spec_assoc(dot_env, name) {
            Some(x) => x@,
            None => match spec_assoc(proc_env, name) {
                Some(x) => x@,
                None => Seq::<char>::empty(),
            },
        }
    } else {
        v
    }
}

/// Resolves one manifest value against the `.env` entries and a snapshot of
/// the process environment.
pub fn resolve_value(v: &str, dot_env: &Vec<(String, String)>, proc_env: &Vec<(String, String)>)
    -> (r: String)
    ensures
        r@ == spec_resolve_value(v@, dot_env@, proc_env@),
{
    proof {
        reveal_strlit("$ENV:");
    }
    if starts_with(v, "$ENV:") {
        let n = v.unicode_len();
        let name = v.substring_char(5, n);
        proof {
            assert(v@.subrange(5, v@.len() as int) =~= v@.skip(5));
        }
        match crate::assoc::assoc_find(dot_env, name) {
            Some(i) => dot_env[i].1.clone(),
            None => match crate::assoc::assoc_find(proc_env, name) {
                Some(i) => proc_env[i].1.clone(),
                None => String::new(),
            },
        }
    } else {
        v.to_owned()
    }
}

/// The resolved environment an app is launched with: every `.env` entry,
/// then every manifest-declared variable with `$ENV:` references resolved -
/// later entries override earlier ones, so a literal manifest value wins
/// over the `.env` key it shadows.
pub fn prepare_env(
    dot_env_content: &str,
    config_env: Option<&Vec<(String, String)>>,
    proc_env: &Vec<(String, String)>,
) -> (r: Vec<(String, String)>)
    ensures
        ({
            let dot = spec_dot_env(dot_env_content@);
            let conf = match config_env {
                Some(c) => c@,
                None => Seq::<(String, String)>::empty(),
            };
            &&& r@.len() == dot.len() + conf.len()
            &&& spec_env_view(r@.take(dot.len() as int)) == dot
            &&& forall|i: int|
                0 <= i < conf.len() ==> (#[trigger] r@[dot.len() + i]).0@ == conf[i].0@ && r@[
                    dot.len() + i
                ].1@ == spec_resolve_value(conf[i].1@, r@.take(dot.len() as int), proc_env@)
            // A key the manifest part binds takes that binding; every other
            // key keeps its `.env` binding.
            &&& forall|k: Seq<char>|
                #![auto]
                spec_assoc(r@, k) == if spec_assoc(r@.skip(dot.len() as int), k) is Some {
                    spec_assoc(r@.skip(dot.len() as int), k)
                } else {
                    spec_assoc(r@.take(dot.len() as int), k)
                }
        }),
{
    let dotv = parse_dot_env(dot_env_content);
    let ghost dot = dotv@;
    let conf: &Vec<(String, String)> = match config_env {
        Some(c) => c,
        None => {
            proof {
                assert(dotv@.take(dotv@.len() as int) =~= dotv@);
                assert(dotv@.skip(dotv@.len() as int) =~= Seq::<(String, String)>::empty());
                assert forall|k: Seq<char>| #![auto] spec_assoc(
                    dotv@.skip(dotv@.len() as int),
                    k,
                ) is None by {
                    assert(dotv@.skip(dotv@.len() as int).len() == 0);
                }
            }
            return dotv;
        },
    };
    // Manifest values resolve against `.env` and the process environment
    // only, never against other manifest entries.
    let mut extra: Vec<(String, String)> = Vec::new();
    let n = conf.len();
    let mut i: usize = 0;
    while i < n
        invariant
            i <= n,
            n == conf@.len(),
            dotv@ == dot,
            extra@.len() == i,
            forall|j: int|
                0 <= j < i ==> (#[trigger] extra@[j]).0@ == conf@[j].0@ && extra@[j].1@
                    == spec_resolve_value(conf@[j].1@, dot, proc_env@),
        decreases n - i,
    {
        let key = conf[i].0.clone();
        let val = resolve_value(conf[i].1.as_str(), &dotv, proc_env);
        let ghost prev = extra@;
        extra.push((key, val));
        proof {
            assert(forall|j: int| 0 <= j < i ==> extra@[j] == prev[j]);
            assert(extra@[i as int].0@ == conf@[i as int].0@);
            assert(extra@[i as int].1@ == spec_resolve_value(conf@[i as int].1@, dot, proc_env@));
        }
        i += 1;
    }
    let mut out = dotv;
    out.append(&mut extra);
    proof {
        assert(out@.take(dot.len() as int) =~= dot);
        assert(out@.skip(dot.len() as int) =~= out@.skip(dot.len() as int));
        assert forall|k: Seq<char>|
            #![auto]
            spec_assoc(out@, k) == if spec_assoc(out@.skip(dot.len() as int), k) is Some {
                spec_assoc(out@.skip(dot.len() as int), k)
            } else {
                spec_assoc(out@.take(dot.len() as int), k)
            } by {
            assert(out@ =~= out@.take(dot.len() as int) + out@.skip(dot.len() as int));
            crate::assoc::lemma_assoc_add(
                out@.take(dot.len() as int),
                out@.skip(dot.len() as int),
                k,
            );
        }
    }
    out
}

} // verus!
