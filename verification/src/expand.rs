//! The variable expander: substitutes `%NAME%`-style placeholders with the
//! values of environment variables.
//!
//! The caller supplies the environment as an [`EnvTable`] of name/value
//! pairs. Every substring of the form `%NAME%` — a nonempty, `%`-free name
//! between two `%` signs — whose name is bound in the table is replaced by
//! its value; a placeholder naming an unbound variable is left unchanged.
//! Expansion is best-effort and never fails. Case-sensitivity of names
//! follows the host environment: the table is built either exact-matching
//! or ASCII-case-insensitive, so the caller picks whichever its platform's
//! variable lookup uses.

use crate::text::{eq_ignore_ascii_case, eq_ignore_case, str_eq};
use vstd::prelude::*;

verus! {

/// One environment variable: a name and its value.
pub struct EnvEntry {
    pub name: String,
    pub value: String,
}

/// An environment-variable table. When two entries share a name, the first
/// one wins. `fold_case` decides whether names match exactly or ignoring
/// ASCII case.
pub struct EnvTable {
    pub entries: Vec<EnvEntry>,
    pub fold_case: bool,
}

/// `entry_name` binds a lookup of `name`: exactly, or ignoring ASCII case
/// when `fold_case` is set.
pub open spec fn name_matches(entry_name: Seq<char>, name: Seq<char>, fold_case: bool) -> bool {
    if fold_case {
        eq_ignore_case(entry_name, name)
    } else {
        entry_name == name
    }
}

/// The value bound to `name` in `entries`: the value of the first entry
/// whose name matches, if any.
pub open spec fn lookup_in(entries: Seq<EnvEntry>, name: Seq<char>, fold_case: bool) -> Option<
    Seq<char>,
>
    decreases entries.len(),
{
    if entries.len() == 0 {
        None
    } else if name_matches(entries[0].name@, name, fold_case) {
        Some(entries[0].value@)
    } else {
        lookup_in(entries.drop_first(), name, fold_case)
    }
}

impl EnvTable {
    /// The value bound to `name`, if any.
    pub open spec fn lookup(self, name: Seq<char>) -> Option<Seq<char>> {
        lookup_in(self.entries@, name, self.fold_case)
    }

    /// An empty table whose names match exactly.
    pub fn new() -> (t: EnvTable)
        ensures
            t.entries@ =~= Seq::<EnvEntry>::empty(),
            !t.fold_case,
    {
        EnvTable { entries: Vec::new(), fold_case: false }
    }

    /// An empty table whose names match ignoring ASCII case, as the host's
    /// variable lookup does on platforms with case-insensitive environments.
    pub fn new_case_insensitive() -> (t: EnvTable)
        ensures
            t.entries@ =~= Seq::<EnvEntry>::empty(),
            t.fold_case,
    {
        EnvTable { entries: Vec::new(), fold_case: true }
    }

    /// Appends a binding. It takes effect only for names not already bound.
    pub fn define(&mut self, name: String, value: String)
        ensures
            final(self).entries@ == old(self).entries@.push(EnvEntry { name, value }),
            final(self).fold_case == old(self).fold_case,
    {
        self.entries.push(EnvEntry { name, value });
    }

    /// Looks `name` up in the table.
    pub fn get(&self, name: &str) -> (r: Option<&String>)
        ensures
            match r {
                Some(v) => self.lookup(name@) == Some(v@),
                None => self.lookup(name@) is None,
            },
    {
        let n = self.entries.len();
        proof {
            assert(self.entries@.subrange(0, n as int) =~= self.entries@);
        }
        let mut i: usize = 0;
        while i < n
            invariant
                n == self.entries@.len(),
                i <= n,
                lookup_in(self.entries@, name@, self.fold_case) == lookup_in(
                    self.entries@.subrange(i as int, n as int),
                    name@,
                    self.fold_case,
                ),
            decreases n - i,
        {
            let ghost rest = self.entries@.subrange(i as int, n as int);
            proof {
                assert(rest[0] == self.entries@[i as int]);
                assert(rest.drop_first() =~= self.entries@.subrange(i as int + 1, n as int));
            }
            let entry = &self.entries[i];
            let hit = if self.fold_case {
                eq_ignore_ascii_case(entry.name.as_str(), name)
            } else {
                str_eq(entry.name.as_str(), name)
            };
            if hit {
                return Some(&entry.value);
            }
            i += 1;
        }
        proof {
            assert(self.entries@.subrange(n as int, n as int) =~= Seq::<EnvEntry>::empty());
        }
        None
    }
}

/// The position of the first `%` in `s` at or after `i`, if any.
pub open spec fn find_percent_from(s: Seq<char>, i: int) -> Option<int>
    decreases s.len() - i,
{
    if i >= s.len() {
        None
    } else if s[i] == '%' {
        Some(i)
    } else {
        find_percent_from(s, i + 1)
    }
}

/// What [`find_percent_from`] returns: the least `%` position at or after
/// `i`, or nothing when no `%` remains.
pub proof fn lemma_find_percent_from(s: Seq<char>, i: int)
    ensures
        match find_percent_from(s, i) {
            Some(j) => {
                &&& i <= j < s.len()
                &&& s[j] == '%'
                &&& forall|k: int| i <= k < j ==> s[k] != '%'
            },
            None => forall|k: int| i <= k < s.len() ==> s[k] != '%',
        },
    decreases s.len() - i,
{
    if i >= s.len() {
    } else if s[i] == '%' {
    } else {
        lemma_find_percent_from(s, i + 1);
    }
}

/// The expansion of the tail of `s` that starts at `i`. At a `%`, the span
/// up to the next `%` is a placeholder when the name between them is
/// nonempty; a bound placeholder becomes the variable's value, an unbound
/// one stays as written, and in both cases scanning resumes after the
/// closing `%`. An immediately following second `%` means the first was no
/// placeholder start: it stays literal and scanning resumes at the second.
/// With no closing `%` left, the rest of the string is literal.
pub open spec fn expand_from(
    s: Seq<char>,
    i: int,
    entries: Seq<EnvEntry>,
    fold_case: bool,
) -> Seq<char>
    decreases s.len() - i,
    via expand_from_decreases
{
    if i >= s.len() {
        Seq::empty()
    } else if s[i] != '%' {
        seq![s[i]] + expand_from(s, i + 1, entries, fold_case)
    } else {
        match find_percent_from(s, i + 1) {
            None => s.subrange(i, s.len() as int),
            Some(j) => if j == i + 1 {
                seq![s[i]] + expand_from(s, i + 1, entries, fold_case)
            } else {
                match lookup_in(entries, s.subrange(i + 1, j), fold_case) {
                    Some(v) => v + expand_from(s, j + 1, entries, fold_case),
                    None => s.subrange(i, j + 1) + expand_from(s, j + 1, entries, fold_case),
                }
            },
        }
    }
}

#[via_fn]
proof fn expand_from_decreases(s: Seq<char>, i: int, entries: Seq<EnvEntry>, fold_case: bool) {
    lemma_find_percent_from(s, i + 1);
}

/// The expansion of all of `s` against `entries`.
pub open spec fn expand_chars(s: Seq<char>, entries: Seq<EnvEntry>, fold_case: bool) -> Seq<
    char,
> {
    expand_from(s, 0, entries, fold_case)
}

/// The position of the first `%` in `s` at or after `from`, if any.
fn find_percent(s: &str, from: usize) -> (r: Option<usize>)
    ensures
        match r {
            Some(j) => from <= j < s@.len() && Some(j as int) == find_percent_from(s@, from as int),
            None => find_percent_from(s@, from as int) is None,
        },
{
    let n = s.unicode_len();
    let mut j = from;
    while j < n
        invariant
            n == s@.len(),
            from <= j,
            find_percent_from(s@, from as int) == find_percent_from(s@, j as int),
        decreases n - j,
    {
        if s.get_char(j) == '%' {
            return Some(j);
        }
        j += 1;
    }
    None
}

/// Replaces every `%NAME%` placeholder in `input` whose variable is bound in
/// `env` with that variable's value, and leaves every other character —
/// including unbound placeholders — unchanged.
pub fn expand_env_vars(input: &str, env: &EnvTable) -> (r: String)
    ensures
        r@ == expand_chars(input@, env.entries@, env.fold_case),
{
    let n = input.unicode_len();
    let mut out = String::new();
    let mut i: usize = 0;
    while i < n
        invariant
            n == input@.len(),
            i <= n,
            out@ + expand_from(input@, i as int, env.entries@, env.fold_case) == expand_chars(
                input@,
                env.entries@,
                env.fold_case,
            ),
        decreases n - i,
    {
        let ghost s = input@;
        let ghost es = env.entries@;
        let ghost fold = env.fold_case;
        let c = input.get_char(i);
        if c != '%' {
            let one = input.substring_char(i, i + 1);
            proof {
                assert(one@ =~= seq![s[i as int]]);
                assert((out@ + one@) + expand_from(s, i as int + 1, es, fold) =~= out@
                    + expand_from(s, i as int, es, fold));
            }
            out.append(one);
            i += 1;
        } else {
            match find_percent(input, i + 1) {
                None => {
                    let rest = input.substring_char(i, n);
                    proof {
                        assert((out@ + rest@) + expand_from(s, n as int, es, fold) =~= out@
                            + expand_from(s, i as int, es, fold));
                    }
                    out.append(rest);
                    i = n;
                },
                Some(j) => {
                    if j == i + 1 {
                        let one = input.substring_char(i, i + 1);
                        proof {
                            assert(one@ =~= seq![s[i as int]]);
                            assert((out@ + one@) + expand_from(s, i as int + 1, es, fold) =~= out@
                                + expand_from(s, i as int, es, fold));
                        }
                        out.append(one);
                        i += 1;
                    } else {
                        let name = input.substring_char(i + 1, j);
                        match env.get(name) {
                            Some(v) => {
                                proof {
                                    assert((out@ + v@) + expand_from(s, j as int + 1, es, fold)
                                        =~= out@ + expand_from(s, i as int, es, fold));
                                }
                                out.append(v.as_str());
                            },
                            None => {
                                let lit = input.substring_char(i, j + 1);
                                proof {
                                    assert((out@ + lit@) + expand_from(s, j as int + 1, es, fold)
                                        =~= out@ + expand_from(s, i as int, es, fold));
                                }
                                out.append(lit);
                            },
                        }
                        i = j + 1;
                    }
                },
            }
        }
    }
    proof {
        assert(out@ + expand_from(input@, n as int, env.entries@, env.fold_case) =~= out@);
    }
    out
}

/// A placeholder occupies `s[i..=j]`: a `%` at each end and a nonempty,
/// `%`-free name between them.
pub open spec fn placeholder_at(s: Seq<char>, i: int, j: int) -> bool {
    &&& 0 <= i
    &&& i + 1 < j < s.len()
    &&& s[i] == '%'
    &&& s[j] == '%'
    &&& forall|k: int| i < k < j ==> s[k] != '%'
}

/// Some placeholder in `s` names a variable that is bound in `entries`.
pub open spec fn has_set_placeholder(
    s: Seq<char>,
    entries: Seq<EnvEntry>,
    fold_case: bool,
) -> bool {
    exists|i: int, j: int|
        placeholder_at(s, i, j) && lookup_in(entries, s.subrange(i + 1, j), fold_case) is Some
}

proof fn lemma_expand_from_noop(s: Seq<char>, i: int, entries: Seq<EnvEntry>, fold_case: bool)
    requires
        0 <= i <= s.len(),
        !has_set_placeholder(s, entries, fold_case),
    ensures
        expand_from(s, i, entries, fold_case) == s.subrange(i, s.len() as int),
    decreases s.len() - i,
{
    if i >= s.len() {
        assert(s.subrange(i, s.len() as int) =~= Seq::<char>::empty());
    } else if s[i] != '%' {
        lemma_expand_from_noop(s, i + 1, entries, fold_case);
        assert(seq![s[i]] + s.subrange(i + 1, s.len() as int) =~= s.subrange(i, s.len() as int));
    } else {
        lemma_find_percent_from(s, i + 1);
        match find_percent_from(s, i + 1) {
            None => {},
            Some(j) => {
                if j == i + 1 {
                    lemma_expand_from_noop(s, i + 1, entries, fold_case);
                    assert(seq![s[i]] + s.subrange(i + 1, s.len() as int) =~= s.subrange(
                        i,
                        s.len() as int,
                    ));
                } else {
                    assert(placeholder_at(s, i, j));
                    if lookup_in(entries, s.subrange(i + 1, j), fold_case) is Some {
                        assert(has_set_placeholder(s, entries, fold_case));
                    }
                    lemma_expand_from_noop(s, j + 1, entries, fold_case);
                    assert(s.subrange(i, j + 1) + s.subrange(j + 1, s.len() as int) =~= s.subrange(
                        i,
                        s.len() as int,
                    ));
                }
            },
        }
    }
}

/// Expansion is idempotent once nothing is left to expand: a string without
/// a bound placeholder — in particular an already-expanded string with no
/// remaining placeholders at all — comes back unchanged.
pub proof fn lemma_expand_noop(s: Seq<char>, entries: Seq<EnvEntry>, fold_case: bool)
    requires
        !has_set_placeholder(s, entries, fold_case),
    ensures
        expand_chars(s, entries, fold_case) == s,
{
    lemma_expand_from_noop(s, 0, entries, fold_case);
    assert(s.subrange(0, s.len() as int) =~= s);
}

} // verus!
