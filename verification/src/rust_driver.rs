//! The Rust-style backend: a line-oriented parser for the `[dependencies]`
//! section of a TOML-style manifest, and the crates.io registry binding.
//!
//! The grammar is deliberately a heuristic subset: a line that trims to
//! `[dependencies]` opens the section, any further section heading closes
//! it for good, and inside it every line with an `=` contributes the
//! trimmed text before the first `=` as a dependency name. Arbitrary
//! surrounding content is tolerated.

use vstd::prelude::*;

use crate::registry::{config_matches, RegistryConfig};
use crate::strutil::{str_eq, trim_spec, trim_str};

verus! {

/// Index of the first newline of `s`, or `s.len()` when there is none.
pub open spec fn first_newline(s: Seq<char>) -> int
    decreases s.len(),
{
    if s.len() == 0 {
        0
    } else if s[0] == '\n' {
        0
    } else {
        1 + first_newline(s.drop_first())
    }
}

/// Index of the first `=` of `s`, or `s.len()` when there is none.
pub open spec fn first_eq(s: Seq<char>) -> int
    decreases s.len(),
{
    if s.len() == 0 {
        0
    } else if s[0] == '=' {
        0
    } else {
        1 + first_eq(s.drop_first())
    }
}

/// Whether `s` holds an `=` at all.
pub open spec fn has_eq(s: Seq<char>) -> bool {
    first_eq(s) < s.len()
}

/// The lines of `s`, split on `\n` exactly as `str::split('\n')` does:
/// separators are consumed and a trailing newline yields a final empty
/// line.
pub open spec fn split_lines(s: Seq<char>) -> Seq<Seq<char>>
    decreases s.len(),
{
    let k = first_newline(s);
    if 0 <= k && k < s.len() {
        seq![s.subrange(0, k)] + split_lines(s.subrange(k + 1, s.len() as int))
    } else {
        seq![s]
    }
}

/// The heading line that opens the dependencies section.
pub open spec fn deps_header() -> Seq<char> {
    "[dependencies]"@
}

/// The name a dependency line contributes: the trimmed text before its
/// first `=`.
pub open spec fn line_dep_name(l: Seq<char>) -> Seq<char> {
    trim_spec(l.subrange(0, first_eq(l)))
}

/// The dependency names contributed by `lines`, given whether the
/// dependencies section is currently open. A line trimming to the section
/// heading opens it; once open, any other line whose trimmed form begins
/// with `[` ends the scan; open-section lines holding an `=` contribute
/// their name; everything else is ignored.
pub open spec fn deps_from_lines(lines: Seq<Seq<char>>, in_deps: bool) -> Seq<Seq<char>>
    decreases lines.len(),
{
    if lines.len() == 0 {
        seq![]
    } else {
        let l = lines[0];
        let t = trim_spec(l);
        if t == deps_header() {
            deps_from_lines(lines.drop_first(), true)
        } else if in_deps && t.len() > 0 && t[0] == '[' {
            seq![]
        } else if in_deps && has_eq(l) {
            seq![line_dep_name(l)] + deps_from_lines(lines.drop_first(), true)
        } else {
            deps_from_lines(lines.drop_first(), in_deps)
        }
    }
}

/// The dependency names of a whole manifest text.
pub open spec fn toml_dep_names(s: Seq<char>) -> Seq<Seq<char>> {
    deps_from_lines(split_lines(s), false)
}

proof fn lemma_first_newline_at(s: Seq<char>, k: int)
    requires
        0 <= k <= s.len(),
        forall|m: int| 0 <= m < k ==> s[m] != '\n',
        k < s.len() ==> s[k] == '\n',
    ensures
        first_newline(s) == k,
    decreases k,
{
    if k > 0 {
        lemma_first_newline_at(s.drop_first(), k - 1);
    }
}

proof fn lemma_first_eq_at(s: Seq<char>, k: int)
    requires
        0 <= k <= s.len(),
        forall|m: int| 0 <= m < k ==> s[m] != '=',
        k < s.len() ==> s[k] == '=',
    ensures
        first_eq(s) == k,
    decreases k,
{
    if k > 0 {
        lemma_first_eq_at(s.drop_first(), k - 1);
    }
}

/// What is still to be contributed when the scan stands at position `i`.
spec fn rem_deps(s: Seq<char>, i: int, more: bool, closed: bool, in_deps: bool) -> Seq<Seq<char>> {
    if !more || closed {
        seq![]
    } else {
        deps_from_lines(split_lines(s.skip(i)), in_deps)
    }
}

/// Extracts the dependency names declared in the `[dependencies]` section
/// of a TOML-style manifest. Never fails: text without such a section
/// yields an empty result.
pub fn get_deps_from_cargo_toml(text: &str) -> (deps: Vec<String>)
    ensures
        deps.deep_view() == toml_dep_names(text@),
{
    let n = text.unicode_len();
    let mut deps: Vec<String> = Vec::new();
    let mut i: usize = 0;
    let mut in_deps = false;
    let mut closed = false;
    let mut more = true;
    proof {
        assert(text@.skip(0) =~= text@);
    }
    while more
        invariant
            n == text@.len(),
            more ==> i <= n,
            toml_dep_names(text@) == deps.deep_view() + rem_deps(
                text@,
                i as int,
                more,
                closed,
                in_deps,
            ),
        decreases n - i + (if more { 1int } else { 0 }),
    {
        let ghost in_deps0 = in_deps;
        let ghost deps0 = deps;
        let mut j: usize = i;
        while j < n && text.get_char(j) != '\n'
            invariant
                i <= j <= n,
                n == text@.len(),
                forall|m: int| i <= m < j ==> text@[m] != '\n',
            decreases n - j,
        {
            j = j + 1;
        }
        let line = text.substring_char(i, j);
        let t = trim_str(line);
        let ghost u = text@.skip(i as int);
        let ghost lines = split_lines(u);
        proof {
            assert forall|m: int| 0 <= m < j - i implies u[m] != '\n' by {
                assert(u[m] == text@[m + i]);
            }
            if j < n {
                assert(u[j - i] == text@[j as int]);
            }
            lemma_first_newline_at(u, j - i);
            if j < n {
                assert(u.subrange(0, j - i) =~= text@.subrange(i as int, j as int));
                assert(u.subrange(j - i + 1, u.len() as int) =~= text@.skip(j + 1));
                assert(lines == seq![line@] + split_lines(text@.skip(j + 1)));
                assert(lines[0] == line@);
                assert(lines.drop_first() =~= split_lines(text@.skip(j + 1)));
            } else {
                assert(u =~= text@.subrange(i as int, j as int));
                assert(lines == seq![line@]);
                assert(lines[0] == line@);
                assert(lines.drop_first() =~= Seq::<Seq<char>>::empty());
                assert(deps_from_lines(lines.drop_first(), true) == Seq::<Seq<char>>::empty());
                assert(deps_from_lines(lines.drop_first(), false) == Seq::<Seq<char>>::empty());
            }
        }
        if !closed {
            if str_eq(t, "[dependencies]") {
                in_deps = true;
                proof {
                    assert(trim_spec(lines[0]) == deps_header());
                    assert(deps_from_lines(lines, in_deps0) == deps_from_lines(
                        lines.drop_first(),
                        true,
                    ));
                }
            } else if in_deps && t.unicode_len() > 0 && t.get_char(0) == '[' {
                closed = true;
                proof {
                    assert(trim_spec(lines[0])[0] == '[');
                    assert(deps_from_lines(lines, in_deps0) == Seq::<Seq<char>>::empty());
                }
            } else if in_deps {
                let ln = line.unicode_len();
                let mut k: usize = 0;
                while k < ln && line.get_char(k) != '='
                    invariant
                        k <= ln,
                        ln == line@.len(),
                        forall|m: int| 0 <= m < k ==> line@[m] != '=',
                    decreases ln - k,
                {
                    k = k + 1;
                }
                proof {
                    if k < ln {
                        assert(line@[k as int] == '=');
                    }
                    lemma_first_eq_at(line@, k as int);
                }
                if k < ln {
                    let name_part = line.substring_char(0, k);
                    let name = trim_str(name_part).to_owned();
                    let ghost nameg = name;
                    let ghost depsb = deps;
                    deps.push(name);
                    proof {
                        assert(nameg@ == line_dep_name(line@)) by {
                            assert(line@.subrange(0, first_eq(line@)) == name_part@);
                        }
                        assert(deps.deep_view() =~= depsb.deep_view() + seq![nameg@]) by {
                            assert(depsb@.len() == depsb.deep_view().len());
                            assert(deps@ == depsb@.push(nameg));
                            assert forall|m: int|
                                0 <= m < deps@.len() implies deps.deep_view()[m] == (
                            depsb.deep_view() + seq![nameg@])[m] by {
                                if m < depsb@.len() {
                                    assert(deps@[m] == depsb@[m]);
                                }
                            }
                        }
                        assert(deps_from_lines(lines, in_deps0) == seq![line_dep_name(line@)]
                            + deps_from_lines(lines.drop_first(), true));
                        assert(deps0.deep_view() + deps_from_lines(lines, in_deps0)
                            =~= deps.deep_view() + deps_from_lines(lines.drop_first(), true));
                    }
                } else {
                    proof {
                        assert(!has_eq(line@));
                        assert(deps_from_lines(lines, in_deps0) == deps_from_lines(
                            lines.drop_first(),
                            in_deps0,
                        ));
                    }
                }
            } else {
                proof {
                    assert(deps_from_lines(lines, in_deps0) == deps_from_lines(
                        lines.drop_first(),
                        in_deps0,
                    ));
                }
            }
        }
        if j < n {
            i = j + 1;
        } else {
            more = false;
        }
    }
    proof {
        assert(deps.deep_view() + Seq::<Seq<char>>::empty() =~= deps.deep_view());
    }
    deps
}

proof fn lemma_lines_without_header(lines: Seq<Seq<char>>)
    requires
        forall|m: int| 0 <= m < lines.len() ==> trim_spec(#[trigger] lines[m]) != deps_header(),
    ensures
        deps_from_lines(lines, false) == Seq::<Seq<char>>::empty(),
    decreases lines.len(),
{
    if lines.len() > 0 {
        assert forall|m: int|
            0 <= m < lines.drop_first().len() implies trim_spec(
            #[trigger] lines.drop_first()[m],
        ) != deps_header() by {
            assert(lines.drop_first()[m] == lines[m + 1]);
        }
        lemma_lines_without_header(lines.drop_first());
    }
}

/// Law: a manifest none of whose lines trims to the section heading — in
/// particular one without any `[dependencies]` section — yields no
/// dependency names at all.
pub proof fn lemma_no_deps_section(s: Seq<char>)
    requires
        forall|m: int|
            0 <= m < split_lines(s).len() ==> trim_spec(#[trigger] split_lines(s)[m])
                != deps_header(),
    ensures
        toml_dep_names(s) == Seq::<Seq<char>>::empty(),
{
    lemma_lines_without_header(split_lines(s));
}

/// The backend for Rust-style projects, bound to the crates.io registry.
pub struct RustDriver {
    pub config: RegistryConfig,
}

impl RustDriver {
    /// Binds the crates.io endpoint to the caller's identity string.
    pub fn new(user_agent: &str) -> (r: Self)
        ensures
            config_matches(
                &r.config,
                "https://crates.io/api/v1/crates/"@,
                user_agent@,
                "/crate/description"@,
            ),
    {
        RustDriver {
            config: RegistryConfig::new(
                "https://crates.io/api/v1/crates/",
                user_agent,
                "/crate/description",
            ),
        }
    }
}

} // verus!
