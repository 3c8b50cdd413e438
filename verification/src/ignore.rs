//! The ignore-pattern policy: parsing of pattern sources (one glob per line,
//! blank lines and `#` comments skipped, invalid globs dropped), compilation
//! into a matchable set, and the relative-path match used by sanitization,
//! which tests a path both as written and with a trailing separator so that
//! directory-style patterns apply.

use vstd::prelude::*;

use crate::errors::RepositoryError;

verus! {

#[verifier::external_type_specification]
#[verifier::external_body]
pub struct ExGlob(globset::Glob);

#[verifier::external_type_specification]
#[verifier::external_body]
pub struct ExGlobSet(globset::GlobSet);

#[verifier::external_type_specification]
#[verifier::external_body]
pub struct ExGlobSetBuilder(globset::GlobSetBuilder);

/// Whether globset accepts this text as a valid glob pattern.
pub uninterp spec fn glob_syntax_ok(pat: Seq<char>) -> bool;

/// Whether some pattern of `pats` matches the path `path`.  Matching is
/// case-sensitive and purely a function of the pattern texts and the path
/// as this build matches them; globset normalizes path separators only on
/// Windows, so the function is fixed per target platform.
pub uninterp spec fn any_glob_matches(pats: Seq<Seq<char>>, path: Seq<char>) -> bool;

/// Whether compiling a set over these pattern texts fails; a function of the
/// texts alone.
pub uninterp spec fn globset_build_fails(pats: Seq<Seq<char>>) -> bool;

/// The pattern text a compiled glob holds.
pub uninterp spec fn glob_pattern(g: globset::Glob) -> Seq<char>;

/// The pattern texts a set builder has accumulated, in insertion order.
pub uninterp spec fn builder_patterns(b: globset::GlobSetBuilder) -> Seq<Seq<char>>;

/// The pattern texts a compiled set was built from, in insertion order.
pub uninterp spec fn globset_patterns(s: globset::GlobSet) -> Seq<Seq<char>>;

/// Relies on globset::Glob::new: parses one glob pattern, succeeding exactly
/// when the text is valid glob syntax; the compiled glob holds that text.
#[verifier::external_body]
fn glob_new(pat: &str) -> (r: Option<globset::Glob>)
    ensures
        r is Some <==> glob_syntax_ok(pat@),
        r matches Some(g) ==> glob_pattern(g) == pat@,
{
    globset::Glob::new(pat).ok()
}

/// Relies on globset::GlobSetBuilder::new: a fresh builder holds no patterns.
#[verifier::external_body]
fn globset_builder_new() -> (b: globset::GlobSetBuilder)
    ensures
        builder_patterns(b) == Seq::<Seq<char>>::empty(),
{
    globset::GlobSetBuilder::new()
}

/// Relies on globset::GlobSetBuilder::add: appends one compiled glob to the
/// set under construction.
#[verifier::external_body]
fn globset_builder_add(b: &mut globset::GlobSetBuilder, g: globset::Glob)
    ensures
        builder_patterns(*final(b)) == builder_patterns(*old(b)).push(glob_pattern(g)),
{
    b.add(g);
}

/// Relies on globset::GlobSetBuilder::build: compiles the added globs into a
/// set over exactly those patterns; whether it fails depends on the added
/// pattern texts alone, and on failure the report's text is returned.
#[verifier::external_body]
fn globset_builder_build(b: &globset::GlobSetBuilder) -> (r: Result<globset::GlobSet, String>)
    ensures
        r matches Ok(s) ==> globset_patterns(s) == builder_patterns(*b),
        r is Err <==> globset_build_fails(builder_patterns(*b)),
{
    match b.build() {
        Ok(s) => Ok(s),
        Err(e) => Err(e.to_string()),
    }
}

/// Relies on globset::GlobSet::is_match: true exactly when some pattern of
/// the set matches the path.
#[verifier::external_body]
fn globset_is_match(s: &globset::GlobSet, path: &str) -> (r: bool)
    ensures
        r == any_glob_matches(globset_patterns(*s), path@),
{
    s.is_match(path)
}

/// The whitespace stripped from both ends of a pattern line: the Unicode
/// `White_Space` set, as `str::trim` removes it.
pub open spec fn is_line_space(c: char) -> bool {
    ||| 0x09 <= (c as nat) <= 0x0d
    ||| c == ' '
    ||| (c as nat) == 0x85
    ||| (c as nat) == 0xa0
    ||| (c as nat) == 0x1680
    ||| 0x2000 <= (c as nat) <= 0x200a
    ||| (c as nat) == 0x2028
    ||| (c as nat) == 0x2029
    ||| (c as nat) == 0x202f
    ||| (c as nat) == 0x205f
    ||| (c as nat) == 0x3000
}

/// `s` with leading whitespace removed.
pub open spec fn trim_front(s: Seq<char>) -> Seq<char>
    decreases s.len(),
{
    if s.len() > 0 && is_line_space(s[0]) {
        trim_front(s.skip(1))
    } else {
        s
    }
}

/// `s` with trailing whitespace removed.
pub open spec fn trim_back(s: Seq<char>) -> Seq<char>
    decreases s.len(),
{
    if s.len() > 0 && is_line_space(s.last()) {
        trim_back(s.take(s.len() - 1))
    } else {
        s
    }
}

/// `s` with whitespace removed from both ends.
pub open spec fn trim_spec(s: Seq<char>) -> Seq<char> {
    trim_back(trim_front(s))
}

/// Whether this character counts as line whitespace.
fn is_space_char(c: char) -> (r: bool)
    ensures
        r == is_line_space(c),
{
    let u = c as u32;
    (0x09 <= u && u <= 0x0d) || u == 0x20 || u == 0x85 || u == 0xa0 || u == 0x1680 || (0x2000 <= u
        && u <= 0x200a) || u == 0x2028 || u == 0x2029 || u == 0x202f || u == 0x205f || u == 0x3000
}

/// Strips whitespace from both ends of a line.
pub fn trim_line(s: &str) -> (r: String)
    ensures
        r@ == trim_spec(s@),
{
    let n = s.unicode_len();
    let mut a: usize = 0;
    proof {
        assert(s@.skip(0) =~= s@);
    }
    while a < n && is_space_char(s.get_char(a))
        invariant
            n == s@.len(),
            a <= n,
            trim_front(s@) == trim_front(s@.skip(a as int)),
        decreases n - a,
    {
        proof {
            assert(s@.skip(a as int)[0] == s@[a as int]);
            assert(s@.skip(a as int).skip(1) =~= s@.skip(a + 1));
        }
        a += 1;
    }
    let ghost t = s@.skip(a as int);
    proof {
        if a < n {
            assert(t[0] == s@[a as int]);
            assert(trim_front(t) == t);
        } else {
            assert(t =~= Seq::<char>::empty());
            assert(trim_front(t) == t);
        }
    }
    let mut b: usize = n;
    proof {
        assert(t.take(n - a) =~= t);
    }
    while b > a && is_space_char(s.get_char(b - 1))
        invariant
            n == s@.len(),
            a <= b <= n,
            t == s@.skip(a as int),
            trim_back(t) == trim_back(t.take(b - a)),
        decreases b,
    {
        proof {
            let m = b - a;
            assert(t.take(m).len() == m);
            assert(t.take(m).last() == t[m - 1]);
            assert(t[m - 1] == s@[b - 1]);
            assert(t.take(m).take(m - 1) =~= t.take(m - 1));
        }
        b -= 1;
    }
    proof {
        let m = b - a;
        if b > a {
            assert(t.take(m).last() == t[m - 1]);
            assert(t[m - 1] == s@[b - 1]);
            assert(trim_back(t.take(m)) == t.take(m));
        } else {
            assert(t.take(0) =~= Seq::<char>::empty());
            assert(trim_back(t.take(0)) == t.take(0));
        }
        assert(t.take(m) =~= s@.subrange(a as int, b as int));
    }
    let trimmed = s.substring_char(a, b);
    trimmed.to_owned()
}

/// Whether a trimmed line is kept as a pattern candidate: non-blank and not
/// a comment.
pub open spec fn keeps_line(t: Seq<char>) -> bool {
    t.len() > 0 && t[0] != '#'
}

/// The candidates a finished line contributes: its trimmed text, unless
/// blank or a comment.
pub open spec fn finished_line(cur: Seq<char>) -> Seq<Seq<char>> {
    if keeps_line(trim_spec(cur)) {
        seq![trim_spec(cur)]
    } else {
        Seq::<Seq<char>>::empty()
    }
}

/// The pattern candidates of the unread rest `s`, given the partial current
/// line `cur`: lines are separated by `'\n'`, each is trimmed, and blank or
/// `#`-comment lines are skipped.
pub open spec fn candidates_from(s: Seq<char>, cur: Seq<char>) -> Seq<Seq<char>>
    decreases s.len(),
{
    if s.len() == 0 {
        finished_line(cur)
    } else if s[0] == '\n' {
        finished_line(cur) + candidates_from(s.skip(1), Seq::<char>::empty())
    } else {
        candidates_from(s.skip(1), cur.push(s[0]))
    }
}

/// The pattern candidates of a whole ignore source.
pub open spec fn pattern_lines(content: Seq<char>) -> Seq<Seq<char>> {
    candidates_from(content, Seq::<char>::empty())
}

/// Appends the candidate of one finished raw line, if it has one.
fn push_finished_line(out: &mut Vec<String>, cur: &String)
    ensures
        final(out).deep_view() == old(out).deep_view() + finished_line(cur@),
{
    let ghost before = out.deep_view();
    let t = trim_line(cur.as_str());
    let keep = t.unicode_len() > 0 && t.get_char(0) != '#';
    if keep {
        out.push(t);
        proof {
            assert(final(out).deep_view() =~= before + finished_line(cur@));
        }
    } else {
        proof {
            assert(final(out).deep_view() =~= before + finished_line(cur@));
        }
    }
}

/// Extracts the pattern candidates from an ignore source: one per line,
/// trimmed, with blank lines and comments skipped.
pub fn pattern_candidates(content: &str) -> (r: Vec<String>)
    ensures
        r.deep_view() == pattern_lines(content@),
{
    let n = content.unicode_len();
    let mut out: Vec<String> = Vec::new();
    let mut cur = String::new();
    let mut i: usize = 0;
    proof {
        assert(content@.skip(0) =~= content@);
        assert(out.deep_view() =~= Seq::<Seq<char>>::empty());
        assert(Seq::<Seq<char>>::empty() + candidates_from(content@, Seq::<char>::empty())
            =~= candidates_from(content@, Seq::<char>::empty()));
    }
    while i < n
        invariant
            n == content@.len(),
            i <= n,
            pattern_lines(content@) == out.deep_view() + candidates_from(
                content@.skip(i as int),
                cur@,
            ),
        decreases n - i,
    {
        let ghost rest = content@.skip(i as int);
        proof {
            assert(rest[0] == content@[i as int]);
            assert(rest.skip(1) =~= content@.skip(i + 1));
        }
        let c = content.get_char(i);
        if c == '\n' {
            push_finished_line(&mut out, &cur);
            cur = String::new();
            proof {
                assert(out.deep_view() + candidates_from(content@.skip(i + 1), cur@)
                    =~= pattern_lines(content@));
            }
        } else {
            cur.push(c);
        }
        i += 1;
    }
    proof {
        assert(content@.skip(n as int) =~= Seq::<char>::empty());
    }
    push_finished_line(&mut out, &cur);
    proof {
        assert(out.deep_view() =~= pattern_lines(content@));
    }
    out
}

/// The patterns among `lines` that are valid glob syntax, in order.
pub open spec fn valid_patterns(lines: Seq<Seq<char>>) -> Seq<Seq<char>>
    decreases lines.len(),
{
    if lines.len() == 0 {
        Seq::<Seq<char>>::empty()
    } else {
        (if glob_syntax_ok(lines[0]) {
            seq![lines[0]]
        } else {
            Seq::<Seq<char>>::empty()
        }) + valid_patterns(lines.skip(1))
    }
}

/// Adds every valid glob among `lines` to the builder; lines that fail to
/// parse as globs are skipped rather than failing the run.
fn add_candidates(b: &mut globset::GlobSetBuilder, lines: &Vec<String>)
    ensures
        builder_patterns(*final(b)) == builder_patterns(*old(b)) + valid_patterns(
            lines.deep_view(),
        ),
{
    let ghost lv = lines.deep_view();
    let mut i: usize = 0;
    proof {
        assert(lv.skip(0) =~= lv);
        assert(builder_patterns(*b) + valid_patterns(lv) =~= builder_patterns(*old(b))
            + valid_patterns(lv));
    }
    while i < lines.len()
        invariant
            lv == lines.deep_view(),
            i <= lines.len(),
            lines.len() == lv.len(),
            builder_patterns(*b) + valid_patterns(lv.skip(i as int)) == builder_patterns(*old(b))
                + valid_patterns(lv),
        decreases lines.len() - i,
    {
        let ghost rest = lv.skip(i as int);
        proof {
            assert(rest[0] == lv[i as int]);
            assert(rest.skip(1) =~= lv.skip(i + 1));
            assert(lv[i as int] == lines[i as int]@);
        }
        let line: &String = &lines[i];
        match glob_new(line.as_str()) {
            Some(g) => {
                globset_builder_add(b, g);
                proof {
                    assert(builder_patterns(*b) + valid_patterns(lv.skip(i + 1))
                        =~= builder_patterns(*old(b)) + valid_patterns(lv));
                }
            },
            None => {
                proof {
                    assert(valid_patterns(rest) =~= valid_patterns(lv.skip(i + 1)));
                }
            },
        }
        i += 1;
    }
    proof {
        assert(lv.skip(lines.len() as int) =~= Seq::<Seq<char>>::empty());
        assert(builder_patterns(*b) =~= builder_patterns(*b) + valid_patterns(
            lv.skip(lines.len() as int),
        ));
    }
}

/// View of an optional source text.
pub open spec fn opt_text(o: Option<&str>) -> Option<Seq<char>> {
    match o {
        Some(s) => Some(s@),
        None => None,
    }
}

/// The patterns a compiled set holds for the given sources: the valid
/// candidates of the required global source followed by those of the
/// optional repository-local override.
pub open spec fn compiled_patterns(global: Seq<char>, local: Option<Seq<char>>) -> Seq<Seq<char>> {
    valid_patterns(pattern_lines(global)) + (match local {
        Some(l) => valid_patterns(pattern_lines(l)),
        None => Seq::<Seq<char>>::empty(),
    })
}

/// Whether an error report opens with the failed-build prefix.
pub open spec fn build_failure_report(m: Seq<char>) -> bool {
    &&& m.len() >= "Failed to build ignore patterns: "@.len()
    &&& m.subrange(0, "Failed to build ignore patterns: "@.len() as int)
        == "Failed to build ignore patterns: "@
}

/// Compiles the ignore-pattern set for one sanitization run.  The global
/// source is required: without it the run fails with a configuration error.
/// The repository-local override is optional.  Invalid glob lines are
/// skipped, never fatal; with the sources present, the run fails exactly
/// when globset cannot build a set over the valid candidate patterns.
pub fn compile_patterns(global: Option<&str>, local: Option<&str>) -> (r: Result<
    globset::GlobSet,
    RepositoryError,
>)
    ensures
        global is None ==> (r matches Err(e) && e matches RepositoryError::Configuration(m)
            && m@ == "Required global ignore file is missing or unreadable"@),
        r matches Ok(s) ==> global is Some && globset_patterns(s) == compiled_patterns(
            global.unwrap()@,
            opt_text(local),
        ),
        global matches Some(g) ==> ((r is Err) <==> globset_build_fails(
            compiled_patterns(g@, opt_text(local)),
        )),
        global is Some && r is Err ==> (r matches Err(e)
            && e matches RepositoryError::Sanitization(m) && build_failure_report(m@)),
{
    let global_content = match global {
        None => {
            return Err(
                RepositoryError::Configuration(
                    String::from_str("Required global ignore file is missing or unreadable"),
                ),
            );
        },
        Some(g) => g,
    };
    let mut b = globset_builder_new();
    let global_lines = pattern_candidates(global_content);
    add_candidates(&mut b, &global_lines);
    proof {
        assert(Seq::<Seq<char>>::empty() + valid_patterns(pattern_lines(global_content@))
            =~= valid_patterns(pattern_lines(global_content@)));
    }
    match local {
        Some(l) => {
            let local_lines = pattern_candidates(l);
            add_candidates(&mut b, &local_lines);
            proof {
                assert(builder_patterns(b) =~= compiled_patterns(
                    global_content@,
                    opt_text(local),
                ));
            }
        },
        None => {
            proof {
                assert(valid_patterns(pattern_lines(global_content@)) =~= compiled_patterns(
                    global_content@,
                    opt_text(local),
                ));
            }
        },
    }
    match globset_builder_build(&b) {
        Ok(s) => Ok(s),
        Err(m) => {
            let msg = String::from_str("Failed to build ignore patterns: ").concat(m.as_str());
            proof {
                assert(msg@.subrange(0, "Failed to build ignore patterns: "@.len() as int)
                    =~= "Failed to build ignore patterns: "@);
            }
            Err(RepositoryError::Sanitization(msg))
        },
    }
}

/// Whether a relative path is ignored by the pattern set: some pattern
/// matches the path as written or with a trailing separator appended.
pub open spec fn ignored_path(pats: Seq<Seq<char>>, path: Seq<char>) -> bool {
    any_glob_matches(pats, path) || any_glob_matches(pats, path.push('/'))
}

/// Tests whether the path relative to the clone root matches the compiled
/// set, in either its plain or its directory-style (trailing separator)
/// form.
pub fn should_ignore_path(set: &globset::GlobSet, rel: &str) -> (r: bool)
    ensures
        r == ignored_path(globset_patterns(*set), rel@),
{
    let ghost pats = globset_patterns(*set);
    let direct = globset_is_match(set, rel);
    let with_slash: String = rel.to_owned().concat("/");
    proof {
        reveal_strlit("/");
        assert("/"@ =~= seq!['/']);
        assert(with_slash@ =~= rel@.push('/'));
    }
    let slashed = globset_is_match(set, with_slash.as_str());
    direct || slashed
}

} // verus!
