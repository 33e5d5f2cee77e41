use vstd::prelude::*;
use vstd::string::StrSliceExecFns;
use vstd::string::StringExecFns;

verus! {

/// The placeholder token replaced during expansion of path-bearing
/// configuration fields.
pub open spec fn devroot_token() -> Seq<char> {
    "$(devroot)"@
}

/// Whether the `$(devroot)` token stands at position `i` of `s`.
pub open spec fn token_at_pos(s: Seq<char>, i: int) -> bool {
    s.subrange(i, i + 10) == devroot_token()
}

/// `s` with every occurrence of `$(devroot)` replaced by `d`, in one
/// left-to-right pass. The replacement text is not rescanned: a token
/// inside `d` survives.
pub open spec fn spec_substitute(s: Seq<char>, d: Seq<char>) -> Seq<char>
    decreases s.len(),
{
    if s.len() >= 10 && token_at_pos(s, 0) {
        d + spec_substitute(s.subrange(10, s.len() as int), d)
    } else if s.len() > 0 {
        seq![s[0]] + spec_substitute(s.subrange(1, s.len() as int), d)
    } else {
        Seq::<char>::empty()
    }
}

/// `s` holds no occurrence of the `$(devroot)` token.
pub open spec fn token_free(s: Seq<char>) -> bool {
    forall|i: int| 0 <= i && i + 10 <= s.len() ==> !#[trigger] token_at_pos(s, i)
}

/// Substitution leaves a token-free string unchanged.
pub proof fn lemma_substitute_token_free(s: Seq<char>, d: Seq<char>)
    requires
        token_free(s),
    ensures
        spec_substitute(s, d) == s,
    decreases s.len(),
{
    if s.len() >= 10 && token_at_pos(s, 0) {
        assert(!token_at_pos(s, 0));
    } else if s.len() > 0 {
        let rest = s.subrange(1, s.len() as int);
        assert forall|i: int| 0 <= i && i + 10 <= rest.len() implies !#[trigger] token_at_pos(
            rest,
            i,
        ) by {
            assert(rest.subrange(i, i + 10) =~= s.subrange(i + 1, i + 1 + 10));
            assert(!token_at_pos(s, i + 1));
        }
        lemma_substitute_token_free(rest, d);
        assert(seq![s[0]] + rest =~= s);
    } else {
        assert(spec_substitute(s, d) =~= s);
    }
}

/// Substitution is idempotent on a token-free string: expanding what a
/// first expansion produced changes nothing.
pub proof fn lemma_substitute_idempotent(s: Seq<char>, d: Seq<char>)
    requires
        token_free(s),
    ensures
        spec_substitute(spec_substitute(s, d), d) == spec_substitute(s, d),
{
    lemma_substitute_token_free(s, d);
}

/// Whether the token stands at position `i` of `s`.
fn token_at(s: &str, i: usize) -> (r: bool)
    requires
        i + 10 <= s@.len(),
        s@.len() <= usize::MAX,
    ensures
        r == token_at_pos(s@, i as int),
{
    proof {
        reveal_strlit("$(devroot)");
    }
    let r = s.get_char(i) == '$' && s.get_char(i + 1) == '(' && s.get_char(i + 2) == 'd'
        && s.get_char(i + 3) == 'e' && s.get_char(i + 4) == 'v' && s.get_char(i + 5) == 'r'
        && s.get_char(i + 6) == 'o' && s.get_char(i + 7) == 'o' && s.get_char(i + 8) == 't'
        && s.get_char(i + 9) == ')';
    proof {
        let w = s@.subrange(i as int, i as int + 10);
        if r {
            assert(w =~= devroot_token());
        } else {
            if token_at_pos(s@, i as int) {
                assert forall|j: int| 0 <= j < 10 implies s@[i as int + j]
                    == #[trigger] devroot_token()[j] by {
                    assert(w[j] == s@[i as int + j]);
                }
                assert(s@[i as int + 0] == devroot_token()[0] && devroot_token()[0] == '$');
                assert(s@[i as int + 1] == devroot_token()[1] && devroot_token()[1] == '(');
                assert(s@[i as int + 2] == devroot_token()[2] && devroot_token()[2] == 'd');
                assert(s@[i as int + 3] == devroot_token()[3] && devroot_token()[3] == 'e');
                assert(s@[i as int + 4] == devroot_token()[4] && devroot_token()[4] == 'v');
                assert(s@[i as int + 5] == devroot_token()[5] && devroot_token()[5] == 'r');
                assert(s@[i as int + 6] == devroot_token()[6] && devroot_token()[6] == 'o');
                assert(s@[i as int + 7] == devroot_token()[7] && devroot_token()[7] == 'o');
                assert(s@[i as int + 8] == devroot_token()[8] && devroot_token()[8] == 't');
                assert(s@[i as int + 9] == devroot_token()[9] && devroot_token()[9] == ')');
            }
        }
    }
    r
}

/// At a position where the token stands, substitution of the remainder
/// emits `d` and goes on past the token.
proof fn lemma_step_token(s: Seq<char>, d: Seq<char>, i: int)
    requires
        0 <= i,
        i + 10 <= s.len(),
        token_at_pos(s, i),
    ensures
        spec_substitute(s.subrange(i, s.len() as int), d) == d + spec_substitute(
            s.subrange(i + 10, s.len() as int),
            d,
        ),
{
    let t = s.subrange(i, s.len() as int);
    assert(t.subrange(0int, 0int + 10) =~= s.subrange(i, i + 10));
    assert(token_at_pos(t, 0));
    assert(t.subrange(10, t.len() as int) =~= s.subrange(i + 10, s.len() as int));
}

/// At a position where the token does not stand, substitution of the
/// remainder keeps the character there.
proof fn lemma_step_char(s: Seq<char>, d: Seq<char>, i: int)
    requires
        0 <= i < s.len(),
        i + 10 <= s.len() ==> !token_at_pos(s, i),
    ensures
        spec_substitute(s.subrange(i, s.len() as int), d) == s.subrange(i, i + 1)
            + spec_substitute(s.subrange(i + 1, s.len() as int), d),
{
    let t = s.subrange(i, s.len() as int);
    if t.len() >= 10 && token_at_pos(t, 0) {
        assert(t.subrange(0int, 0int + 10) =~= s.subrange(i, i + 10));
        assert(token_at_pos(s, i));
        assert(false);
    }
    assert(seq![t[0]] =~= s.subrange(i, i + 1));
    assert(t.subrange(1, t.len() as int) =~= s.subrange(i + 1, s.len() as int));
}

/// Replaces every occurrence of the `$(devroot)` token in `path` with
/// `devroot`, in one left-to-right pass.
pub fn substitute_devroot(path: &str, devroot: &str) -> (r: String)
    ensures
        r@ == spec_substitute(path@, devroot@),
{
    let n = path.unicode_len();
    let mut out = String::new();
    let mut i: usize = 0;
    proof {
        assert(path@.subrange(0, n as int) =~= path@);
        assert(out@ + spec_substitute(path@, devroot@) =~= spec_substitute(path@, devroot@));
    }
    while i < n
        invariant
            i <= n,
            n == path@.len(),
            spec_substitute(path@, devroot@) == out@ + spec_substitute(
                path@.subrange(i as int, n as int),
                devroot@,
            ),
        decreases n - i,
    {
        if n - i >= 10 && token_at(path, i) {
            proof {
                lemma_step_token(path@, devroot@, i as int);
                assert((out@ + devroot@) + spec_substitute(
                    path@.subrange(i as int + 10, n as int),
                    devroot@,
                ) =~= out@ + (devroot@ + spec_substitute(
                    path@.subrange(i as int + 10, n as int),
                    devroot@,
                )));
            }
            out.append(devroot);
            i = i + 10;
        } else {
            let c = path.substring_char(i, i + 1);
            proof {
                lemma_step_char(path@, devroot@, i as int);
                assert((out@ + c@) + spec_substitute(
                    path@.subrange(i as int + 1, n as int),
                    devroot@,
                ) =~= out@ + (c@ + spec_substitute(
                    path@.subrange(i as int + 1, n as int),
                    devroot@,
                )));
            }
            out.append(c);
            i = i + 1;
        }
    }
    proof {
        assert(path@.subrange(n as int, n as int) =~= Seq::<char>::empty());
        assert(out@ + Seq::<char>::empty() =~= out@);
    }
    out
}

/// The development root to substitute: the `DEVROOT` environment
/// variable's value where one was set, and `.` — the current
/// directory — where none was. An unset variable is a deliberate
/// default, not an error.
pub fn devroot_or_default(env_value: Option<String>) -> (r: String)
    ensures
        env_value matches Some(v) ==> r@ == v@,
        env_value is None ==> r@ == "."@,
{
    match env_value {
        Some(v) => v,
        None => ".".to_owned(),
    }
}

/// Picks the expanded form once canonicalization has been attempted:
/// the canonical absolute path where the attempt succeeded, and the
/// substituted string unchanged where it failed. Expansion is
/// best-effort; existence checking belongs to the caller.
pub fn finish_expansion(substituted: String, canonical: Option<String>) -> (r: String)
    ensures
        canonical matches Some(c) ==> r@ == c@,
        canonical is None ==> r@ == substituted@,
{
    match canonical {
        Some(c) => c,
        None => substituted,
    }
}

} // verus!
