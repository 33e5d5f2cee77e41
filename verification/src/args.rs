use vstd::prelude::*;
use vstd::string::StringExecFns;
use crate::config::{BinSettings, Configuration, RuntimeOptions};

verus! {

/// A boolean rendered in its canonical string form.
pub open spec fn spec_bool_str(b: bool) -> Seq<char> {
    if b {
        "true"@
    } else {
        "false"@
    }
}

/// The single token a boot-argument pair becomes.
pub open spec fn spec_bootarg_token(k: Seq<char>, v: Seq<char>) -> Seq<char> {
    "--"@ + k + "="@ + v
}

/// The tokens for the boot-argument pairs, one per pair, in the order
/// the pairs are given.
pub open spec fn spec_bootarg_tokens(pairs: Seq<(Seq<char>, Seq<char>)>) -> Seq<Seq<char>> {
    pairs.map(|i: int, p: (Seq<char>, Seq<char>)| spec_bootarg_token(p.0, p.1))
}

/// The tokens one optional switch becomes: the flag's name and the
/// boolean's canonical string where present, nothing where absent.
pub open spec fn spec_flag_tokens(name: Seq<char>, v: Option<bool>) -> Seq<Seq<char>> {
    match v {
        Some(b) => seq![name, spec_bool_str(b)],
        None => Seq::<Seq<char>>::empty(),
    }
}

/// The tokens of the `[bin]` switches, in their fixed order: 32bit,
/// universal, 64bit.
pub open spec fn spec_bin_tokens(bin: BinSettings) -> Seq<Seq<char>> {
    spec_flag_tokens("--allow-32bit"@, bin.allow_32bit) + spec_flag_tokens(
        "--allow-universal"@,
        bin.allow_universal,
    ) + spec_flag_tokens("--allow-64bit"@, bin.allow_64bit)
}

/// The two leading root arguments.
pub open spec fn spec_root_tokens(c: Configuration) -> Seq<Seq<char>> {
    seq!["--kern-root"@, c.main.kern_root@, "--user-root"@, c.main.user_root@]
}

/// The tokens of the runtime boot string, where one was given.
pub open spec fn spec_boot_string_tokens(o: RuntimeOptions) -> Seq<Seq<char>> {
    match o.boot_string {
        Some(b) => seq!["--boot-string"@, b@],
        None => Seq::<Seq<char>>::empty(),
    }
}

/// The trailing debug flag, where debug mode is on.
pub open spec fn spec_debug_tokens(o: RuntimeOptions) -> Seq<Seq<char>> {
    if o.debug {
        seq!["--debug"@]
    } else {
        Seq::<Seq<char>>::empty()
    }
}

/// The whole argument list for the guest runtime, in its fixed order:
/// kernel and user roots first, then the boot-argument pairs in
/// declaration order, then the `[bin]` switches in their fixed order,
/// then the boot string where given, then the debug flag where set.
pub open spec fn spec_build(c: Configuration, o: RuntimeOptions) -> Seq<Seq<char>> {
    spec_root_tokens(c) + spec_bootarg_tokens(c.bootargs.deep_view()) + spec_bin_tokens(c.bin)
        + spec_boot_string_tokens(o) + spec_debug_tokens(o)
}

/// Appends one token.
fn push_token(out: &mut Vec<String>, tok: String)
    ensures
        final(out).deep_view() == old(out).deep_view().push(tok@),
{
    let ghost t: Seq<char> = tok@;
    let ghost prev = out.deep_view();
    out.push(tok);
    proof {
        assert(out.deep_view() =~= prev.push(t));
    }
}

/// A boolean's canonical string form.
fn bool_string(b: bool) -> (r: String)
    ensures
        r@ == spec_bool_str(b),
{
    if b {
        "true".to_owned()
    } else {
        "false".to_owned()
    }
}

/// Appends one optional switch: its name and rendered boolean where
/// present, nothing where absent.
fn push_flag(out: &mut Vec<String>, name: &str, v: &Option<bool>)
    ensures
        final(out).deep_view() == old(out).deep_view() + spec_flag_tokens(name@, *v),
{
    let ghost prev = out.deep_view();
    match v {
        Some(b) => {
            push_token(out, name.to_owned());
            push_token(out, bool_string(*b));
            proof {
                assert(out.deep_view() =~= prev + spec_flag_tokens(name@, Some(*b)));
            }
        },
        None => {
            proof {
                assert(out.deep_view() =~= prev + spec_flag_tokens(name@, None::<bool>));
            }
        },
    }
}

/// Builds the guest runtime's argument list from a validated
/// configuration and the runtime options. Pure and deterministic: the
/// result is exactly `spec_build` of the inputs, so identical inputs
/// give identical lists.
pub fn build(c: &Configuration, o: &RuntimeOptions) -> (r: Vec<String>)
    ensures
        r.deep_view() == spec_build(*c, *o),
{
    let mut out: Vec<String> = Vec::new();
    push_token(&mut out, "--kern-root".to_owned());
    push_token(&mut out, c.main.kern_root.clone());
    push_token(&mut out, "--user-root".to_owned());
    push_token(&mut out, c.main.user_root.clone());
    proof {
        assert(out.deep_view() =~= spec_root_tokens(*c));
    }
    let ghost bav: Seq<(Seq<char>, Seq<char>)> = c.bootargs.deep_view();
    let mut i: usize = 0;
    proof {
        assert(spec_bootarg_tokens(bav.take(0)) =~= Seq::<Seq<char>>::empty());
        assert(out.deep_view() + Seq::<Seq<char>>::empty() =~= out.deep_view());
    }
    while i < c.bootargs.len()
        invariant
            i <= c.bootargs@.len(),
            bav == c.bootargs.deep_view(),
            out.deep_view() == spec_root_tokens(*c) + spec_bootarg_tokens(bav.take(i as int)),
        decreases c.bootargs@.len() - i,
    {
        let pair = &c.bootargs[i];
        let mut tok = "--".to_owned();
        tok.append(pair.0.as_str());
        tok.append("=");
        tok.append(pair.1.as_str());
        proof {
            assert(bav[i as int] == (c.bootargs@[i as int].0@, c.bootargs@[i as int].1@));
            assert(tok@ == spec_bootarg_token(bav[i as int].0, bav[i as int].1));
        }
        push_token(&mut out, tok);
        proof {
            assert(spec_bootarg_tokens(bav.take(i as int + 1)) =~= spec_bootarg_tokens(
                bav.take(i as int),
            ).push(spec_bootarg_token(bav[i as int].0, bav[i as int].1)));
            assert(out.deep_view() =~= spec_root_tokens(*c) + spec_bootarg_tokens(
                bav.take(i as int + 1),
            ));
        }
        i = i + 1;
    }
    proof {
        assert(bav.take(c.bootargs@.len() as int) =~= bav);
    }
    push_flag(&mut out, "--allow-32bit", &c.bin.allow_32bit);
    push_flag(&mut out, "--allow-universal", &c.bin.allow_universal);
    push_flag(&mut out, "--allow-64bit", &c.bin.allow_64bit);
    match &o.boot_string {
        Some(b) => {
            push_token(&mut out, "--boot-string".to_owned());
            push_token(&mut out, b.clone());
        },
        None => {},
    }
    if o.debug {
        push_token(&mut out, "--debug".to_owned());
    }
    proof {
        assert(out.deep_view() =~= spec_build(*c, *o));
    }
    out
}

/// The builder is pure: two argument lists built from the same
/// configuration and options are identical, token for token, because
/// each equals `spec_build` of the inputs.
pub proof fn lemma_build_deterministic(
    c: Configuration,
    o: RuntimeOptions,
    r1: Seq<Seq<char>>,
    r2: Seq<Seq<char>>,
)
    requires
        r1 == spec_build(c, o),
        r2 == spec_build(c, o),
    ensures
        r1 == r2,
{
}

/// Boot arguments keep their declaration order: the token built from
/// pair `i` stands at position `4 + i` of the argument list, directly
/// after the two root arguments, so a pair declared before another
/// comes out before it.
pub proof fn lemma_bootargs_order(c: Configuration, o: RuntimeOptions, i: int)
    requires
        0 <= i < c.bootargs.deep_view().len(),
    ensures
        spec_build(c, o).len() >= 4 + c.bootargs.deep_view().len(),
        spec_build(c, o)[4 + i] == spec_bootarg_token(
            c.bootargs.deep_view()[i].0,
            c.bootargs.deep_view()[i].1,
        ),
{
    let head = spec_root_tokens(c);
    let toks = spec_bootarg_tokens(c.bootargs.deep_view());
    assert(head.len() == 4);
    assert((head + toks)[4 + i] == toks[i]);
}

} // verus!
