//! The build plan compiler: renders a build configuration into its
//! canonical ordered token sequence, and parses such a sequence back into
//! an equal configuration. Rendering elides defaults (the address
//! sanitizer, the host target triple) and emits every boolean flag iff it
//! is set; parsing is the exact inverse on well-formed configurations.

use vstd::prelude::*;

use crate::options::{
    BuildConfigView, BuildOptions, CargoBuildOptions, CargoConfigView, Sanitizer,
    default_build_view, features_exclusive,
};
use crate::strutil::{is_prefix_of, suffix_from, str_eq, str_starts_with, str_suffix, str_concat};

verus! {

/// The tokens a boolean flag contributes: one when set, none otherwise.
pub open spec fn flag_tokens(b: bool, t: Seq<char>) -> Seq<Seq<char>> {
    if b {
        seq![t]
    } else {
        seq![]
    }
}

/// The tokens an optional value contributes: its prefixed form when
/// present, none otherwise.
pub open spec fn opt_tokens(o: Option<Seq<char>>, prefix: Seq<char>) -> Seq<Seq<char>> {
    match o {
        Option::Some(v) => seq![prefix + v],
        Option::None => seq![],
    }
}

/// The tokens the sanitizer selection contributes: nothing for the implicit
/// `Address` default, an explicit `none` when disabled, the name otherwise.
pub open spec fn sanitizer_tokens(s: Sanitizer) -> Seq<Seq<char>> {
    match s {
        Sanitizer::Address => seq![],
        Sanitizer::Disabled => seq!["--sanitizer=none"@],
        _ => seq!["--sanitizer="@ + s.text_spec()],
    }
}

/// The tokens of the unstable flag list, one prefixed token per flag, in
/// the original order.
pub open spec fn unstable_tokens(flags: Seq<Seq<char>>) -> Seq<Seq<char>> {
    flags.map_values(|f: Seq<char>| "-Z"@ + f)
}

/// The tokens the target triple contributes: none when it equals the host
/// default, the explicit form otherwise.
pub open spec fn target_tokens(triple: Seq<char>, host: Seq<char>) -> Seq<Seq<char>> {
    if triple == host {
        seq![]
    } else {
        seq!["--target="@ + triple]
    }
}

/// The canonical token sequence of a cargo flag record.
pub open spec fn render_cargo_spec(c: CargoConfigView, host: Seq<char>) -> Seq<Seq<char>> {
    sanitizer_tokens(c.sanitizer) + flag_tokens(c.release, "-O"@) + flag_tokens(
        c.debug_assertions,
        "--debug-assertions"@,
    ) + flag_tokens(c.build_std, "--build-std"@) + flag_tokens(c.careful_mode, "--careful"@)
        + flag_tokens(c.coverage, "--coverage"@) + flag_tokens(
        c.strip_dead_code,
        "--strip-dead-code"@,
    ) + flag_tokens(c.no_cfg_fuzzing, "--no-cfg-fuzzing"@) + flag_tokens(
        c.no_trace_compares,
        "--no-trace-compares"@,
    ) + flag_tokens(c.no_default_features, "--no-default-features"@) + flag_tokens(
        c.all_features,
        "--all-features"@,
    ) + opt_tokens(c.features, "--features="@) + target_tokens(c.triple, host) + opt_tokens(
        c.cargo_home,
        "--cargo-home="@,
    ) + opt_tokens(c.cargo_target_dir, "--cargo-target-dir="@) + unstable_tokens(c.unstable_flags)
}

/// The canonical token sequence of a build option record: the cargo tokens
/// followed by the development-mode and verbose flags.
pub open spec fn render_build_spec(b: BuildConfigView, host: Seq<char>) -> Seq<Seq<char>> {
    render_cargo_spec(b.cargo_options, host) + flag_tokens(b.dev, "-D"@) + flag_tokens(
        b.verbose,
        "-v"@,
    )
}

/// Pushing onto a token vector appends the pushed view to its deep view.
pub proof fn lemma_deep_push(v: Vec<String>, prev: Seq<String>, prevdeep: Seq<Seq<char>>, x: String)
    requires
        v@ == prev.push(x),
        prevdeep.len() == prev.len(),
        forall|i: int| 0 <= i < prev.len() ==> prevdeep[i] == prev[i]@,
    ensures
        v.deep_view() =~= prevdeep.push(x@),
{
    assert forall|i: int| 0 <= i < v.deep_view().len() implies v.deep_view()[i] == prevdeep.push(
        x@,
    )[i] by {
        if i < prev.len() {
            assert(v@[i] == prev[i]);
        } else {
            assert(v@[i] == x);
        }
    }
}

/// Appends the single token of a set boolean flag.
fn push_flag(v: &mut Vec<String>, b: bool, t: &str)
    ensures
        final(v).deep_view() == old(v).deep_view() + flag_tokens(b, t@),
{
    if b {
        let tok = String::from_str(t);
        let ghost before = v@;
        let ghost beforedeep = v.deep_view();
        v.push(tok);
        proof {
            lemma_deep_push(*v, before, beforedeep, v@[before.len() as int]);
            assert(v.deep_view() =~= old(v).deep_view() + flag_tokens(b, t@));
        }
    } else {
        proof {
            assert(v.deep_view() =~= old(v).deep_view() + flag_tokens(b, t@));
        }
    }
}

/// Appends the prefixed token of a present optional value.
fn push_opt(v: &mut Vec<String>, o: &Option<String>, prefix: &str)
    ensures
        final(v).deep_view() == old(v).deep_view() + opt_tokens(o.deep_view(), prefix@),
{
    match o {
        Option::Some(s) => {
            let tok = str_concat(prefix, s.as_str());
            let ghost before = v@;
            let ghost beforedeep = v.deep_view();
            v.push(tok);
            proof {
                lemma_deep_push(*v, before, beforedeep, v@[before.len() as int]);
                assert(v.deep_view() =~= old(v).deep_view() + opt_tokens(o.deep_view(), prefix@));
            }
        },
        Option::None => {
            proof {
                assert(v.deep_view() =~= old(v).deep_view() + opt_tokens(o.deep_view(), prefix@));
            }
        },
    }
}

/// Appends the sanitizer tokens of a selection.
fn push_sanitizer(v: &mut Vec<String>, s: Sanitizer)
    ensures
        final(v).deep_view() == old(v).deep_view() + sanitizer_tokens(s),
{
    match s {
        Sanitizer::Address => {
            proof {
                assert(v.deep_view() =~= old(v).deep_view() + sanitizer_tokens(s));
            }
        },
        Sanitizer::Disabled => {
            let tok = String::from_str("--sanitizer=none");
            let ghost before = v@;
            let ghost beforedeep = v.deep_view();
            v.push(tok);
            proof {
                lemma_deep_push(*v, before, beforedeep, v@[before.len() as int]);
                assert(v.deep_view() =~= old(v).deep_view() + sanitizer_tokens(s));
            }
        },
        _ => {
            let name = s.text();
            let tok = str_concat("--sanitizer=", name.as_str());
            let ghost before = v@;
            let ghost beforedeep = v.deep_view();
            v.push(tok);
            proof {
                lemma_deep_push(*v, before, beforedeep, v@[before.len() as int]);
                assert(v.deep_view() =~= old(v).deep_view() + sanitizer_tokens(s));
            }
        },
    }
}

/// Appends the target triple token when the triple differs from the host.
fn push_target(v: &mut Vec<String>, triple: &String, host_triple: &str)
    ensures
        final(v).deep_view() == old(v).deep_view() + target_tokens(triple@, host_triple@),
{
    if !str_eq(triple.as_str(), host_triple) {
        let tok = str_concat("--target=", triple.as_str());
        let ghost before = v@;
        let ghost beforedeep = v.deep_view();
        v.push(tok);
        proof {
            lemma_deep_push(*v, before, beforedeep, v@[before.len() as int]);
            assert(v.deep_view() =~= old(v).deep_view() + target_tokens(triple@, host_triple@));
        }
    } else {
        proof {
            assert(v.deep_view() =~= old(v).deep_view() + target_tokens(triple@, host_triple@));
        }
    }
}

/// Appends one prefixed token per unstable flag, in order.
fn push_unstable(v: &mut Vec<String>, flags: &Vec<String>)
    ensures
        final(v).deep_view() == old(v).deep_view() + unstable_tokens(flags.deep_view()),
{
    let ghost s1 = v.deep_view();
    let mut i: usize = 0;
    while i < flags.len()
        invariant
            i <= flags.len(),
            v.deep_view() == s1 + unstable_tokens(flags.deep_view().take(i as int)),
        decreases flags.len() - i,
    {
        let tok = str_concat("-Z", flags[i].as_str());
        let ghost before = v@;
        let ghost beforedeep = v.deep_view();
        v.push(tok);
        proof {
            lemma_deep_push(*v, before, beforedeep, v@[before.len() as int]);
            let fs = flags.deep_view();
            assert(fs[i as int] == flags[i as int]@);
            assert(unstable_tokens(fs.take(i + 1)) =~= unstable_tokens(fs.take(i as int)).push(
                "-Z"@ + fs[i as int],
            ));
            assert(v.deep_view() =~= s1 + unstable_tokens(fs.take(i + 1)));
        }
        i = i + 1;
    }
    proof {
        let fs = flags.deep_view();
        assert(fs.take(fs.len() as int) =~= fs);
        assert(v.deep_view() =~= old(v).deep_view() + unstable_tokens(fs));
    }
}

impl CargoBuildOptions {
    /// Renders this record into its canonical token sequence, given the
    /// host's default target triple.
    #[verifier::rlimit(60)]
    pub fn render_tokens(&self, host_triple: &str) -> (r: Vec<String>)
        ensures
            r.deep_view() == render_cargo_spec(self@, host_triple@),
    {
        let mut v: Vec<String> = Vec::new();
        proof {
            assert(v.deep_view() =~= Seq::<Seq<char>>::empty());
        }
        push_sanitizer(&mut v, self.sanitizer);
        proof {
            assert(v.deep_view() =~= sanitizer_tokens(self@.sanitizer));
        }
        push_flag(&mut v, self.release, "-O");
        push_flag(&mut v, self.debug_assertions, "--debug-assertions");
        push_flag(&mut v, self.build_std, "--build-std");
        push_flag(&mut v, self.careful_mode, "--careful");
        push_flag(&mut v, self.coverage, "--coverage");
        push_flag(&mut v, self.strip_dead_code, "--strip-dead-code");
        push_flag(&mut v, self.no_cfg_fuzzing, "--no-cfg-fuzzing");
        push_flag(&mut v, self.no_trace_compares, "--no-trace-compares");
        push_flag(&mut v, self.no_default_features, "--no-default-features");
        push_flag(&mut v, self.all_features, "--all-features");
        push_opt(&mut v, &self.features, "--features=");
        push_target(&mut v, &self.triple, host_triple);
        push_opt(&mut v, &self.cargo_home, "--cargo-home=");
        push_opt(&mut v, &self.cargo_target_dir, "--cargo-target-dir=");
        push_unstable(&mut v, &self.unstable_flags);
        proof {
            assert(v.deep_view() =~= render_cargo_spec(self@, host_triple@));
        }
        v
    }
}

impl BuildOptions {
    /// Renders this record into its canonical token sequence, given the
    /// host's default target triple.
    pub fn render_tokens(&self, host_triple: &str) -> (r: Vec<String>)
        ensures
            r.deep_view() == render_build_spec(self@, host_triple@),
    {
        let mut v = self.cargo_options.render_tokens(host_triple);
        push_flag(&mut v, self.dev, "-D");
        push_flag(&mut v, self.verbose, "-v");
        proof {
            assert(v.deep_view() =~= render_build_spec(self@, host_triple@));
        }
        v
    }
}

/// Why a token sequence fails to parse.
#[derive(Copy, Clone, Debug, Eq, PartialEq, Structural)]
pub enum ParseError {
    /// A token matches no form of the grammar.
    UnknownToken,
    /// A sanitizer flag names no known sanitizer kind.
    InvalidSanitizer,
    /// Mutually exclusive flags were both set.
    ConflictingFlags,
}

/// The syntactic class of one token.
pub ghost enum TokenKind {
    FeaturesVal(Seq<char>),
    SanitizerVal(Seq<char>),
    TargetVal(Seq<char>),
    CargoHomeVal(Seq<char>),
    CargoTargetDirVal(Seq<char>),
    UnstableVal(Seq<char>),
    Release,
    DebugAssertions,
    BuildStd,
    Careful,
    CoverageFlag,
    StripDeadCode,
    NoCfgFuzzing,
    NoTraceCompares,
    NoDefaultFeatures,
    AllFeatures,
    Dev,
    Verbose,
    Unknown,
}

/// Classifies one token of the plan grammar: the prefixed value forms
/// first, then the bare flags.
#[verifier::opaque]
pub open spec fn classify(t: Seq<char>) -> TokenKind {
    if is_prefix_of("--features="@, t) {
        TokenKind::FeaturesVal(suffix_from(t, "--features="@.len() as int))
    } else if is_prefix_of("--sanitizer="@, t) {
        TokenKind::SanitizerVal(suffix_from(t, "--sanitizer="@.len() as int))
    } else if is_prefix_of("--target="@, t) {
        TokenKind::TargetVal(suffix_from(t, "--target="@.len() as int))
    } else if is_prefix_of("--cargo-home="@, t) {
        TokenKind::CargoHomeVal(suffix_from(t, "--cargo-home="@.len() as int))
    } else if is_prefix_of("--cargo-target-dir="@, t) {
        TokenKind::CargoTargetDirVal(suffix_from(t, "--cargo-target-dir="@.len() as int))
    } else if is_prefix_of("-Z"@, t) {
        TokenKind::UnstableVal(suffix_from(t, "-Z"@.len() as int))
    } else if t == "-O"@ {
        TokenKind::Release
    } else if t == "-D"@ {
        TokenKind::Dev
    } else if t == "-v"@ {
        TokenKind::Verbose
    } else if t == "--debug-assertions"@ {
        TokenKind::DebugAssertions
    } else if t == "--build-std"@ {
        TokenKind::BuildStd
    } else if t == "--careful"@ {
        TokenKind::Careful
    } else if t == "--coverage"@ {
        TokenKind::CoverageFlag
    } else if t == "--strip-dead-code"@ {
        TokenKind::StripDeadCode
    } else if t == "--no-cfg-fuzzing"@ {
        TokenKind::NoCfgFuzzing
    } else if t == "--no-trace-compares"@ {
        TokenKind::NoTraceCompares
    } else if t == "--no-default-features"@ {
        TokenKind::NoDefaultFeatures
    } else if t == "--all-features"@ {
        TokenKind::AllFeatures
    } else {
        TokenKind::Unknown
    }
}

/// The effect of one token on a configuration under construction.
#[verifier::opaque]
pub open spec fn apply_token(b: BuildConfigView, t: Seq<char>) -> Result<
    BuildConfigView,
    ParseError,
> {
    match classify(t) {
        TokenKind::FeaturesVal(v) => Result::Ok(
            (BuildConfigView {
                cargo_options: CargoConfigView { features: Option::Some(v), ..b.cargo_options },
                ..b
            }),
        ),
        TokenKind::SanitizerVal(v) => match Sanitizer::parse_spec(v) {
            Option::Some(s) => Result::Ok(
                (BuildConfigView {
                    cargo_options: CargoConfigView { sanitizer: s, ..b.cargo_options },
                    ..b
                }),
            ),
            Option::None => Result::Err(ParseError::InvalidSanitizer),
        },
        TokenKind::TargetVal(v) => Result::Ok(
            (BuildConfigView {
                cargo_options: CargoConfigView { triple: v, ..b.cargo_options },
                ..b
            }),
        ),
        TokenKind::CargoHomeVal(v) => Result::Ok(
            (BuildConfigView {
                cargo_options: CargoConfigView { cargo_home: Option::Some(v), ..b.cargo_options },
                ..b
            }),
        ),
        TokenKind::CargoTargetDirVal(v) => Result::Ok(
            (BuildConfigView {
                cargo_options: CargoConfigView {
                    cargo_target_dir: Option::Some(v),
                    ..b.cargo_options
                },
                ..b
            }),
        ),
        TokenKind::UnstableVal(v) => Result::Ok(
            (BuildConfigView {
                cargo_options: CargoConfigView {
                    unstable_flags: b.cargo_options.unstable_flags.push(v),
                    ..b.cargo_options
                },
                ..b
            }),
        ),
        TokenKind::Release => Result::Ok(
            (BuildConfigView {
                cargo_options: CargoConfigView { release: true, ..b.cargo_options },
                ..b
            }),
        ),
        TokenKind::DebugAssertions => Result::Ok(
            (BuildConfigView {
                cargo_options: CargoConfigView { debug_assertions: true, ..b.cargo_options },
                ..b
            }),
        ),
        TokenKind::BuildStd => Result::Ok(
            (BuildConfigView {
                cargo_options: CargoConfigView { build_std: true, ..b.cargo_options },
                ..b
            }),
        ),
        TokenKind::Careful => Result::Ok(
            (BuildConfigView {
                cargo_options: CargoConfigView { careful_mode: true, ..b.cargo_options },
                ..b
            }),
        ),
        TokenKind::CoverageFlag => Result::Ok(
            (BuildConfigView {
                cargo_options: CargoConfigView { coverage: true, ..b.cargo_options },
                ..b
            }),
        ),
        TokenKind::StripDeadCode => Result::Ok(
            (BuildConfigView {
                cargo_options: CargoConfigView { strip_dead_code: true, ..b.cargo_options },
                ..b
            }),
        ),
        TokenKind::NoCfgFuzzing => Result::Ok(
            (BuildConfigView {
                cargo_options: CargoConfigView { no_cfg_fuzzing: true, ..b.cargo_options },
                ..b
            }),
        ),
        TokenKind::NoTraceCompares => Result::Ok(
            (BuildConfigView {
                cargo_options: CargoConfigView { no_trace_compares: true, ..b.cargo_options },
                ..b
            }),
        ),
        TokenKind::NoDefaultFeatures => Result::Ok(
            (BuildConfigView {
                cargo_options: CargoConfigView { no_default_features: true, ..b.cargo_options },
                ..b
            }),
        ),
        TokenKind::AllFeatures => Result::Ok(
            (BuildConfigView {
                cargo_options: CargoConfigView { all_features: true, ..b.cargo_options },
                ..b
            }),
        ),
        TokenKind::Dev => Result::Ok((BuildConfigView { dev: true, ..b })),
        TokenKind::Verbose => Result::Ok((BuildConfigView { verbose: true, ..b })),
        TokenKind::Unknown => Result::Err(ParseError::UnknownToken),
    }
}

/// Folds the effects of a token sequence, left to right, stopping at the
/// first offending token.
pub open spec fn parse_fold(b: BuildConfigView, ts: Seq<Seq<char>>) -> Result<
    BuildConfigView,
    ParseError,
>
    decreases ts.len(),
{
    if ts.len() == 0 {
        Result::Ok(b)
    } else {
        match apply_token(b, ts[0]) {
            Result::Ok(b2) => parse_fold(b2, ts.skip(1)),
            Result::Err(e) => Result::Err(e),
        }
    }
}

/// Parses a token sequence against a host triple: fold the tokens over the
/// default configuration, then reject configurations whose mutually
/// exclusive flags are both set: two feature selections, development mode
/// with release mode, or coverage instrumentation with a standard-library
/// rebuild.
pub open spec fn parse_build_spec(ts: Seq<Seq<char>>, host: Seq<char>) -> Result<
    BuildConfigView,
    ParseError,
> {
    match parse_fold(default_build_view(host), ts) {
        Result::Ok(b) => {
            if !features_exclusive(b.cargo_options) || (b.dev && b.cargo_options.release) || (
                b.cargo_options.coverage && b.cargo_options.build_std
            ) {
                Result::Err(ParseError::ConflictingFlags)
            } else {
                Result::Ok(b)
            }
        },
        Result::Err(e) => Result::Err(e),
    }
}

/// Applies one bare flag token: a token that carries no value and is not
/// one of the prefixed value forms.
#[verifier::rlimit(100)]
fn apply_flag_token(b: &mut BuildOptions, t: &str) -> (r: Result<(), ParseError>)
    requires
        !is_prefix_of("--features="@, t@),
        !is_prefix_of("--sanitizer="@, t@),
        !is_prefix_of("--target="@, t@),
        !is_prefix_of("--cargo-home="@, t@),
        !is_prefix_of("--cargo-target-dir="@, t@),
        !is_prefix_of("-Z"@, t@),
    ensures
        match r {
            Result::Ok(_) => apply_token(old(b)@, t@) == Result::Ok::<BuildConfigView, ParseError>(
                final(b)@,
            ),
            Result::Err(e) => apply_token(old(b)@, t@) == Result::Err::<
                BuildConfigView,
                ParseError,
            >(e) && final(b)@ == old(b)@,
        },
{
    proof {
        reveal(classify);
        reveal(apply_token);
    }
    if str_eq(t, "-O") {
        b.cargo_options.release = true;
        proof {
            assert(b@ =~= apply_token(old(b)@, t@)->Ok_0);
        }
        Result::Ok(())
    } else if str_eq(t, "-D") {
        b.dev = true;
        proof {
            assert(b@ =~= apply_token(old(b)@, t@)->Ok_0);
        }
        Result::Ok(())
    } else if str_eq(t, "-v") {
        b.verbose = true;
        proof {
            assert(b@ =~= apply_token(old(b)@, t@)->Ok_0);
        }
        Result::Ok(())
    } else if str_eq(t, "--debug-assertions") {
        b.cargo_options.debug_assertions = true;
        proof {
            assert(b@ =~= apply_token(old(b)@, t@)->Ok_0);
        }
        Result::Ok(())
    } else if str_eq(t, "--build-std") {
        b.cargo_options.build_std = true;
        proof {
            assert(b@ =~= apply_token(old(b)@, t@)->Ok_0);
        }
        Result::Ok(())
    } else if str_eq(t, "--careful") {
        b.cargo_options.careful_mode = true;
        proof {
            assert(b@ =~= apply_token(old(b)@, t@)->Ok_0);
        }
        Result::Ok(())
    } else if str_eq(t, "--coverage") {
        b.cargo_options.coverage = true;
        proof {
            assert(b@ =~= apply_token(old(b)@, t@)->Ok_0);
        }
        Result::Ok(())
    } else if str_eq(t, "--strip-dead-code") {
        b.cargo_options.strip_dead_code = true;
        proof {
            assert(b@ =~= apply_token(old(b)@, t@)->Ok_0);
        }
        Result::Ok(())
    } else if str_eq(t, "--no-cfg-fuzzing") {
        b.cargo_options.no_cfg_fuzzing = true;
        proof {
            assert(b@ =~= apply_token(old(b)@, t@)->Ok_0);
        }
        Result::Ok(())
    } else if str_eq(t, "--no-trace-compares") {
        b.cargo_options.no_trace_compares = true;
        proof {
            assert(b@ =~= apply_token(old(b)@, t@)->Ok_0);
        }
        Result::Ok(())
    } else if str_eq(t, "--no-default-features") {
        b.cargo_options.no_default_features = true;
        proof {
            assert(b@ =~= apply_token(old(b)@, t@)->Ok_0);
        }
        Result::Ok(())
    } else if str_eq(t, "--all-features") {
        b.cargo_options.all_features = true;
        proof {
            assert(b@ =~= apply_token(old(b)@, t@)->Ok_0);
        }
        Result::Ok(())
    } else {
        Result::Err(ParseError::UnknownToken)
    }
}

/// Applies one toolchain-home or unstable-flag token, or falls through to
/// the bare flags.
#[verifier::rlimit(100)]
fn apply_path_token(b: &mut BuildOptions, t: &str) -> (r: Result<(), ParseError>)
    requires
        !is_prefix_of("--features="@, t@),
        !is_prefix_of("--sanitizer="@, t@),
        !is_prefix_of("--target="@, t@),
    ensures
        match r {
            Result::Ok(_) => apply_token(old(b)@, t@) == Result::Ok::<BuildConfigView, ParseError>(
                final(b)@,
            ),
            Result::Err(e) => apply_token(old(b)@, t@) == Result::Err::<
                BuildConfigView,
                ParseError,
            >(e) && final(b)@ == old(b)@,
        },
{
    proof {
        reveal(classify);
        reveal(apply_token);
        reveal_strlit("--cargo-home=");
        reveal_strlit("--cargo-target-dir=");
        reveal_strlit("-Z");
    }
    if str_starts_with(t, "--cargo-home=") {
        let val = str_suffix(t, 13);
        b.cargo_options.cargo_home = Option::Some(val);
        proof {
            assert(b@ =~= apply_token(old(b)@, t@)->Ok_0);
        }
        Result::Ok(())
    } else if str_starts_with(t, "--cargo-target-dir=") {
        let val = str_suffix(t, 19);
        b.cargo_options.cargo_target_dir = Option::Some(val);
        proof {
            assert(b@ =~= apply_token(old(b)@, t@)->Ok_0);
        }
        Result::Ok(())
    } else if str_starts_with(t, "-Z") {
        let val = str_suffix(t, 2);
        let ghost before = b.cargo_options.unstable_flags@;
        let ghost beforedeep = b.cargo_options.unstable_flags.deep_view();
        b.cargo_options.unstable_flags.push(val);
        proof {
            let after = b.cargo_options.unstable_flags@;
            lemma_deep_push(b.cargo_options.unstable_flags, before, beforedeep, after[before.len() as int]);
            assert(b@ =~= apply_token(old(b)@, t@)->Ok_0);
        }
        Result::Ok(())
    } else {
        apply_flag_token(b, t)
    }
}

/// Applies one token to the configuration under construction.
#[verifier::rlimit(100)]
fn apply_token_exec(b: &mut BuildOptions, t: &str) -> (r: Result<(), ParseError>)
    ensures
        match r {
            Result::Ok(_) => apply_token(old(b)@, t@) == Result::Ok::<BuildConfigView, ParseError>(
                final(b)@,
            ),
            Result::Err(e) => apply_token(old(b)@, t@) == Result::Err::<
                BuildConfigView,
                ParseError,
            >(e) && final(b)@ == old(b)@,
        },
{
    proof {
        reveal(classify);
        reveal(apply_token);
        reveal_strlit("--features=");
        reveal_strlit("--sanitizer=");
        reveal_strlit("--target=");
        reveal_strlit("--cargo-home=");
        reveal_strlit("--cargo-target-dir=");
        reveal_strlit("-Z");
    }
    if str_starts_with(t, "--features=") {
        let val = str_suffix(t, 11);
        b.cargo_options.features = Option::Some(val);
        proof {
            assert(b@ =~= apply_token(old(b)@, t@)->Ok_0);
        }
        Result::Ok(())
    } else if str_starts_with(t, "--sanitizer=") {
        let val = str_suffix(t, 12);
        match Sanitizer::parse(val.as_str()) {
            Option::Some(s) => {
                b.cargo_options.sanitizer = s;
                proof {
                    assert(b@ =~= apply_token(old(b)@, t@)->Ok_0);
                }
                Result::Ok(())
            },
            Option::None => Result::Err(ParseError::InvalidSanitizer),
        }
    } else if str_starts_with(t, "--target=") {
        let val = str_suffix(t, 9);
        b.cargo_options.triple = val;
        proof {
            assert(b@ =~= apply_token(old(b)@, t@)->Ok_0);
        }
        Result::Ok(())
    } else {
        apply_path_token(b, t)
    }
}




impl BuildOptions {
    /// Parses a canonical token sequence back into a build option record.
    /// Returns exactly what [`parse_build_spec`] returns on the tokens'
    /// views: the folded configuration, or the first error.
    pub fn parse_tokens(tokens: &Vec<String>, host_triple: &str) -> (r: Result<
        BuildOptions,
        ParseError,
    >)
        ensures
            r matches Result::Ok(b) ==> parse_build_spec(tokens.deep_view(), host_triple@)
                == Result::Ok::<BuildConfigView, ParseError>(b@),
            r matches Result::Err(e) ==> parse_build_spec(tokens.deep_view(), host_triple@)
                == Result::Err::<BuildConfigView, ParseError>(e),
    {
        let ghost ts = tokens.deep_view();
        let ghost host = host_triple@;
        let mut b = BuildOptions::new(host_triple);
        proof {
            assert(ts.skip(0) =~= ts);
        }
        let mut i: usize = 0;
        while i < tokens.len()
            invariant
                i <= tokens.len(),
                ts == tokens.deep_view(),
                host == host_triple@,
                parse_fold(default_build_view(host), ts) == parse_fold(b@, ts.skip(i as int)),
            decreases tokens.len() - i,
        {
            let ghost prev = b@;
            let res = apply_token_exec(&mut b, tokens[i].as_str());
            proof {
                let rest = ts.skip(i as int);
                assert(rest.len() == ts.len() - i);
                assert(rest[0] == ts[i as int]);
                assert(ts[i as int] == tokens[i as int]@);
                assert(rest.skip(1) =~= ts.skip(i + 1));
            }
            match res {
                Result::Ok(_) => {},
                Result::Err(e) => {
                    proof {
                        let rest = ts.skip(i as int);
                        assert(apply_token(prev, rest[0]) == Result::Err::<
                            BuildConfigView,
                            ParseError,
                        >(e));
                        assert(parse_fold(prev, rest) == Result::Err::<
                            BuildConfigView,
                            ParseError,
                        >(e));
                        assert(parse_build_spec(ts, host) == Result::Err::<
                            BuildConfigView,
                            ParseError,
                        >(e));
                    }
                    return Result::Err(e);
                },
            }
            i = i + 1;
        }
        proof {
            assert(ts.skip(i as int) =~= Seq::<Seq<char>>::empty());
            assert(parse_fold(default_build_view(host), ts) == Result::Ok::<
                BuildConfigView,
                ParseError,
            >(b@));
        }
        let c = &b.cargo_options;
        let feature_conflict = (c.all_features && c.no_default_features) || (c.all_features
            && c.features.is_some()) || (c.no_default_features && c.features.is_some());
        if feature_conflict || (b.dev && c.release) || (c.coverage && c.build_std) {
            return Result::Err(ParseError::ConflictingFlags);
        }
        Result::Ok(b)
    }
}

} // verus!
