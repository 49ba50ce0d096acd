//! Laws of the build plan compiler: the round-trip law (parsing a rendered
//! plan yields the configuration it was rendered from) and the
//! default-elision law (the implicit defaults leave no token behind).

use vstd::prelude::*;

use crate::options::{
    BuildConfigView, CargoConfigView, Sanitizer, default_build_view, wf_build,
};
use crate::plan::{
    TokenKind, apply_token, classify, flag_tokens, opt_tokens, parse_build_spec, parse_fold,
    render_build_spec, render_cargo_spec, sanitizer_tokens, target_tokens, unstable_tokens,
};
use crate::strutil::{
    is_prefix_of, lemma_neq_by_char, lemma_neq_by_len, lemma_not_prefix_by_char,
    lemma_prefix_concat,
};

verus! {

/// Ground facts about the grammar's literal tokens: their lengths and the
/// characters that tell them apart.
proof fn lemma_literal_facts()
    ensures
        "--features="@.len() == 11 && "--features="@[1] == '-' && "--features="@[2] == 'f',
        "--sanitizer="@.len() == 12 && "--sanitizer="@[1] == '-' && "--sanitizer="@[2] == 's'
            && "--sanitizer="@[3] == 'a',
        "--target="@.len() == 9 && "--target="@[1] == '-' && "--target="@[2] == 't',
        "--cargo-home="@.len() == 13 && "--cargo-home="@[1] == '-' && "--cargo-home="@[2] == 'c'
            && "--cargo-home="@[8] == 'h',
        "--cargo-target-dir="@.len() == 19 && "--cargo-target-dir="@[1] == '-'
            && "--cargo-target-dir="@[2] == 'c' && "--cargo-target-dir="@[8] == 't',
        "-Z"@.len() == 2 && "-Z"@[1] == 'Z',
        "-O"@.len() == 2 && "-O"@[1] == 'O',
        "-D"@.len() == 2 && "-D"@[1] == 'D',
        "-v"@.len() == 2 && "-v"@[1] == 'v',
        "--debug-assertions"@.len() == 18 && "--debug-assertions"@[1] == '-'
            && "--debug-assertions"@[2] == 'd',
        "--build-std"@.len() == 11 && "--build-std"@[1] == '-' && "--build-std"@[2] == 'b',
        "--careful"@.len() == 9 && "--careful"@[1] == '-' && "--careful"@[2] == 'c',
        "--coverage"@.len() == 10 && "--coverage"@[1] == '-' && "--coverage"@[2] == 'c',
        "--strip-dead-code"@.len() == 17 && "--strip-dead-code"@[1] == '-'
            && "--strip-dead-code"@[2] == 's' && "--strip-dead-code"@[3] == 't',
        "--no-cfg-fuzzing"@.len() == 16 && "--no-cfg-fuzzing"@[1] == '-'
            && "--no-cfg-fuzzing"@[2] == 'n',
        "--no-trace-compares"@.len() == 19 && "--no-trace-compares"@[1] == '-'
            && "--no-trace-compares"@[2] == 'n',
        "--no-default-features"@.len() == 21 && "--no-default-features"@[1] == '-'
            && "--no-default-features"@[2] == 'n',
        "--all-features"@.len() == 14 && "--all-features"@[1] == '-' && "--all-features"@[2]
            == 'a',
        "--sanitizer=none"@ =~= "--sanitizer="@ + "none"@,
        "--sanitizer"@.len() == 11 && "--sanitizer"@[1] == '-' && "--sanitizer"@[2] == 's'
            && "--sanitizer"@[3] == 'a',
        "--target"@.len() == 8 && "--target"@[1] == '-' && "--target"@[2] == 't',
{
    reveal_strlit("--features=");
    reveal_strlit("--sanitizer=");
    reveal_strlit("--target=");
    reveal_strlit("--cargo-home=");
    reveal_strlit("--cargo-target-dir=");
    reveal_strlit("-Z");
    reveal_strlit("-O");
    reveal_strlit("-D");
    reveal_strlit("-v");
    reveal_strlit("--debug-assertions");
    reveal_strlit("--build-std");
    reveal_strlit("--careful");
    reveal_strlit("--coverage");
    reveal_strlit("--strip-dead-code");
    reveal_strlit("--no-cfg-fuzzing");
    reveal_strlit("--no-trace-compares");
    reveal_strlit("--no-default-features");
    reveal_strlit("--all-features");
    reveal_strlit("--sanitizer=none");
    reveal_strlit("--sanitizer");
    reveal_strlit("--target");
    reveal_strlit("none");
    assert("--sanitizer=none"@ =~= "--sanitizer="@ + "none"@);
}

/// Classification of a features token.
proof fn lemma_classify_features(v: Seq<char>)
    ensures
        classify("--features="@ + v) == TokenKind::FeaturesVal(v),
{
    reveal(classify);
    lemma_prefix_concat("--features="@, v);
}

/// Classification of a sanitizer token.
proof fn lemma_classify_sanitizer(v: Seq<char>)
    ensures
        classify("--sanitizer="@ + v) == TokenKind::SanitizerVal(v),
{
    reveal(classify);
    lemma_literal_facts();
    let t = "--sanitizer="@ + v;
    lemma_prefix_concat("--sanitizer="@, v);
    assert(t[2] == 's');
    lemma_not_prefix_by_char("--features="@, t, 2);
}

/// Classification of a target token.
proof fn lemma_classify_target(v: Seq<char>)
    ensures
        classify("--target="@ + v) == TokenKind::TargetVal(v),
{
    reveal(classify);
    lemma_literal_facts();
    let t = "--target="@ + v;
    lemma_prefix_concat("--target="@, v);
    assert(t[2] == 't');
    lemma_not_prefix_by_char("--features="@, t, 2);
    lemma_not_prefix_by_char("--sanitizer="@, t, 2);
}

/// Classification of a cargo-home token.
proof fn lemma_classify_cargo_home(v: Seq<char>)
    ensures
        classify("--cargo-home="@ + v) == TokenKind::CargoHomeVal(v),
{
    reveal(classify);
    lemma_literal_facts();
    let t = "--cargo-home="@ + v;
    lemma_prefix_concat("--cargo-home="@, v);
    assert(t[2] == 'c');
    lemma_not_prefix_by_char("--features="@, t, 2);
    lemma_not_prefix_by_char("--sanitizer="@, t, 2);
    lemma_not_prefix_by_char("--target="@, t, 2);
}

/// Classification of a cargo-target-dir token.
proof fn lemma_classify_cargo_target_dir(v: Seq<char>)
    ensures
        classify("--cargo-target-dir="@ + v) == TokenKind::CargoTargetDirVal(v),
{
    reveal(classify);
    lemma_literal_facts();
    let t = "--cargo-target-dir="@ + v;
    lemma_prefix_concat("--cargo-target-dir="@, v);
    assert(t[2] == 'c');
    assert(t[8] == 't');
    lemma_not_prefix_by_char("--features="@, t, 2);
    lemma_not_prefix_by_char("--sanitizer="@, t, 2);
    lemma_not_prefix_by_char("--target="@, t, 2);
    lemma_not_prefix_by_char("--cargo-home="@, t, 8);
}

/// Classification of an unstable-flag token.
proof fn lemma_classify_unstable(v: Seq<char>)
    ensures
        classify("-Z"@ + v) == TokenKind::UnstableVal(v),
{
    reveal(classify);
    lemma_literal_facts();
    let t = "-Z"@ + v;
    lemma_prefix_concat("-Z"@, v);
    assert(t[1] == 'Z');
    lemma_not_prefix_by_char("--features="@, t, 1);
    lemma_not_prefix_by_char("--sanitizer="@, t, 1);
    lemma_not_prefix_by_char("--target="@, t, 1);
    lemma_not_prefix_by_char("--cargo-home="@, t, 1);
    lemma_not_prefix_by_char("--cargo-target-dir="@, t, 1);
}

/// A bare flag literal is not one of the prefixed value forms.
proof fn lemma_flag_not_prefixed(t: Seq<char>)
    requires
        t.len() >= 2,
        t[1] != 'Z',
        t.len() >= 11 ==> t[2] != 'f',
        t.len() >= 12 ==> (t[2] != 's' || t[3] != 'a'),
        t.len() >= 9 ==> t[2] != 't',
        t.len() >= 13 ==> t[2] != 'c',
    ensures
        !is_prefix_of("--features="@, t),
        !is_prefix_of("--sanitizer="@, t),
        !is_prefix_of("--target="@, t),
        !is_prefix_of("--cargo-home="@, t),
        !is_prefix_of("--cargo-target-dir="@, t),
        !is_prefix_of("-Z"@, t),
{
    lemma_literal_facts();
    lemma_not_prefix_by_char("-Z"@, t, 1);
    if t.len() >= 11 {
        lemma_not_prefix_by_char("--features="@, t, 2);
    }
    if t.len() >= 12 {
        if t[2] != 's' {
            lemma_not_prefix_by_char("--sanitizer="@, t, 2);
        } else {
            lemma_not_prefix_by_char("--sanitizer="@, t, 3);
        }
    }
    if t.len() >= 9 {
        lemma_not_prefix_by_char("--target="@, t, 2);
    }
    if t.len() >= 13 {
        lemma_not_prefix_by_char("--cargo-home="@, t, 2);
    }
    if t.len() >= 19 {
        lemma_not_prefix_by_char("--cargo-target-dir="@, t, 2);
    }
}

/// Classification of every bare flag literal of the grammar.
#[verifier::rlimit(100)]
proof fn lemma_classify_flags()
    ensures
        classify("-O"@) == TokenKind::Release,
        classify("-D"@) == TokenKind::Dev,
        classify("-v"@) == TokenKind::Verbose,
        classify("--debug-assertions"@) == TokenKind::DebugAssertions,
        classify("--build-std"@) == TokenKind::BuildStd,
        classify("--careful"@) == TokenKind::Careful,
        classify("--coverage"@) == TokenKind::CoverageFlag,
        classify("--strip-dead-code"@) == TokenKind::StripDeadCode,
        classify("--no-cfg-fuzzing"@) == TokenKind::NoCfgFuzzing,
        classify("--no-trace-compares"@) == TokenKind::NoTraceCompares,
        classify("--no-default-features"@) == TokenKind::NoDefaultFeatures,
        classify("--all-features"@) == TokenKind::AllFeatures,
{
    reveal(classify);
    lemma_literal_facts();
    lemma_flag_not_prefixed("-O"@);
    lemma_flag_not_prefixed("-D"@);
    lemma_flag_not_prefixed("-v"@);
    lemma_flag_not_prefixed("--debug-assertions"@);
    lemma_flag_not_prefixed("--build-std"@);
    lemma_flag_not_prefixed("--careful"@);
    lemma_flag_not_prefixed("--coverage"@);
    lemma_flag_not_prefixed("--strip-dead-code"@);
    lemma_flag_not_prefixed("--no-cfg-fuzzing"@);
    lemma_flag_not_prefixed("--no-trace-compares"@);
    lemma_flag_not_prefixed("--no-default-features"@);
    lemma_flag_not_prefixed("--all-features"@);
    lemma_neq_by_char("-D"@, "-O"@, 1);
    lemma_neq_by_char("-v"@, "-O"@, 1);
    lemma_neq_by_char("-v"@, "-D"@, 1);
    lemma_neq_by_len("--debug-assertions"@, "-O"@);
    lemma_neq_by_len("--debug-assertions"@, "-D"@);
    lemma_neq_by_len("--debug-assertions"@, "-v"@);
    lemma_neq_by_len("--build-std"@, "-O"@);
    lemma_neq_by_len("--build-std"@, "-D"@);
    lemma_neq_by_len("--build-std"@, "-v"@);
    lemma_neq_by_len("--build-std"@, "--debug-assertions"@);
    lemma_neq_by_len("--careful"@, "-O"@);
    lemma_neq_by_len("--careful"@, "-D"@);
    lemma_neq_by_len("--careful"@, "-v"@);
    lemma_neq_by_len("--careful"@, "--debug-assertions"@);
    lemma_neq_by_len("--careful"@, "--build-std"@);
    lemma_neq_by_len("--coverage"@, "-O"@);
    lemma_neq_by_len("--coverage"@, "-D"@);
    lemma_neq_by_len("--coverage"@, "-v"@);
    lemma_neq_by_len("--coverage"@, "--debug-assertions"@);
    lemma_neq_by_len("--coverage"@, "--build-std"@);
    lemma_neq_by_len("--coverage"@, "--careful"@);
    lemma_neq_by_len("--strip-dead-code"@, "-O"@);
    lemma_neq_by_len("--strip-dead-code"@, "-D"@);
    lemma_neq_by_len("--strip-dead-code"@, "-v"@);
    lemma_neq_by_len("--strip-dead-code"@, "--debug-assertions"@);
    lemma_neq_by_len("--strip-dead-code"@, "--build-std"@);
    lemma_neq_by_len("--strip-dead-code"@, "--careful"@);
    lemma_neq_by_len("--strip-dead-code"@, "--coverage"@);
    lemma_neq_by_len("--no-cfg-fuzzing"@, "-O"@);
    lemma_neq_by_len("--no-cfg-fuzzing"@, "-D"@);
    lemma_neq_by_len("--no-cfg-fuzzing"@, "-v"@);
    lemma_neq_by_len("--no-cfg-fuzzing"@, "--debug-assertions"@);
    lemma_neq_by_len("--no-cfg-fuzzing"@, "--build-std"@);
    lemma_neq_by_len("--no-cfg-fuzzing"@, "--careful"@);
    lemma_neq_by_len("--no-cfg-fuzzing"@, "--coverage"@);
    lemma_neq_by_len("--no-cfg-fuzzing"@, "--strip-dead-code"@);
    lemma_neq_by_len("--no-trace-compares"@, "-O"@);
    lemma_neq_by_len("--no-trace-compares"@, "-D"@);
    lemma_neq_by_len("--no-trace-compares"@, "-v"@);
    lemma_neq_by_len("--no-trace-compares"@, "--debug-assertions"@);
    lemma_neq_by_len("--no-trace-compares"@, "--build-std"@);
    lemma_neq_by_len("--no-trace-compares"@, "--careful"@);
    lemma_neq_by_len("--no-trace-compares"@, "--coverage"@);
    lemma_neq_by_len("--no-trace-compares"@, "--strip-dead-code"@);
    lemma_neq_by_len("--no-trace-compares"@, "--no-cfg-fuzzing"@);
    lemma_neq_by_len("--no-default-features"@, "-O"@);
    lemma_neq_by_len("--no-default-features"@, "-D"@);
    lemma_neq_by_len("--no-default-features"@, "-v"@);
    lemma_neq_by_len("--no-default-features"@, "--debug-assertions"@);
    lemma_neq_by_len("--no-default-features"@, "--build-std"@);
    lemma_neq_by_len("--no-default-features"@, "--careful"@);
    lemma_neq_by_len("--no-default-features"@, "--coverage"@);
    lemma_neq_by_len("--no-default-features"@, "--strip-dead-code"@);
    lemma_neq_by_len("--no-default-features"@, "--no-cfg-fuzzing"@);
    lemma_neq_by_len("--no-default-features"@, "--no-trace-compares"@);
    lemma_neq_by_len("--all-features"@, "-O"@);
    lemma_neq_by_len("--all-features"@, "-D"@);
    lemma_neq_by_len("--all-features"@, "-v"@);
    lemma_neq_by_len("--all-features"@, "--debug-assertions"@);
    lemma_neq_by_len("--all-features"@, "--build-std"@);
    lemma_neq_by_len("--all-features"@, "--careful"@);
    lemma_neq_by_len("--all-features"@, "--coverage"@);
    lemma_neq_by_len("--all-features"@, "--strip-dead-code"@);
    lemma_neq_by_len("--all-features"@, "--no-cfg-fuzzing"@);
    lemma_neq_by_len("--all-features"@, "--no-trace-compares"@);
    lemma_neq_by_len("--all-features"@, "--no-default-features"@);
}

/// Folding a concatenation folds its parts in order.
proof fn lemma_fold_append(b: BuildConfigView, s1: Seq<Seq<char>>, s2: Seq<Seq<char>>)
    ensures
        parse_fold(b, s1 + s2) == match parse_fold(b, s1) {
            Result::Ok(b2) => parse_fold(b2, s2),
            Result::Err(e) => Result::Err::<BuildConfigView, crate::plan::ParseError>(e),
        },
    decreases s1.len(),
{
    if s1.len() == 0 {
        assert(s1 + s2 =~= s2);
    } else {
        assert((s1 + s2)[0] == s1[0]);
        assert((s1 + s2).len() > 0);
        match apply_token(b, s1[0]) {
            Result::Ok(b2) => {
                assert((s1 + s2).skip(1) =~= s1.skip(1) + s2);
                lemma_fold_append(b2, s1.skip(1), s2);
            },
            Result::Err(e) => {},
        }
    }
}

/// Folding a single token applies it.
proof fn lemma_fold_single(b: BuildConfigView, t: Seq<char>)
    ensures
        parse_fold(b, seq![t]) == apply_token(b, t),
{
    let s = seq![t];
    assert(s.len() == 1);
    assert(s[0] == t);
    assert(s.skip(1) =~= Seq::<Seq<char>>::empty());
    match apply_token(b, t) {
        Result::Ok(b2) => {
            assert(parse_fold(b2, s.skip(1)) == Result::Ok::<
                BuildConfigView,
                crate::plan::ParseError,
            >(b2));
        },
        Result::Err(e) => {},
    }
}

/// Folding a flag segment sets nothing when the flag is off and applies
/// its single token when on.
proof fn lemma_fold_flag(b: BuildConfigView, cond: bool, t: Seq<char>, b2: BuildConfigView)
    requires
        cond ==> apply_token(b, t) == Result::Ok::<BuildConfigView, crate::plan::ParseError>(b2),
        !cond ==> b2 == b,
    ensures
        parse_fold(b, flag_tokens(cond, t)) == Result::Ok::<
            BuildConfigView,
            crate::plan::ParseError,
        >(b2),
{
    if cond {
        lemma_fold_single(b, t);
    } else {
        assert(flag_tokens(cond, t) =~= Seq::<Seq<char>>::empty());
    }
}

/// Folding the unstable-flag segment appends every flag, in order.
#[verifier::rlimit(100)]
proof fn lemma_fold_unstable(b: BuildConfigView, flags: Seq<Seq<char>>)
    ensures
        parse_fold(b, unstable_tokens(flags)) == Result::Ok::<
            BuildConfigView,
            crate::plan::ParseError,
        >(
            (BuildConfigView {
                cargo_options: CargoConfigView {
                    unstable_flags: b.cargo_options.unstable_flags + flags,
                    ..b.cargo_options
                },
                ..b
            }),
        ),
    decreases flags.len(),
{
    reveal(apply_token);
    let ts = unstable_tokens(flags);
    if flags.len() == 0 {
        assert(ts =~= Seq::<Seq<char>>::empty());
        assert(b.cargo_options.unstable_flags + flags =~= b.cargo_options.unstable_flags);
        assert((BuildConfigView {
            cargo_options: CargoConfigView {
                unstable_flags: b.cargo_options.unstable_flags + flags,
                ..b.cargo_options
            },
            ..b
        }) =~= b);
    } else {
        assert(ts.len() == flags.len());
        assert(ts[0] == "-Z"@ + flags[0]);
        lemma_classify_unstable(flags[0]);
        let b1 = (BuildConfigView {
            cargo_options: CargoConfigView {
                unstable_flags: b.cargo_options.unstable_flags.push(flags[0]),
                ..b.cargo_options
            },
            ..b
        });
        assert(apply_token(b, ts[0]) == Result::Ok::<BuildConfigView, crate::plan::ParseError>(
            b1,
        ));
        assert(ts.skip(1) =~= unstable_tokens(flags.skip(1)));
        lemma_fold_unstable(b1, flags.skip(1));
        assert(b1.cargo_options.unstable_flags + flags.skip(1) =~= b.cargo_options.unstable_flags
            + flags);
    }
}

/// The configuration state after the sanitizer and boolean-flag tokens.
spec fn flags_state(c: CargoConfigView, host: Seq<char>) -> BuildConfigView {
    BuildConfigView {
        dev: false,
        verbose: false,
        cargo_options: CargoConfigView {
            release: c.release,
            debug_assertions: c.debug_assertions,
            all_features: c.all_features,
            no_default_features: c.no_default_features,
            features: Option::None,
            sanitizer: c.sanitizer,
            build_std: c.build_std,
            careful_mode: c.careful_mode,
            triple: host,
            unstable_flags: Seq::empty(),
            coverage: c.coverage,
            strip_dead_code: c.strip_dead_code,
            no_cfg_fuzzing: c.no_cfg_fuzzing,
            no_trace_compares: c.no_trace_compares,
            cargo_home: Option::None,
            cargo_target_dir: Option::None,
        },
    }
}

/// The sanitizer and first five boolean-flag groups of the cargo tokens.
spec fn cargo_flag_tokens(c: CargoConfigView) -> Seq<Seq<char>> {
    sanitizer_tokens(c.sanitizer) + flag_tokens(c.release, "-O"@) + flag_tokens(
        c.debug_assertions,
        "--debug-assertions"@,
    ) + flag_tokens(c.build_std, "--build-std"@) + flag_tokens(c.careful_mode, "--careful"@)
        + flag_tokens(c.coverage, "--coverage"@)
}

/// The later flag groups of the cargo tokens.
spec fn cargo_flag_tokens_b(c: CargoConfigView) -> Seq<Seq<char>> {
    flag_tokens(c.strip_dead_code, "--strip-dead-code"@) + flag_tokens(
        c.no_cfg_fuzzing,
        "--no-cfg-fuzzing"@,
    ) + flag_tokens(c.no_trace_compares, "--no-trace-compares"@) + flag_tokens(
        c.no_default_features,
        "--no-default-features"@,
    ) + flag_tokens(c.all_features, "--all-features"@)
}

/// Folding the sanitizer and the first five boolean flags over the default
/// configuration.
#[verifier::rlimit(100)]
proof fn lemma_fold_cargo_flags_a(c: CargoConfigView, host: Seq<char>)
    ensures
        parse_fold(default_build_view(host), cargo_flag_tokens(c)) == Result::Ok::<
            BuildConfigView,
            crate::plan::ParseError,
        >(
            (BuildConfigView {
                cargo_options: CargoConfigView {
                    sanitizer: c.sanitizer,
                    release: c.release,
                    debug_assertions: c.debug_assertions,
                    build_std: c.build_std,
                    careful_mode: c.careful_mode,
                    coverage: c.coverage,
                    ..default_build_view(host).cargo_options
                },
                ..default_build_view(host)
            }),
        ),
{
    reveal(apply_token);
    lemma_classify_flags();
    let d = default_build_view(host);
    let c0 = d.cargo_options;
    let a1 = sanitizer_tokens(c.sanitizer);
    let st1 = (BuildConfigView {
        cargo_options: CargoConfigView { sanitizer: c.sanitizer, ..c0 },
        ..d
    });
    match c.sanitizer {
        Sanitizer::Address => {
            assert(a1 =~= Seq::<Seq<char>>::empty());
            assert(st1 =~= d);
            assert(parse_fold(d, a1) == Result::Ok::<BuildConfigView, crate::plan::ParseError>(
                st1,
            ));
        },
        Sanitizer::Disabled => {
            lemma_literal_facts();
            lemma_classify_sanitizer("none"@);
            assert(a1 == seq!["--sanitizer=none"@]);
            assert(classify("--sanitizer=none"@) == TokenKind::SanitizerVal("none"@));
            Sanitizer::lemma_text_round_trip(Sanitizer::Disabled);
            lemma_fold_single(d, "--sanitizer=none"@);
            assert(parse_fold(d, a1) == Result::Ok::<BuildConfigView, crate::plan::ParseError>(
                st1,
            ));
        },
        _ => {
            lemma_classify_sanitizer(c.sanitizer.text_spec());
            Sanitizer::lemma_text_round_trip(c.sanitizer);
            lemma_fold_single(d, "--sanitizer="@ + c.sanitizer.text_spec());
            assert(parse_fold(d, a1) == Result::Ok::<BuildConfigView, crate::plan::ParseError>(
                st1,
            ));
        },
    }
    let st2 = (BuildConfigView {
        cargo_options: CargoConfigView { release: c.release, ..st1.cargo_options },
        ..st1
    });
    if !c.release {
        assert(st2 =~= st1);
    }
    lemma_fold_flag(st1, c.release, "-O"@, st2);
    lemma_fold_append(d, a1, flag_tokens(c.release, "-O"@));
    let x2 = a1 + flag_tokens(c.release, "-O"@);
    let st3 = (BuildConfigView {
        cargo_options: CargoConfigView { debug_assertions: c.debug_assertions, ..st2.cargo_options },
        ..st2
    });
    if !c.debug_assertions {
        assert(st3 =~= st2);
    }
    lemma_fold_flag(st2, c.debug_assertions, "--debug-assertions"@, st3);
    lemma_fold_append(d, x2, flag_tokens(c.debug_assertions, "--debug-assertions"@));
    let x3 = x2 + flag_tokens(c.debug_assertions, "--debug-assertions"@);
    let st4 = (BuildConfigView {
        cargo_options: CargoConfigView { build_std: c.build_std, ..st3.cargo_options },
        ..st3
    });
    if !c.build_std {
        assert(st4 =~= st3);
    }
    lemma_fold_flag(st3, c.build_std, "--build-std"@, st4);
    lemma_fold_append(d, x3, flag_tokens(c.build_std, "--build-std"@));
    let x4 = x3 + flag_tokens(c.build_std, "--build-std"@);
    let st5 = (BuildConfigView {
        cargo_options: CargoConfigView { careful_mode: c.careful_mode, ..st4.cargo_options },
        ..st4
    });
    if !c.careful_mode {
        assert(st5 =~= st4);
    }
    lemma_fold_flag(st4, c.careful_mode, "--careful"@, st5);
    lemma_fold_append(d, x4, flag_tokens(c.careful_mode, "--careful"@));
    let x5 = x4 + flag_tokens(c.careful_mode, "--careful"@);
    let st6 = (BuildConfigView {
        cargo_options: CargoConfigView { coverage: c.coverage, ..st5.cargo_options },
        ..st5
    });
    if !c.coverage {
        assert(st6 =~= st5);
    }
    lemma_fold_flag(st5, c.coverage, "--coverage"@, st6);
    lemma_fold_append(d, x5, flag_tokens(c.coverage, "--coverage"@));
}

/// Folding the later five boolean flags from a state that still has them
/// at their defaults.
#[verifier::rlimit(100)]
proof fn lemma_fold_cargo_flags_b(st: BuildConfigView, c: CargoConfigView)
    requires
        !st.cargo_options.strip_dead_code,
        !st.cargo_options.no_cfg_fuzzing,
        !st.cargo_options.no_trace_compares,
        !st.cargo_options.no_default_features,
        !st.cargo_options.all_features,
    ensures
        parse_fold(st, cargo_flag_tokens_b(c)) == Result::Ok::<
            BuildConfigView,
            crate::plan::ParseError,
        >(
            (BuildConfigView {
                cargo_options: CargoConfigView {
                    strip_dead_code: c.strip_dead_code,
                    no_cfg_fuzzing: c.no_cfg_fuzzing,
                    no_trace_compares: c.no_trace_compares,
                    no_default_features: c.no_default_features,
                    all_features: c.all_features,
                    ..st.cargo_options
                },
                ..st
            }),
        ),
{
    reveal(apply_token);
    lemma_classify_flags();
    let st7 = (BuildConfigView {
        cargo_options: CargoConfigView { strip_dead_code: c.strip_dead_code, ..st.cargo_options },
        ..st
    });
    if !c.strip_dead_code {
        assert(st7 =~= st);
    }
    lemma_fold_flag(st, c.strip_dead_code, "--strip-dead-code"@, st7);
    let y1 = flag_tokens(c.strip_dead_code, "--strip-dead-code"@);
    let st8 = (BuildConfigView {
        cargo_options: CargoConfigView { no_cfg_fuzzing: c.no_cfg_fuzzing, ..st7.cargo_options },
        ..st7
    });
    if !c.no_cfg_fuzzing {
        assert(st8 =~= st7);
    }
    lemma_fold_flag(st7, c.no_cfg_fuzzing, "--no-cfg-fuzzing"@, st8);
    lemma_fold_append(st, y1, flag_tokens(c.no_cfg_fuzzing, "--no-cfg-fuzzing"@));
    let y2 = y1 + flag_tokens(c.no_cfg_fuzzing, "--no-cfg-fuzzing"@);
    let st9 = (BuildConfigView {
        cargo_options: CargoConfigView {
            no_trace_compares: c.no_trace_compares,
            ..st8.cargo_options
        },
        ..st8
    });
    if !c.no_trace_compares {
        assert(st9 =~= st8);
    }
    lemma_fold_flag(st8, c.no_trace_compares, "--no-trace-compares"@, st9);
    lemma_fold_append(st, y2, flag_tokens(c.no_trace_compares, "--no-trace-compares"@));
    let y3 = y2 + flag_tokens(c.no_trace_compares, "--no-trace-compares"@);
    let st10 = (BuildConfigView {
        cargo_options: CargoConfigView {
            no_default_features: c.no_default_features,
            ..st9.cargo_options
        },
        ..st9
    });
    if !c.no_default_features {
        assert(st10 =~= st9);
    }
    lemma_fold_flag(st9, c.no_default_features, "--no-default-features"@, st10);
    lemma_fold_append(st, y3, flag_tokens(c.no_default_features, "--no-default-features"@));
    let y4 = y3 + flag_tokens(c.no_default_features, "--no-default-features"@);
    let st11 = (BuildConfigView {
        cargo_options: CargoConfigView { all_features: c.all_features, ..st10.cargo_options },
        ..st10
    });
    if !c.all_features {
        assert(st11 =~= st10);
    }
    lemma_fold_flag(st10, c.all_features, "--all-features"@, st11);
    lemma_fold_append(st, y4, flag_tokens(c.all_features, "--all-features"@));
}

/// The first three value-carrying token groups.
spec fn cargo_value_tokens_a(c: CargoConfigView, host: Seq<char>) -> Seq<Seq<char>> {
    opt_tokens(c.features, "--features="@) + target_tokens(c.triple, host) + opt_tokens(
        c.cargo_home,
        "--cargo-home="@,
    )
}

/// Folding the features token, if any, from a state without one.
#[verifier::rlimit(100)]
proof fn lemma_fold_features(st: BuildConfigView, c: CargoConfigView)
    requires
        st.cargo_options.features is None,
    ensures
        parse_fold(st, opt_tokens(c.features, "--features="@)) == Result::Ok::<
            BuildConfigView,
            crate::plan::ParseError,
        >(
            (BuildConfigView {
                cargo_options: CargoConfigView { features: c.features, ..st.cargo_options },
                ..st
            }),
        ),
{
    reveal(apply_token);
    let st12 = (BuildConfigView {
        cargo_options: CargoConfigView { features: c.features, ..st.cargo_options },
        ..st
    });
    match c.features {
        Option::Some(fv) => {
            lemma_classify_features(fv);
            lemma_fold_single(st, "--features="@ + fv);
        },
        Option::None => {
            assert(opt_tokens(c.features, "--features="@) =~= Seq::<Seq<char>>::empty());
            assert(st12 =~= st);
        },
    }
}

/// Folding the target token, if any, from a state at the host triple.
#[verifier::rlimit(100)]
proof fn lemma_fold_target(st: BuildConfigView, c: CargoConfigView, host: Seq<char>)
    requires
        st.cargo_options.triple == host,
    ensures
        parse_fold(st, target_tokens(c.triple, host)) == Result::Ok::<
            BuildConfigView,
            crate::plan::ParseError,
        >(
            (BuildConfigView {
                cargo_options: CargoConfigView { triple: c.triple, ..st.cargo_options },
                ..st
            }),
        ),
{
    reveal(apply_token);
    let st13 = (BuildConfigView {
        cargo_options: CargoConfigView { triple: c.triple, ..st.cargo_options },
        ..st
    });
    if c.triple == host {
        assert(target_tokens(c.triple, host) =~= Seq::<Seq<char>>::empty());
        assert(st13 =~= st);
    } else {
        lemma_classify_target(c.triple);
        lemma_fold_single(st, "--target="@ + c.triple);
    }
}

/// Folding the cargo-home token, if any, from a state without one.
#[verifier::rlimit(100)]
proof fn lemma_fold_home(st: BuildConfigView, c: CargoConfigView)
    requires
        st.cargo_options.cargo_home is None,
    ensures
        parse_fold(st, opt_tokens(c.cargo_home, "--cargo-home="@)) == Result::Ok::<
            BuildConfigView,
            crate::plan::ParseError,
        >(
            (BuildConfigView {
                cargo_options: CargoConfigView { cargo_home: c.cargo_home, ..st.cargo_options },
                ..st
            }),
        ),
{
    reveal(apply_token);
    let st14 = (BuildConfigView {
        cargo_options: CargoConfigView { cargo_home: c.cargo_home, ..st.cargo_options },
        ..st
    });
    match c.cargo_home {
        Option::Some(hv) => {
            lemma_classify_cargo_home(hv);
            lemma_fold_single(st, "--cargo-home="@ + hv);
        },
        Option::None => {
            assert(opt_tokens(c.cargo_home, "--cargo-home="@) =~= Seq::<Seq<char>>::empty());
            assert(st14 =~= st);
        },
    }
}

/// Folding the features, target and cargo-home tokens from a state that
/// still has those fields at their defaults.
#[verifier::rlimit(100)]
proof fn lemma_fold_cargo_values_a(st: BuildConfigView, c: CargoConfigView, host: Seq<char>)
    requires
        st.cargo_options.features is None,
        st.cargo_options.cargo_home is None,
        st.cargo_options.triple == host,
    ensures
        parse_fold(st, cargo_value_tokens_a(c, host)) == Result::Ok::<
            BuildConfigView,
            crate::plan::ParseError,
        >(
            (BuildConfigView {
                cargo_options: CargoConfigView {
                    features: c.features,
                    triple: c.triple,
                    cargo_home: c.cargo_home,
                    ..st.cargo_options
                },
                ..st
            }),
        ),
{
    let a12 = opt_tokens(c.features, "--features="@);
    let a13 = target_tokens(c.triple, host);
    let a14 = opt_tokens(c.cargo_home, "--cargo-home="@);
    lemma_fold_features(st, c);
    let st12 = (BuildConfigView {
        cargo_options: CargoConfigView { features: c.features, ..st.cargo_options },
        ..st
    });
    lemma_fold_target(st12, c, host);
    let st13 = (BuildConfigView {
        cargo_options: CargoConfigView { triple: c.triple, ..st12.cargo_options },
        ..st12
    });
    lemma_fold_append(st, a12, a13);
    lemma_fold_home(st13, c);
    let st14 = (BuildConfigView {
        cargo_options: CargoConfigView { cargo_home: c.cargo_home, ..st13.cargo_options },
        ..st13
    });
    lemma_fold_append(st, a12 + a13, a14);
    assert(st14 =~= (BuildConfigView {
        cargo_options: CargoConfigView {
            features: c.features,
            triple: c.triple,
            cargo_home: c.cargo_home,
            ..st.cargo_options
        },
        ..st
    }));
}

/// The last two value-carrying token groups.
spec fn cargo_value_tokens_b(c: CargoConfigView) -> Seq<Seq<char>> {
    opt_tokens(c.cargo_target_dir, "--cargo-target-dir="@) + unstable_tokens(c.unstable_flags)
}

/// Folding the cargo-target-dir and unstable-flag tokens from a state that
/// still has those fields at their defaults.
#[verifier::rlimit(100)]
proof fn lemma_fold_cargo_values_b(st: BuildConfigView, c: CargoConfigView)
    requires
        st.cargo_options.cargo_target_dir is None,
        st.cargo_options.unstable_flags == Seq::<Seq<char>>::empty(),
    ensures
        parse_fold(st, cargo_value_tokens_b(c)) == Result::Ok::<
            BuildConfigView,
            crate::plan::ParseError,
        >(
            (BuildConfigView {
                cargo_options: CargoConfigView {
                    cargo_target_dir: c.cargo_target_dir,
                    unstable_flags: c.unstable_flags,
                    ..st.cargo_options
                },
                ..st
            }),
        ),
{
    reveal(apply_token);
    let a15 = opt_tokens(c.cargo_target_dir, "--cargo-target-dir="@);
    let st15 = (BuildConfigView {
        cargo_options: CargoConfigView {
            cargo_target_dir: c.cargo_target_dir,
            ..st.cargo_options
        },
        ..st
    });
    match c.cargo_target_dir {
        Option::Some(tv) => {
            lemma_classify_cargo_target_dir(tv);
            lemma_fold_single(st, "--cargo-target-dir="@ + tv);
            assert(parse_fold(st, a15) == Result::Ok::<
                BuildConfigView,
                crate::plan::ParseError,
            >(st15));
        },
        Option::None => {
            assert(a15 =~= Seq::<Seq<char>>::empty());
            assert(st15 =~= st);
        },
    }
    lemma_fold_unstable(st15, c.unstable_flags);
    let st16 = (BuildConfigView {
        cargo_options: CargoConfigView {
            unstable_flags: st15.cargo_options.unstable_flags + c.unstable_flags,
            ..st15.cargo_options
        },
        ..st15
    });
    assert(st16.cargo_options.unstable_flags =~= c.unstable_flags);
    lemma_fold_append(st, a15, unstable_tokens(c.unstable_flags));
    assert(st16 =~= (BuildConfigView {
        cargo_options: CargoConfigView {
            cargo_target_dir: c.cargo_target_dir,
            unstable_flags: c.unstable_flags,
            ..st.cargo_options
        },
        ..st
    }));
}

/// Folding every sanitizer and boolean-flag token over the default
/// configuration reaches exactly [`flags_state`].
#[verifier::rlimit(100)]
proof fn lemma_fold_cargo_all_flags(c: CargoConfigView, host: Seq<char>)
    ensures
        parse_fold(default_build_view(host), cargo_flag_tokens(c) + cargo_flag_tokens_b(c))
            == Result::Ok::<BuildConfigView, crate::plan::ParseError>(flags_state(c, host)),
{
    let d = default_build_view(host);
    lemma_fold_cargo_flags_a(c, host);
    let sta = (BuildConfigView {
        cargo_options: CargoConfigView {
            sanitizer: c.sanitizer,
            release: c.release,
            debug_assertions: c.debug_assertions,
            build_std: c.build_std,
            careful_mode: c.careful_mode,
            coverage: c.coverage,
            ..d.cargo_options
        },
        ..d
    });
    lemma_fold_cargo_flags_b(sta, c);
    let stf = (BuildConfigView {
        cargo_options: CargoConfigView {
            strip_dead_code: c.strip_dead_code,
            no_cfg_fuzzing: c.no_cfg_fuzzing,
            no_trace_compares: c.no_trace_compares,
            no_default_features: c.no_default_features,
            all_features: c.all_features,
            ..sta.cargo_options
        },
        ..sta
    });
    lemma_fold_append(d, cargo_flag_tokens(c), cargo_flag_tokens_b(c));
    assert(stf =~= flags_state(c, host));
}

/// Concatenation of token sequences is associative.
proof fn lemma_tokens_assoc(a: Seq<Seq<char>>, b: Seq<Seq<char>>, c: Seq<Seq<char>>)
    ensures
        (a + b) + c == a + (b + c),
{
    assert((a + b) + c =~= a + (b + c));
}

/// The cargo token sequence, regrouped into its four lemma-sized parts.
#[verifier::rlimit(100)]
proof fn lemma_cargo_tokens_regroup(c: CargoConfigView, host: Seq<char>)
    ensures
        ((cargo_flag_tokens(c) + cargo_flag_tokens_b(c)) + cargo_value_tokens_a(c, host))
            + cargo_value_tokens_b(c) == render_cargo_spec(c, host),
{
    let a = cargo_flag_tokens(c);
    let b1 = flag_tokens(c.strip_dead_code, "--strip-dead-code"@);
    let b2 = flag_tokens(c.no_cfg_fuzzing, "--no-cfg-fuzzing"@);
    let b3 = flag_tokens(c.no_trace_compares, "--no-trace-compares"@);
    let b4 = flag_tokens(c.no_default_features, "--no-default-features"@);
    let b5 = flag_tokens(c.all_features, "--all-features"@);
    let c1 = opt_tokens(c.features, "--features="@);
    let c2 = target_tokens(c.triple, host);
    let c3 = opt_tokens(c.cargo_home, "--cargo-home="@);
    let d1 = opt_tokens(c.cargo_target_dir, "--cargo-target-dir="@);
    let d2 = unstable_tokens(c.unstable_flags);
    // Reassociate the later flag groups onto the first chain.
    lemma_tokens_assoc(a, ((b1 + b2) + b3) + b4, b5);
    lemma_tokens_assoc(a, (b1 + b2) + b3, b4);
    lemma_tokens_assoc(a, b1 + b2, b3);
    lemma_tokens_assoc(a, b1, b2);
    let l10 = ((((a + b1) + b2) + b3) + b4) + b5;
    assert(a + cargo_flag_tokens_b(c) == l10);
    // Reassociate the value groups.
    lemma_tokens_assoc(l10, c1 + c2, c3);
    lemma_tokens_assoc(l10, c1, c2);
    let l13 = ((l10 + c1) + c2) + c3;
    assert(l10 + cargo_value_tokens_a(c, host) == l13);
    lemma_tokens_assoc(l13, d1, d2);
    assert(l13 + cargo_value_tokens_b(c) == (l13 + d1) + d2);
    assert((l13 + d1) + d2 == render_cargo_spec(c, host));
}

/// Folding the whole cargo token sequence over the default configuration
/// reaches exactly the rendered record.
#[verifier::rlimit(100)]
proof fn lemma_fold_render_cargo(c: CargoConfigView, host: Seq<char>)
    ensures
        parse_fold(default_build_view(host), render_cargo_spec(c, host)) == Result::Ok::<
            BuildConfigView,
            crate::plan::ParseError,
        >((BuildConfigView { dev: false, verbose: false, cargo_options: c })),
{
    let d = default_build_view(host);
    lemma_fold_cargo_all_flags(c, host);
    let xflags = cargo_flag_tokens(c) + cargo_flag_tokens_b(c);
    let stf = flags_state(c, host);
    lemma_fold_cargo_values_a(stf, c, host);
    let stva = (BuildConfigView {
        cargo_options: CargoConfigView {
            features: c.features,
            triple: c.triple,
            cargo_home: c.cargo_home,
            ..stf.cargo_options
        },
        ..stf
    });
    lemma_fold_append(d, xflags, cargo_value_tokens_a(c, host));
    let xva = xflags + cargo_value_tokens_a(c, host);
    lemma_fold_cargo_values_b(stva, c);
    let stv = (BuildConfigView {
        cargo_options: CargoConfigView {
            cargo_target_dir: c.cargo_target_dir,
            unstable_flags: c.unstable_flags,
            ..stva.cargo_options
        },
        ..stva
    });
    lemma_fold_append(d, xva, cargo_value_tokens_b(c));
    lemma_cargo_tokens_regroup(c, host);
    assert(stv =~= (BuildConfigView { dev: false, verbose: false, cargo_options: c }));
}

/// The round-trip law of the build plan compiler: parsing the canonical
/// rendering of any well-formed build option record, against the same host
/// triple, yields exactly that record.
#[verifier::rlimit(100)]
pub proof fn lemma_round_trip(b: BuildConfigView, host: Seq<char>)
    requires
        wf_build(b),
    ensures
        parse_build_spec(render_build_spec(b, host), host) == Result::Ok::<
            BuildConfigView,
            crate::plan::ParseError,
        >(b),
{
    reveal(apply_token);
    let d = default_build_view(host);
    let c = b.cargo_options;
    lemma_fold_render_cargo(c, host);
    let stv = (BuildConfigView { dev: false, verbose: false, cargo_options: c });
    lemma_classify_flags();
    let st17 = (BuildConfigView { dev: b.dev, ..stv });
    if !b.dev {
        assert(st17 =~= stv);
    }
    lemma_fold_flag(stv, b.dev, "-D"@, st17);
    lemma_fold_append(d, render_cargo_spec(c, host), flag_tokens(b.dev, "-D"@));
    let x17 = render_cargo_spec(c, host) + flag_tokens(b.dev, "-D"@);
    let st18 = (BuildConfigView { verbose: b.verbose, ..st17 });
    if !b.verbose {
        assert(st18 =~= st17);
    }
    lemma_fold_flag(st17, b.verbose, "-v"@, st18);
    lemma_fold_append(d, x17, flag_tokens(b.verbose, "-v"@));
    let x18 = x17 + flag_tokens(b.verbose, "-v"@);
    assert(x18 =~= render_build_spec(b, host));
    assert(st18 =~= b);
    assert(parse_fold(d, render_build_spec(b, host)) == Result::Ok::<
        BuildConfigView,
        crate::plan::ParseError,
    >(b));
}

} // verus!
