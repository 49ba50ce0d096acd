//! Build configuration records and the closed enums they use: the sanitizer
//! vocabulary, the build mode, the cargo-level flag record and its wrapper,
//! and the workspace directory override.

use vstd::prelude::*;

use crate::strutil::str_eq;

verus! {

/// The sanitizer selected for a build. Exactly one is active per build;
/// `Address` is the implicit default and `Disabled` is selected by the
/// text `none`.
#[derive(Copy, Clone, Debug, Eq, PartialEq, Structural)]
pub enum Sanitizer {
    Address,
    Leak,
    Memory,
    Thread,
    Disabled,
}

impl Sanitizer {
    /// The text encoding of this sanitizer kind.
    pub open spec fn text_spec(self) -> Seq<char> {
        match self {
            Sanitizer::Address => "address"@,
            Sanitizer::Leak => "leak"@,
            Sanitizer::Memory => "memory"@,
            Sanitizer::Thread => "thread"@,
            Sanitizer::Disabled => "none"@,
        }
    }

    /// The sanitizer kind a piece of text denotes, if any.
    pub open spec fn parse_spec(s: Seq<char>) -> Option<Sanitizer> {
        if s == "address"@ {
            Option::Some(Sanitizer::Address)
        } else if s == "leak"@ {
            Option::Some(Sanitizer::Leak)
        } else if s == "memory"@ {
            Option::Some(Sanitizer::Memory)
        } else if s == "thread"@ {
            Option::Some(Sanitizer::Thread)
        } else if s == "none"@ {
            Option::Some(Sanitizer::Disabled)
        } else {
            Option::None
        }
    }

    /// The text encoding of this sanitizer kind, as an owned string.
    pub fn text(&self) -> (r: String)
        ensures
            r@ == self.text_spec(),
    {
        match self {
            Sanitizer::Address => String::from_str("address"),
            Sanitizer::Leak => String::from_str("leak"),
            Sanitizer::Memory => String::from_str("memory"),
            Sanitizer::Thread => String::from_str("thread"),
            Sanitizer::Disabled => String::from_str("none"),
        }
    }

    /// Parses a sanitizer name; returns `None` exactly on text that denotes
    /// no sanitizer kind.
    pub fn parse(s: &str) -> (r: Option<Sanitizer>)
        ensures
            r == Self::parse_spec(s@),
    {
        if str_eq(s, "address") {
            Option::Some(Sanitizer::Address)
        } else if str_eq(s, "leak") {
            Option::Some(Sanitizer::Leak)
        } else if str_eq(s, "memory") {
            Option::Some(Sanitizer::Memory)
        } else if str_eq(s, "thread") {
            Option::Some(Sanitizer::Thread)
        } else if str_eq(s, "none") {
            Option::Some(Sanitizer::Disabled)
        } else {
            Option::None
        }
    }

    /// Every sanitizer kind round-trips through its text encoding.
    pub proof fn lemma_text_round_trip(s: Sanitizer)
        ensures
            Self::parse_spec(s.text_spec()) == Option::Some(s),
    {
        reveal_strlit("address");
        reveal_strlit("leak");
        reveal_strlit("memory");
        reveal_strlit("thread");
        reveal_strlit("none");
        crate::strutil::lemma_neq_by_len("leak"@, "address"@);
        crate::strutil::lemma_neq_by_len("memory"@, "address"@);
        crate::strutil::lemma_neq_by_len("memory"@, "leak"@);
        crate::strutil::lemma_neq_by_len("thread"@, "address"@);
        crate::strutil::lemma_neq_by_len("thread"@, "leak"@);
        crate::strutil::lemma_neq_by_char("thread"@, "memory"@, 0);
        crate::strutil::lemma_neq_by_len("none"@, "address"@);
        crate::strutil::lemma_neq_by_char("none"@, "leak"@, 0);
        crate::strutil::lemma_neq_by_len("none"@, "memory"@);
        crate::strutil::lemma_neq_by_len("none"@, "thread"@);
    }
}

/// Whether the toolchain produces artifacts or only type-checks.
#[derive(Copy, Clone, Debug, Eq, PartialEq, Structural)]
pub enum BuildMode {
    Build,
    Check,
}

impl BuildMode {
    /// The text encoding of this mode.
    pub open spec fn text_spec(self) -> Seq<char> {
        match self {
            BuildMode::Build => "build"@,
            BuildMode::Check => "check"@,
        }
    }

    /// The build mode a piece of text denotes, if any.
    pub open spec fn parse_spec(s: Seq<char>) -> Option<BuildMode> {
        if s == "build"@ {
            Option::Some(BuildMode::Build)
        } else if s == "check"@ {
            Option::Some(BuildMode::Check)
        } else {
            Option::None
        }
    }

    /// The text encoding of this mode, as an owned string.
    pub fn text(&self) -> (r: String)
        ensures
            r@ == self.text_spec(),
    {
        match self {
            BuildMode::Build => String::from_str("build"),
            BuildMode::Check => String::from_str("check"),
        }
    }

    /// Parses a build mode name.
    pub fn parse(s: &str) -> (r: Option<BuildMode>)
        ensures
            r == Self::parse_spec(s@),
    {
        if str_eq(s, "build") {
            Option::Some(BuildMode::Build)
        } else if str_eq(s, "check") {
            Option::Some(BuildMode::Check)
        } else {
            Option::None
        }
    }

    /// Every build mode round-trips through its text encoding.
    pub proof fn lemma_text_round_trip(m: BuildMode)
        ensures
            Self::parse_spec(m.text_spec()) == Option::Some(m),
    {
        reveal_strlit("build");
        reveal_strlit("check");
        assert("check"@[0] == 'c');
        assert("build"@[0] == 'b');
        crate::strutil::lemma_neq_by_char("check"@, "build"@, 0);
    }
}

/// The cargo-level build flags, a flat record. Mutual exclusions are stated
/// by [`features_exclusive`] and checked when a token plan is parsed or
/// compiled, not silently reconciled.
#[derive(Clone, Debug, Eq, PartialEq)]
pub struct CargoBuildOptions {
    /// Build artifacts in release mode, with optimizations.
    pub release: bool,
    /// Build artifacts with debug assertions and overflow checks enabled.
    pub debug_assertions: bool,
    /// Build artifacts with all cargo features enabled.
    pub all_features: bool,
    /// Build artifacts with default cargo features disabled.
    pub no_default_features: bool,
    /// Build artifacts with the given cargo feature enabled.
    pub features: Option<String>,
    /// The sanitizer to instrument the build with.
    pub sanitizer: Sanitizer,
    /// Rebuild the standard library with the fuzz target's build settings.
    pub build_std: bool,
    /// Careful mode: standard-library rebuild with extra checks.
    pub careful_mode: bool,
    /// Target triple of the fuzz target; defaults to the host triple.
    pub triple: String,
    /// Unstable (nightly-only) toolchain flags, in order, one token each.
    pub unstable_flags: Vec<String>,
    /// Instrument program code with source-based coverage information.
    /// Forced on by the coverage command; incompatible with `build_std`.
    pub coverage: bool,
    /// Opt out of linking dead code.
    pub strip_dead_code: bool,
    /// Opt out of the fuzzing compilation configuration.
    pub no_cfg_fuzzing: bool,
    /// Opt out of trace-compare instrumentation.
    pub no_trace_compares: bool,
    /// Override of the cargo home directory.
    pub cargo_home: Option<String>,
    /// Override of the cargo target directory.
    pub cargo_target_dir: Option<String>,
}

/// The mathematical model of a [`CargoBuildOptions`] value.
#[verifier::ext_equal]
pub ghost struct CargoConfigView {
    pub release: bool,
    pub debug_assertions: bool,
    pub all_features: bool,
    pub no_default_features: bool,
    pub features: Option<Seq<char>>,
    pub sanitizer: Sanitizer,
    pub build_std: bool,
    pub careful_mode: bool,
    pub triple: Seq<char>,
    pub unstable_flags: Seq<Seq<char>>,
    pub coverage: bool,
    pub strip_dead_code: bool,
    pub no_cfg_fuzzing: bool,
    pub no_trace_compares: bool,
    pub cargo_home: Option<Seq<char>>,
    pub cargo_target_dir: Option<Seq<char>>,
}

impl View for CargoBuildOptions {
    type V = CargoConfigView;

    open spec fn view(&self) -> CargoConfigView {
        CargoConfigView {
            release: self.release,
            debug_assertions: self.debug_assertions,
            all_features: self.all_features,
            no_default_features: self.no_default_features,
            features: self.features.deep_view(),
            sanitizer: self.sanitizer,
            build_std: self.build_std,
            careful_mode: self.careful_mode,
            triple: self.triple@,
            unstable_flags: self.unstable_flags.deep_view(),
            coverage: self.coverage,
            strip_dead_code: self.strip_dead_code,
            no_cfg_fuzzing: self.no_cfg_fuzzing,
            no_trace_compares: self.no_trace_compares,
            cargo_home: self.cargo_home.deep_view(),
            cargo_target_dir: self.cargo_target_dir.deep_view(),
        }
    }
}

/// At most one of the three feature selections is set.
pub open spec fn features_exclusive(c: CargoConfigView) -> bool {
    &&& !(c.all_features && c.no_default_features)
    &&& !(c.all_features && c.features is Some)
    &&& !(c.no_default_features && c.features is Some)
}

/// A well-formed cargo flag record: at most one feature selection, and
/// never coverage instrumentation together with a standard-library rebuild.
pub open spec fn wf_cargo(c: CargoConfigView) -> bool {
    features_exclusive(c) && !(c.coverage && c.build_std)
}

/// The cargo flag record with every toggle off, the default sanitizer and
/// the given host triple.
pub open spec fn default_cargo_view(host: Seq<char>) -> CargoConfigView {
    CargoConfigView {
        release: false,
        debug_assertions: false,
        all_features: false,
        no_default_features: false,
        features: Option::None,
        sanitizer: Sanitizer::Address,
        build_std: false,
        careful_mode: false,
        triple: host,
        unstable_flags: Seq::empty(),
        coverage: false,
        strip_dead_code: false,
        no_cfg_fuzzing: false,
        no_trace_compares: false,
        cargo_home: Option::None,
        cargo_target_dir: Option::None,
    }
}

impl CargoBuildOptions {
    /// The default flag record for a given host triple.
    pub fn new(host_triple: &str) -> (r: CargoBuildOptions)
        ensures
            r@ == default_cargo_view(host_triple@),
    {
        let r = CargoBuildOptions {
            release: false,
            debug_assertions: false,
            all_features: false,
            no_default_features: false,
            features: Option::None,
            sanitizer: Sanitizer::Address,
            build_std: false,
            careful_mode: false,
            triple: String::from_str(host_triple),
            unstable_flags: Vec::new(),
            coverage: false,
            strip_dead_code: false,
            no_cfg_fuzzing: false,
            no_trace_compares: false,
            cargo_home: Option::None,
            cargo_target_dir: Option::None,
        };
        proof {
            assert(r.unstable_flags.deep_view() =~= Seq::<Seq<char>>::empty());
            assert(r@ =~= default_cargo_view(host_triple@));
        }
        r
    }
}

/// The build options handed to a command: the cargo record plus the
/// development-mode and verbose toggles.
#[derive(Clone, Debug, Eq, PartialEq)]
pub struct BuildOptions {
    /// Build artifacts in development mode, without optimizations.
    pub dev: bool,
    /// Build with verbose toolchain output.
    pub verbose: bool,
    /// The cargo-level build flags.
    pub cargo_options: CargoBuildOptions,
}

/// The mathematical model of a [`BuildOptions`] value.
#[verifier::ext_equal]
pub ghost struct BuildConfigView {
    pub dev: bool,
    pub verbose: bool,
    pub cargo_options: CargoConfigView,
}

impl View for BuildOptions {
    type V = BuildConfigView;

    open spec fn view(&self) -> BuildConfigView {
        BuildConfigView {
            dev: self.dev,
            verbose: self.verbose,
            cargo_options: self.cargo_options@,
        }
    }
}

/// A well-formed build option record: the cargo record is well formed and
/// development mode excludes release mode.
pub open spec fn wf_build(b: BuildConfigView) -> bool {
    wf_cargo(b.cargo_options) && !(b.dev && b.cargo_options.release)
}

/// The default build options for a given host triple.
pub open spec fn default_build_view(host: Seq<char>) -> BuildConfigView {
    BuildConfigView { dev: false, verbose: false, cargo_options: default_cargo_view(host) }
}

impl BuildOptions {
    /// The default build options for a given host triple.
    pub fn new(host_triple: &str) -> (r: BuildOptions)
        ensures
            r@ == default_build_view(host_triple@),
    {
        let r = BuildOptions {
            dev: false,
            verbose: false,
            cargo_options: CargoBuildOptions::new(host_triple),
        };
        proof {
            assert(r@ =~= default_build_view(host_triple@));
        }
        r
    }
}

/// Move-package build switches carried by the command surface. The plan
/// compiler does not render them; they ride along to the package system.
#[derive(Clone, Debug, Eq, PartialEq)]
pub struct MoveBuildOptions {
    /// Bytecode version to compile Move code with.
    pub bytecode_version: Option<u32>,
    /// Only fetch dependency repositories.
    pub fetch_deps_only: bool,
    /// Force recompilation of all packages.
    pub force: bool,
    /// Skip fetching the latest git dependencies.
    pub skip_fetch_latest_git_deps: bool,
}

/// An optional workspace path override. Empty text parses to "unset"; the
/// default discovery then applies.
#[derive(Clone, Debug, Eq, PartialEq)]
pub struct FuzzDirWrapper {
    /// The path to the fuzz project directory, if overridden.
    pub fuzz_dir: Option<String>,
}

impl FuzzDirWrapper {
    /// Parses an override from raw text: empty text means "unset",
    /// any other text is taken literally as a path.
    pub fn parse(s: &str) -> (r: FuzzDirWrapper)
        ensures
            s@.len() == 0 ==> r.fuzz_dir is None,
            s@.len() > 0 ==> (r.fuzz_dir matches Option::Some(p) && p@ == s@),
    {
        if s.unicode_len() == 0 {
            FuzzDirWrapper { fuzz_dir: Option::None }
        } else {
            FuzzDirWrapper { fuzz_dir: Option::Some(String::from_str(s)) }
        }
    }

    /// The textual form: empty when unset, otherwise the override flag
    /// preceded by a space, as the command surface prints it.
    pub fn to_text(&self) -> (r: String)
        ensures
            self.fuzz_dir matches Option::Some(p) ==> r@ == " --fuzz-dir="@ + p@,
            self.fuzz_dir is None ==> r@ == Seq::<char>::empty(),
    {
        match &self.fuzz_dir {
            Option::Some(p) => crate::strutil::str_concat(" --fuzz-dir=", p.as_str()),
            Option::None => String::new(),
        }
    }
}

} // verus!
