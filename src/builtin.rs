//! The built-in templates: which names exist, which asset holds each one's
//! descriptor, and the files that each writes after its tree.

use vstd::prelude::*;
use crate::context::{capitalize, capitalized};
use crate::resolve::same_text;

verus! {

/// The built-in templates.
#[derive(Clone, Copy, PartialEq, Eq, Structural, Debug)]
pub enum Builtin {
    Rust,
    Vim,
    Python,
    Haskell,
    Idris,
    Julia,
    Plain,
}

/// The texts of the content registry, each looked up by this name.
#[derive(Clone, Copy, PartialEq, Eq, Structural, Debug)]
pub enum Asset {
    RustTemplate,
    VimTemplate,
    PyTemplate,
    HaskTemplate,
    IdrisTemplate,
    JuliaTemplate,
    PlainTemplate,
    Readme,
    RustLib,
    RustTravisCi,
    CargoToml,
    Vimball,
    PyBin,
    PySetup,
    PyCfg,
    Ipkg,
    IdrisExe,
    IdrisLib,
    JuliaRequire,
    JuliaSrc,
    JuliaTest,
    SetupHs,
    HsMain,
    HsLib,
    HsBench,
    HsTest,
    DefaultNix,
    ReleaseNix,
    Cabal,
    StackYaml,
    HaskellTravisCi,
}

/// How a trailing asset is written.
#[derive(Clone, Copy, PartialEq, Eq, Structural, Debug)]
pub enum ExtraMode {
    /// Written verbatim.
    Copy,
    /// Rendered against the context with the file listing.
    Render,
}

/// A file that a built-in template writes after its tree.
pub struct Extra {
    pub asset: Asset,
    pub dest: String,
    pub mode: ExtraMode,
}

/// The built-in template of a name, if there is one.
pub open spec fn builtin_spec(s: Seq<char>) -> Option<Builtin> {
    if s == "rust"@ {
        Some(Builtin::Rust)
    } else if s == "vim"@ {
        Some(Builtin::Vim)
    } else if s == "python"@ {
        Some(Builtin::Python)
    } else if s == "haskell"@ {
        Some(Builtin::Haskell)
    } else if s == "idris"@ {
        Some(Builtin::Idris)
    } else if s == "julia"@ {
        Some(Builtin::Julia)
    } else if s == "plain"@ {
        Some(Builtin::Plain)
    } else {
        None
    }
}

/// The built-in template of a name, if there is one.
pub fn builtin_kind(s: &str) -> (r: Option<Builtin>)
    ensures
        r == builtin_spec(s@),
{
    if same_text(s, "rust") {
        Some(Builtin::Rust)
    } else if same_text(s, "vim") {
        Some(Builtin::Vim)
    } else if same_text(s, "python") {
        Some(Builtin::Python)
    } else if same_text(s, "haskell") {
        Some(Builtin::Haskell)
    } else if same_text(s, "idris") {
        Some(Builtin::Idris)
    } else if same_text(s, "julia") {
        Some(Builtin::Julia)
    } else if same_text(s, "plain") {
        Some(Builtin::Plain)
    } else {
        None
    }
}

/// The asset that holds a built-in template's descriptor.
pub open spec fn descriptor_asset_spec(b: Builtin) -> Asset {
    match b {
        Builtin::Rust => Asset::RustTemplate,
        Builtin::Vim => Asset::VimTemplate,
        Builtin::Python => Asset::PyTemplate,
        Builtin::Haskell => Asset::HaskTemplate,
        Builtin::Idris => Asset::IdrisTemplate,
        Builtin::Julia => Asset::JuliaTemplate,
        Builtin::Plain => Asset::PlainTemplate,
    }
}

impl Builtin {
    /// The asset that holds this template's descriptor.
    pub fn descriptor_asset(&self) -> (r: Asset)
        ensures
            r == descriptor_asset_spec(*self),
    {
        match self {
            Builtin::Rust => Asset::RustTemplate,
            Builtin::Vim => Asset::VimTemplate,
            Builtin::Python => Asset::PyTemplate,
            Builtin::Haskell => Asset::HaskTemplate,
            Builtin::Idris => Asset::IdrisTemplate,
            Builtin::Julia => Asset::JuliaTemplate,
            Builtin::Plain => Asset::PlainTemplate,
        }
    }
}

/// The view of a trailing file.
pub open spec fn extra_view(e: Extra) -> (Asset, Seq<char>, ExtraMode) {
    (e.asset, e.dest@, e.mode)
}

/// The files that a built-in template writes after its tree, in order, for
/// a project called `name`. A later entry with the same path replaces an
/// earlier one.
pub open spec fn extras_spec(b: Builtin, name: Seq<char>) -> Seq<(Asset, Seq<char>, ExtraMode)> {
    let cap = capitalized(name);
    match b {
        Builtin::Plain => seq![],
        Builtin::Rust => seq![
            (Asset::RustLib, "src/lib.rs"@, ExtraMode::Copy),
            (Asset::RustTravisCi, ".travis.yml"@, ExtraMode::Copy),
            (Asset::CargoToml, "Cargo.toml"@, ExtraMode::Render),
        ],
        Builtin::Vim => seq![(Asset::Vimball, "vimball.txt"@, ExtraMode::Render)],
        Builtin::Python => seq![
            (Asset::PySetup, "setup.py"@, ExtraMode::Render),
            (Asset::PyCfg, "setup.cfg"@, ExtraMode::Copy),
            (Asset::PyBin, "bin/"@ + name, ExtraMode::Render),
        ],
        Builtin::Idris => seq![
            (Asset::Ipkg, name + ".ipkg"@, ExtraMode::Render),
            (Asset::IdrisExe, cap + ".idr"@, ExtraMode::Render),
            (Asset::IdrisLib, cap + "/"@ + name + ".idr"@, ExtraMode::Render),
        ],
        Builtin::Julia => seq![
            (Asset::JuliaRequire, "REQUIRE"@, ExtraMode::Copy),
            (Asset::JuliaSrc, "src/"@ + cap + ".jl"@, ExtraMode::Copy),
            (Asset::JuliaTest, "test/test.jl"@, ExtraMode::Copy),
        ],
        Builtin::Haskell => seq![
            (Asset::SetupHs, "Setup.hs"@, ExtraMode::Copy),
            (Asset::HsMain, "app/Main.hs"@, ExtraMode::Copy),
            (Asset::HsLib, "src/Lib.hs"@, ExtraMode::Copy),
            (Asset::HsBench, "bench/Bench.hs"@, ExtraMode::Copy),
            (Asset::HsTest, "test/Spec.hs"@, ExtraMode::Copy),
            (Asset::DefaultNix, "default.nix"@, ExtraMode::Render),
            (Asset::ReleaseNix, "release.nix"@, ExtraMode::Render),
            (Asset::Cabal, name + ".cabal"@, ExtraMode::Render),
            (Asset::ReleaseNix, "release.nix"@, ExtraMode::Copy),
            (Asset::StackYaml, "stack.yaml"@, ExtraMode::Copy),
            (Asset::HaskellTravisCi, ".travis.yml"@, ExtraMode::Copy),
        ],
    }
}

fn extra(asset: Asset, dest: String, mode: ExtraMode) -> (r: Extra)
    ensures
        extra_view(r) == (asset, dest@, mode),
{
    Extra { asset, dest, mode }
}

fn lit(s: &str) -> (r: String)
    ensures
        r@ == s@,
{
    String::from_str(s)
}

fn cat(a: &str, b: &str) -> (r: String)
    ensures
        r@ == a@ + b@,
{
    let mut s = String::from_str(a);
    s.append(b);
    s
}

/// The files that a built-in template writes after its tree.
pub fn builtin_extras(b: Builtin, name: &str) -> (r: Vec<Extra>)
    ensures
        r@.map_values(|e: Extra| extra_view(e)) == extras_spec(b, name@),
{
    let mut v: Vec<Extra> = Vec::new();
    match b {
        Builtin::Plain => {},
        Builtin::Rust => {
            v.push(extra(Asset::RustLib, lit("src/lib.rs"), ExtraMode::Copy));
            v.push(extra(Asset::RustTravisCi, lit(".travis.yml"), ExtraMode::Copy));
            v.push(extra(Asset::CargoToml, lit("Cargo.toml"), ExtraMode::Render));
        },
        Builtin::Vim => {
            v.push(extra(Asset::Vimball, lit("vimball.txt"), ExtraMode::Render));
        },
        Builtin::Python => {
            v.push(extra(Asset::PySetup, lit("setup.py"), ExtraMode::Render));
            v.push(extra(Asset::PyCfg, lit("setup.cfg"), ExtraMode::Copy));
            v.push(extra(Asset::PyBin, cat("bin/", name), ExtraMode::Render));
        },
        Builtin::Idris => {
            let cap = capitalize(name);
            v.push(extra(Asset::Ipkg, cat(name, ".ipkg"), ExtraMode::Render));
            v.push(extra(Asset::IdrisExe, cat(cap.as_str(), ".idr"), ExtraMode::Render));
            let dir = cat(cap.as_str(), "/");
            let stem = cat(dir.as_str(), name);
            v.push(extra(Asset::IdrisLib, cat(stem.as_str(), ".idr"), ExtraMode::Render));
        },
        Builtin::Julia => {
            let cap = capitalize(name);
            v.push(extra(Asset::JuliaRequire, lit("REQUIRE"), ExtraMode::Copy));
            let stem = cat("src/", cap.as_str());
            v.push(extra(Asset::JuliaSrc, cat(stem.as_str(), ".jl"), ExtraMode::Copy));
            v.push(extra(Asset::JuliaTest, lit("test/test.jl"), ExtraMode::Copy));
        },
        Builtin::Haskell => {
            v.push(extra(Asset::SetupHs, lit("Setup.hs"), ExtraMode::Copy));
            v.push(extra(Asset::HsMain, lit("app/Main.hs"), ExtraMode::Copy));
            v.push(extra(Asset::HsLib, lit("src/Lib.hs"), ExtraMode::Copy));
            v.push(extra(Asset::HsBench, lit("bench/Bench.hs"), ExtraMode::Copy));
            v.push(extra(Asset::HsTest, lit("test/Spec.hs"), ExtraMode::Copy));
            v.push(extra(Asset::DefaultNix, lit("default.nix"), ExtraMode::Render));
            v.push(extra(Asset::ReleaseNix, lit("release.nix"), ExtraMode::Render));
            v.push(extra(Asset::Cabal, cat(name, ".cabal"), ExtraMode::Render));
            v.push(extra(Asset::ReleaseNix, lit("release.nix"), ExtraMode::Copy));
            v.push(extra(Asset::StackYaml, lit("stack.yaml"), ExtraMode::Copy));
            v.push(extra(Asset::HaskellTravisCi, lit(".travis.yml"), ExtraMode::Copy));
        },
    }
    assert(v@.map_values(|e: Extra| extra_view(e)) =~= extras_spec(b, name@));
    v
}

} // verus!
