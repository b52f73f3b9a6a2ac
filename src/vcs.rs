//! The version-control choice and the command that initializes a repository.

use vstd::prelude::*;
use crate::model::{GlobalConfig, TemplateConfig};
use crate::resolve::{preferred, same_text};

verus! {

/// The version-control tools that a project can be initialized with.
#[derive(Clone, Copy, PartialEq, Eq, Structural)]
pub enum VcsKind {
    Git,
    Mercurial,
    Pijul,
    Darcs,
}

/// What to do about version control once the project tree exists.
pub enum VcsChoice {
    /// Neither the template nor the global configuration asks for a tool.
    Skip,
    Init(VcsKind),
    /// The name asked for is none of the supported tools: reported, then skipped.
    Unsupported(String),
}

/// The tool that a name stands for, if any.
pub open spec fn vcs_kind_spec(s: Seq<char>) -> Option<VcsKind> {
    if s == "git"@ {
        Some(VcsKind::Git)
    } else if s == "hg"@ || s == "mercurial"@ {
        Some(VcsKind::Mercurial)
    } else if s == "pijul"@ {
        Some(VcsKind::Pijul)
    } else if s == "darcs"@ {
        Some(VcsKind::Darcs)
    } else {
        None
    }
}

/// The tool name that a template's `config` block declares, if any.
pub open spec fn declared_vcs(config: Option<TemplateConfig>) -> Option<String> {
    match config {
        Some(c) => c.version_control,
        None => None,
    }
}

/// The choice that a tool name, or its absence, leads to.
pub open spec fn vcs_choice_spec(name: Option<String>, r: VcsChoice) -> bool {
    match name {
        None => r is Skip,
        Some(n) => match vcs_kind_spec(n@) {
            Some(k) => r == VcsChoice::Init(k),
            None => r is Unsupported && r->Unsupported_0@ == n@,
        },
    }
}

/// The tool that a name stands for, if any.
pub fn vcs_kind(s: &str) -> (r: Option<VcsKind>)
    ensures
        r == vcs_kind_spec(s@),
{
    if same_text(s, "git") {
        Some(VcsKind::Git)
    } else if same_text(s, "hg") || same_text(s, "mercurial") {
        Some(VcsKind::Mercurial)
    } else if same_text(s, "pijul") {
        Some(VcsKind::Pijul)
    } else if same_text(s, "darcs") {
        Some(VcsKind::Darcs)
    } else {
        None
    }
}

/// The template's `config.version_control` takes precedence; without it the
/// global configuration's value is used; without either nothing is initialized.
pub fn resolve_vcs(config: &Option<TemplateConfig>, global: &GlobalConfig) -> (r: VcsChoice)
    ensures
        vcs_choice_spec(preferred(declared_vcs(*config), global.version_control), r),
{
    let declared: Option<&String> = match config {
        Some(c) => c.version_control.as_ref(),
        None => None,
    };
    let name: Option<&String> = match declared {
        Some(n) => Some(n),
        None => global.version_control.as_ref(),
    };
    match name {
        None => VcsChoice::Skip,
        Some(n) => match vcs_kind(n.as_str()) {
            Some(k) => VcsChoice::Init(k),
            None => VcsChoice::Unsupported(n.clone()),
        },
    }
}

/// The program that initializes a repository of the given kind.
pub open spec fn vcs_program_spec(k: VcsKind) -> Seq<char> {
    match k {
        VcsKind::Git => "git"@,
        VcsKind::Mercurial => "hg"@,
        VcsKind::Pijul => "pijul"@,
        VcsKind::Darcs => "darcs"@,
    }
}

impl VcsKind {
    /// The program to run, which is then given `init` and the project path.
    pub fn program(&self) -> (r: String)
        ensures
            r@ == vcs_program_spec(*self),
    {
        match self {
            VcsKind::Git => String::from_str("git"),
            VcsKind::Mercurial => String::from_str("hg"),
            VcsKind::Pijul => String::from_str("pijul"),
            VcsKind::Darcs => String::from_str("darcs"),
        }
    }

    /// The arguments of the initializing command for a project at `path`.
    pub fn init_args(&self, path: &str) -> (r: Vec<String>)
        ensures
            r@.len() == 2,
            r@[0]@ == "init"@,
            r@[1]@ == path@,
    {
        let mut v: Vec<String> = Vec::new();
        v.push(String::from_str("init"));
        v.push(path.to_owned());
        v
    }
}

/// The supported tools, named as a diagnostic lists them.
pub fn supported_vcs_names() -> (r: String)
    ensures
        r@ == "darcs, pijul, mercurial, and git"@,
{
    String::from_str("darcs, pijul, mercurial, and git")
}

} // verus!
