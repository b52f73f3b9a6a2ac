//! Resolution of the values that materialization needs: license, version and
//! version control, each from the template and the global configuration by a
//! fixed precedence.

use vstd::prelude::*;
use crate::model::{GlobalConfig, TemplateConfig, TemplateDescriptor};

verus! {

/// Whether two strings hold the same characters.
pub fn same_text(a: &str, b: &str) -> (r: bool)
    ensures
        r == (a@ == b@),
{
    a.to_owned() == b.to_owned()
}

/// The licenses that a template or the global configuration may name.
#[derive(Clone, Copy, PartialEq, Eq, Structural)]
pub enum LicenseKind {
    Bsd3,
    Bsd,
    Mit,
    Gpl3,
    AllRightsReserved,
}

/// The license bodies, one for each kind, as the content registry holds them.
pub struct LicenseTexts {
    pub bsd3: String,
    pub bsd: String,
    pub mit: String,
    pub gpl3: String,
    pub all_rights_reserved: String,
}

/// A license once resolved: its kind, the text of its `LICENSE` file, and
/// whether the identifier asked for was one of the known ones.
pub struct ResolvedLicense {
    pub kind: LicenseKind,
    pub content: String,
    pub recognized: bool,
}

/// The kind that an identifier names, if it names one.
pub open spec fn license_kind_spec(id: Seq<char>) -> Option<LicenseKind> {
    if id == "BSD3"@ {
        Some(LicenseKind::Bsd3)
    } else if id == "BSD"@ {
        Some(LicenseKind::Bsd)
    } else if id == "MIT"@ {
        Some(LicenseKind::Mit)
    } else if id == "GPL3"@ {
        Some(LicenseKind::Gpl3)
    } else if id == "AllRightsReserved"@ {
        Some(LicenseKind::AllRightsReserved)
    } else {
        None
    }
}

/// The label under which a license kind appears in a render context.
/// The GPL license is labelled `GPL3`, the same as its identifier.
pub open spec fn license_label_spec(k: LicenseKind) -> Seq<char> {
    match k {
        LicenseKind::Bsd3 => "BSD3"@,
        LicenseKind::Bsd => "BSD"@,
        LicenseKind::Mit => "MIT"@,
        LicenseKind::Gpl3 => "GPL3"@,
        LicenseKind::AllRightsReserved => "AllRightsReserved"@,
    }
}

/// The body of a license kind in the registry.
pub open spec fn license_content_spec(texts: LicenseTexts, k: LicenseKind) -> Seq<char> {
    match k {
        LicenseKind::Bsd3 => texts.bsd3@,
        LicenseKind::Bsd => texts.bsd@,
        LicenseKind::Mit => texts.mit@,
        LicenseKind::Gpl3 => texts.gpl3@,
        LicenseKind::AllRightsReserved => texts.all_rights_reserved@,
    }
}

/// What an identifier resolves to: its own kind, or `AllRightsReserved`
/// (with `recognized` false) for an identifier outside the known set.
pub open spec fn license_lookup_spec(texts: LicenseTexts, id: Seq<char>, r: ResolvedLicense) -> bool {
    match license_kind_spec(id) {
        Some(k) => r.kind == k && r.content@ == license_content_spec(texts, k) && r.recognized,
        None => r.kind == LicenseKind::AllRightsReserved && r.content@
            == texts.all_rights_reserved@ && !r.recognized,
    }
}

impl LicenseKind {
    /// The label of this kind in a render context.
    pub fn label(&self) -> (r: String)
        ensures
            r@ == license_label_spec(*self),
    {
        match self {
            LicenseKind::Bsd3 => String::from_str("BSD3"),
            LicenseKind::Bsd => String::from_str("BSD"),
            LicenseKind::Mit => String::from_str("MIT"),
            LicenseKind::Gpl3 => String::from_str("GPL3"),
            LicenseKind::AllRightsReserved => String::from_str("AllRightsReserved"),
        }
    }
}

impl LicenseTexts {
    /// The body of the given kind.
    pub fn content(&self, k: LicenseKind) -> (r: String)
        ensures
            r@ == license_content_spec(*self, k),
    {
        match k {
            LicenseKind::Bsd3 => self.bsd3.clone(),
            LicenseKind::Bsd => self.bsd.clone(),
            LicenseKind::Mit => self.mit.clone(),
            LicenseKind::Gpl3 => self.gpl3.clone(),
            LicenseKind::AllRightsReserved => self.all_rights_reserved.clone(),
        }
    }
}

/// The kind that an identifier names, if it names one.
pub fn license_kind(id: &str) -> (r: Option<LicenseKind>)
    ensures
        r == license_kind_spec(id@),
{
    if same_text(id, "BSD3") {
        Some(LicenseKind::Bsd3)
    } else if same_text(id, "BSD") {
        Some(LicenseKind::Bsd)
    } else if same_text(id, "MIT") {
        Some(LicenseKind::Mit)
    } else if same_text(id, "GPL3") {
        Some(LicenseKind::Gpl3)
    } else if same_text(id, "AllRightsReserved") {
        Some(LicenseKind::AllRightsReserved)
    } else {
        None
    }
}

/// Resolves one license identifier against the registry; an unknown one falls
/// back to `AllRightsReserved` and is reported as not recognized.
pub fn lookup_license(id: &str, texts: &LicenseTexts) -> (r: ResolvedLicense)
    ensures
        license_lookup_spec(*texts, id@, r),
{
    match license_kind(id) {
        Some(k) => ResolvedLicense { kind: k, content: texts.content(k), recognized: true },
        None => ResolvedLicense {
            kind: LicenseKind::AllRightsReserved,
            content: texts.all_rights_reserved.clone(),
            recognized: false,
        },
    }
}

/// The identifier that wins when `first` takes precedence over `second`.
pub open spec fn preferred(first: Option<String>, second: Option<String>) -> Option<String> {
    if first is Some {
        first
    } else {
        second
    }
}

/// What a pair of optional identifiers resolves to, `first` taking precedence.
pub open spec fn resolved_license_spec(
    texts: LicenseTexts,
    first: Option<String>,
    second: Option<String>,
    r: Option<ResolvedLicense>,
) -> bool {
    match preferred(first, second) {
        Some(id) => r is Some && license_lookup_spec(texts, id@, r->Some_0),
        None => r is None,
    }
}

/// The shared core of both flows: `first` is consulted before `second`, and
/// no license is produced when neither is set.
pub fn resolve_license(first: &Option<String>, second: &Option<String>, texts: &LicenseTexts) -> (r:
    Option<ResolvedLicense>)
    ensures
        resolved_license_spec(*texts, *first, *second, r),
{
    match first {
        Some(id) => Some(lookup_license(id.as_str(), texts)),
        None => match second {
            Some(id) => Some(lookup_license(id.as_str(), texts)),
            None => None,
        },
    }
}

/// The license of a built-in template: the global configuration's choice
/// overrides the one the built-in template declares.
pub fn resolve_license_for_builtin(
    global: &GlobalConfig,
    template: &TemplateDescriptor,
    texts: &LicenseTexts,
) -> (r: Option<ResolvedLicense>)
    ensures
        resolved_license_spec(*texts, global.license, template.license, r),
{
    resolve_license(&global.license, &template.license, texts)
}

/// The license of a template read from a path: the template's own choice
/// overrides the global configuration's.
pub fn resolve_license_for_path(
    global: &GlobalConfig,
    template: &TemplateDescriptor,
    texts: &LicenseTexts,
) -> (r: Option<ResolvedLicense>)
    ensures
        resolved_license_spec(*texts, template.license, global.license, r),
{
    resolve_license(&template.license, &global.license, texts)
}

/// The version that a template declares, if it declares one.
pub open spec fn declared_version(config: Option<TemplateConfig>) -> Option<String> {
    match config {
        Some(c) => c.version,
        None => None,
    }
}

/// The version of the project: the template's `config.version`, else `0.1.0`.
/// The flag is true when the default was used. The global configuration is
/// never consulted.
pub fn resolve_version(config: &Option<TemplateConfig>) -> (r: (String, bool))
    ensures
        match declared_version(*config) {
            Some(v) => r.0@ == v@ && !r.1,
            None => r.0@ == "0.1.0"@ && r.1,
        },
{
    match config {
        Some(c) => match &c.version {
            Some(v) => (v.clone(), false),
            None => (String::from_str("0.1.0"), true),
        },
        None => (String::from_str("0.1.0"), true),
    }
}

} // verus!
