use project_init::model::{Author, GlobalConfig, TemplateConfig, TemplateDescriptor, FileTree, UserValue};
use project_init::resolve::{
    lookup_license, resolve_license_for_builtin, resolve_license_for_path, resolve_version,
    LicenseKind, LicenseTexts,
};
use project_init::vcs::{resolve_vcs, vcs_kind, VcsChoice, VcsKind};

fn texts() -> LicenseTexts {
    LicenseTexts {
        bsd3: "bsd3 text".to_string(),
        bsd: "bsd text".to_string(),
        mit: "mit text".to_string(),
        gpl3: "gpl3 text".to_string(),
        all_rights_reserved: "all rights reserved text".to_string(),
    }
}

fn empty_tree() -> FileTree {
    FileTree { directories: None, files: None, templates: None, scripts: None }
}

fn descriptor(license: Option<&str>, config: Option<TemplateConfig>) -> TemplateDescriptor {
    TemplateDescriptor {
        license: license.map(|s| s.to_string()),
        with_readme: None,
        config,
        user: None,
        files: empty_tree(),
    }
}

fn global(license: Option<&str>, vcs: Option<&str>) -> GlobalConfig {
    GlobalConfig {
        author: Some(Author { name: "Ann".to_string(), email: "ann@example.org".to_string(), github_username: None }),
        license: license.map(|s| s.to_string()),
        version_control: vcs.map(|s| s.to_string()),
        user: Some(vec![("greeting".to_string(), UserValue::Text("hello".to_string()))]),
    }
}

#[test]
fn each_known_license_gives_its_own_text() {
    let t = texts();
    let cases = [
        ("BSD3", LicenseKind::Bsd3, "bsd3 text", "BSD3"),
        ("BSD", LicenseKind::Bsd, "bsd text", "BSD"),
        ("MIT", LicenseKind::Mit, "mit text", "MIT"),
        ("GPL3", LicenseKind::Gpl3, "gpl3 text", "GPL3"),
        ("AllRightsReserved", LicenseKind::AllRightsReserved, "all rights reserved text", "AllRightsReserved"),
    ];
    for (id, kind, content, label) in cases.iter() {
        let r = lookup_license(id, &t);
        assert!(r.kind == *kind);
        assert_eq!(r.content, *content);
        assert!(r.recognized);
        assert_eq!(r.kind.label(), *label);
    }
}

#[test]
fn unknown_license_falls_back_to_all_rights_reserved() {
    let r = lookup_license("WTFPL", &texts());
    assert!(r.kind == LicenseKind::AllRightsReserved);
    assert_eq!(r.content, "all rights reserved text");
    assert!(!r.recognized);
    let r = lookup_license("mit", &texts());
    assert!(!r.recognized);
}

#[test]
fn missing_version_defaults() {
    let (v, defaulted) = resolve_version(&None);
    assert_eq!(v, "0.1.0");
    assert!(defaulted);
    let (v, defaulted) = resolve_version(&Some(TemplateConfig { version: None, version_control: None }));
    assert_eq!(v, "0.1.0");
    assert!(defaulted);
    let (v, defaulted) = resolve_version(&Some(TemplateConfig { version: Some("2.3.4".to_string()), version_control: None }));
    assert_eq!(v, "2.3.4");
    assert!(!defaulted);
}

#[test]
fn builtin_flow_uses_global_license() {
    let r = resolve_license_for_builtin(&global(Some("MIT"), None), &descriptor(Some("BSD3"), None), &texts()).unwrap();
    assert!(r.kind == LicenseKind::Mit);
    assert_eq!(r.content, "mit text");
}

#[test]
fn path_flow_uses_template_license() {
    let r = resolve_license_for_path(&global(Some("MIT"), None), &descriptor(Some("BSD3"), None), &texts()).unwrap();
    assert!(r.kind == LicenseKind::Bsd3);
    assert_eq!(r.content, "bsd3 text");
}

#[test]
fn license_falls_back_to_the_other_source_or_none() {
    let r = resolve_license_for_path(&global(Some("GPL3"), None), &descriptor(None, None), &texts()).unwrap();
    assert!(r.kind == LicenseKind::Gpl3);
    let r = resolve_license_for_builtin(&global(None, None), &descriptor(Some("BSD"), None), &texts()).unwrap();
    assert!(r.kind == LicenseKind::Bsd);
    assert!(resolve_license_for_builtin(&global(None, None), &descriptor(None, None), &texts()).is_none());
    assert!(resolve_license_for_path(&global(None, None), &descriptor(None, None), &texts()).is_none());
}

#[test]
fn vcs_names_map_to_tools() {
    assert!(vcs_kind("git") == Some(VcsKind::Git));
    assert!(vcs_kind("hg") == Some(VcsKind::Mercurial));
    assert!(vcs_kind("mercurial") == Some(VcsKind::Mercurial));
    assert!(vcs_kind("pijul") == Some(VcsKind::Pijul));
    assert!(vcs_kind("darcs") == Some(VcsKind::Darcs));
    assert!(vcs_kind("svn").is_none());
    assert_eq!(VcsKind::Mercurial.program(), "hg");
    assert_eq!(VcsKind::Git.init_args("demo"), vec!["init".to_string(), "demo".to_string()]);
}

#[test]
fn vcs_template_choice_wins_then_global() {
    let cfg = Some(TemplateConfig { version: None, version_control: Some("hg".to_string()) });
    assert!(matches!(resolve_vcs(&cfg, &global(None, Some("git"))), VcsChoice::Init(VcsKind::Mercurial)));
    let cfg = Some(TemplateConfig { version: None, version_control: None });
    assert!(matches!(resolve_vcs(&cfg, &global(None, Some("git"))), VcsChoice::Init(VcsKind::Git)));
    assert!(matches!(resolve_vcs(&None, &global(None, None)), VcsChoice::Skip));
    match resolve_vcs(&None, &global(None, Some("svn"))) {
        VcsChoice::Unsupported(n) => assert_eq!(n, "svn"),
        _ => panic!("expected an unsupported choice"),
    }
}
