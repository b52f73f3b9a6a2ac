use project_init::builtin::{builtin_extras, builtin_kind, Asset, Builtin, ExtraMode};
use project_init::context::{build_context, decimal, has_supported_tags, render, Date, RenderContext, RenderError};
use project_init::model::{Author, DirSpec, FileSpec, FileTree, TemplateDescriptor, UserValue};
use project_init::plan::{check_target, file_contents, join_path, plan_project, plan_tree, FileKind, PlanError, Step};
use project_init::resolve::{lookup_license, LicenseTexts};

fn author() -> Author {
    Author { name: "Ann".to_string(), email: "ann@example.org".to_string(), github_username: None }
}

fn date() -> Date {
    Date { year: 2024, month: 3, day: 7 }
}

fn spec(src: &str, dest: &str) -> FileSpec {
    FileSpec { src: src.to_string(), dest: dest.to_string() }
}

fn texts() -> LicenseTexts {
    LicenseTexts {
        bsd3: "bsd3 text".to_string(),
        bsd: "bsd text".to_string(),
        mit: "MIT License, {{year}}".to_string(),
        gpl3: "gpl3 text".to_string(),
        all_rights_reserved: "all rights reserved text".to_string(),
    }
}

fn demo_context() -> RenderContext {
    build_context("demo", &date(), &author(), "0.1.0", &None, &None, &None)
}

fn table(entries: &[(&str, &str)]) -> Option<Vec<(String, UserValue)>> {
    Some(entries.iter().map(|(k, v)| (k.to_string(), UserValue::Text(v.to_string()))).collect())
}

fn file_step(s: &Step) -> (String, String, FileKind) {
    match s {
        Step::File { src, dest, kind } => (src.clone(), dest.clone(), *kind),
        Step::Dir { path } => panic!("unexpected directory {}", path),
    }
}

#[test]
fn decimal_digits() {
    assert_eq!(decimal(0), "0");
    assert_eq!(decimal(7), "7");
    assert_eq!(decimal(2024), "2024");
    assert_eq!(decimal(4294967295), "4294967295");
}

#[test]
fn builtin_keys_of_a_fresh_context() {
    let ctx = demo_context();
    assert_eq!(ctx.get("project").unwrap(), "demo");
    assert_eq!(ctx.get("Project").unwrap(), "Demo");
    assert_eq!(ctx.get("year").unwrap(), "2024");
    assert_eq!(ctx.get("date").unwrap(), "03-07-2024");
    assert_eq!(ctx.get("name").unwrap(), "Ann");
    assert_eq!(ctx.get("email").unwrap(), "ann@example.org");
    assert_eq!(ctx.get("github_username").unwrap(), "");
    assert_eq!(ctx.get("license").unwrap(), "");
    assert_eq!(ctx.get("version").unwrap(), "0.1.0");
    assert!(ctx.get("greeting").is_none());
    assert!(ctx.files.is_none());
}

#[test]
fn license_label_in_context() {
    let lic = Some(lookup_license("GPL3", &texts()));
    let ctx = build_context("x", &date(), &author(), "1.0.0", &lic, &None, &None);
    assert_eq!(ctx.get("license").unwrap(), "GPL3");
}

#[test]
fn global_user_variable_overrides_template_one() {
    let local = table(&[("greeting", "hi"), ("only_local", "l")]);
    let global = table(&[("greeting", "hello"), ("only_global", "g")]);
    let ctx = build_context("demo", &date(), &author(), "0.1.0", &None, &local, &global);
    assert_eq!(ctx.get("greeting").unwrap(), "hello");
    assert_eq!(ctx.get("only_local").unwrap(), "l");
    assert_eq!(ctx.get("only_global").unwrap(), "g");
}

#[test]
fn builtin_keys_override_user_variables_and_other_values_are_skipped() {
    let local = Some(vec![
        ("project".to_string(), UserValue::Text("other".to_string())),
        ("count".to_string(), UserValue::Other),
    ]);
    let ctx = build_context("demo", &date(), &author(), "0.1.0", &None, &local, &None);
    assert_eq!(ctx.get("project").unwrap(), "demo");
    assert!(ctx.get("count").is_none());
}

#[test]
fn render_interpolates_and_is_repeatable() {
    let ctx = demo_context();
    let body = "# {{Project}} ({{project}}) v{{version}}, {{ year }}";
    let a = render(body, &ctx).unwrap();
    let b = render(body, &ctx).unwrap();
    assert_eq!(a, "# Demo (demo) v0.1.0, 2024");
    assert_eq!(a, b);
    assert_eq!(ctx.get("project").unwrap(), "demo");
}

#[test]
fn render_lists_generated_files() {
    let mut ctx = demo_context();
    ctx.set_files(vec!["a.txt".to_string(), "src/b.rs".to_string()]);
    let out = render("{{#files}}[{{file}}]{{/files}}", &ctx).unwrap();
    assert_eq!(out, "[a.txt][src/b.rs]");
}

#[test]
fn render_rejects_unsupported_tags() {
    let ctx = demo_context();
    assert_eq!(render("{{> other}}", &ctx), Err(RenderError::UnsupportedTag));
    assert_eq!(render("{{! note}}", &ctx), Err(RenderError::UnsupportedTag));
    assert_eq!(render("{{}}", &ctx), Err(RenderError::UnsupportedTag));
    assert_eq!(render("ends with {{", &ctx), Err(RenderError::UnsupportedTag));
    assert!(has_supported_tags("plain { text } {{name}}"));
    assert!(!has_supported_tags("{{{raw}}}"));
}

#[test]
fn file_contents_by_kind() {
    let ctx = demo_context();
    assert_eq!(file_contents(FileKind::Plain, "{{project}}", &ctx).unwrap(), "{{project}}");
    assert_eq!(file_contents(FileKind::Template, "{{project}}", &ctx).unwrap(), "demo");
    assert_eq!(file_contents(FileKind::Script, "#!/bin/sh\necho {{project}}", &ctx).unwrap(), "#!/bin/sh\necho demo");
    assert!(!FileKind::Plain.is_executable());
    assert!(!FileKind::Template.is_executable());
    assert!(FileKind::Script.is_executable());
}

fn nested_tree() -> FileTree {
    FileTree {
        directories: Some(vec![DirSpec {
            path: "src".to_string(),
            tree: FileTree {
                directories: Some(vec![DirSpec {
                    path: "bin".to_string(),
                    tree: FileTree { directories: None, files: Some(vec![spec("main.rs", "main.rs")]), templates: None, scripts: None },
                }]),
                files: None,
                templates: Some(vec![spec("lib.tmpl", "lib.rs")]),
                scripts: None,
            },
        }]),
        files: Some(vec![spec("notes.txt", "NOTES")]),
        templates: Some(vec![spec("README.tmpl", "README.md")]),
        scripts: Some(vec![spec("run.sh", "run.sh")]),
    }
}

#[test]
fn plan_walks_nested_directories_in_order() {
    let steps = plan_tree(&nested_tree());
    assert_eq!(steps.len(), 7);
    assert!(matches!(&steps[0], Step::Dir { path } if path == "src"));
    assert!(matches!(&steps[1], Step::Dir { path } if path == "src/bin"));
    assert_eq!(file_step(&steps[2]), ("main.rs".to_string(), "src/bin/main.rs".to_string(), FileKind::Plain));
    assert_eq!(file_step(&steps[3]), ("lib.tmpl".to_string(), "src/lib.rs".to_string(), FileKind::Template));
    assert_eq!(file_step(&steps[4]), ("notes.txt".to_string(), "NOTES".to_string(), FileKind::Plain));
    assert_eq!(file_step(&steps[5]), ("README.tmpl".to_string(), "README.md".to_string(), FileKind::Template));
    assert_eq!(file_step(&steps[6]), ("run.sh".to_string(), "run.sh".to_string(), FileKind::Script));
    assert_eq!(join_path("", "a"), "a");
    assert_eq!(join_path("a/b", "c"), "a/b/c");
}

#[test]
fn only_scripts_are_executable() {
    let steps = plan_tree(&nested_tree());
    for s in steps.iter() {
        if let Step::File { src, kind, .. } = s {
            assert_eq!(kind.is_executable(), src == "run.sh");
        }
    }
}

fn descriptor(tree: FileTree, with_readme: Option<bool>, license: Option<&str>) -> TemplateDescriptor {
    TemplateDescriptor {
        license: license.map(|s| s.to_string()),
        with_readme,
        config: None,
        user: None,
        files: tree,
    }
}

#[test]
fn plans_of_one_descriptor_agree() {
    let d = descriptor(nested_tree(), Some(true), None);
    let a = plan_project(false, false, &d, &None).unwrap();
    let b = plan_project(false, false, &d, &None).unwrap();
    let sa: Vec<_> = a.steps.iter().filter(|s| matches!(s, Step::File { .. })).map(file_step).collect();
    let sb: Vec<_> = b.steps.iter().filter(|s| matches!(s, Step::File { .. })).map(file_step).collect();
    assert_eq!(sa, sb);
    assert_eq!(a.listing, b.listing);
    assert_eq!(
        a.listing,
        vec!["src/bin/main.rs", "src/lib.rs", "NOTES", "README.md", "run.sh"]
    );
    assert!(a.readme);
    assert!(a.license.is_none());
}

#[test]
fn existing_target_without_force_is_refused() {
    let d = descriptor(nested_tree(), None, None);
    assert_eq!(check_target(true, false), Err(PlanError::TargetExists));
    assert!(matches!(plan_project(true, false, &d, &None), Err(PlanError::TargetExists)));
    assert_eq!(check_target(false, false), Ok(()));
    let forced = plan_project(true, true, &d, &None).unwrap();
    assert_eq!(forced.steps.len(), 7);
    assert_eq!(forced.listing.len(), 5);
}

#[test]
fn readme_template_and_mit_license_scenario() {
    let tree = FileTree {
        directories: None,
        files: Some(vec![]),
        templates: Some(vec![spec("README.tmpl", "README.md")]),
        scripts: None,
    };
    let d = descriptor(tree, Some(false), Some("MIT"));
    let lic = Some(lookup_license("MIT", &texts()));
    let plan = plan_project(false, false, &d, &lic).unwrap();
    assert_eq!(plan.steps.len(), 1);
    assert_eq!(file_step(&plan.steps[0]), ("README.tmpl".to_string(), "README.md".to_string(), FileKind::Template));
    assert_eq!(plan.listing, vec!["README.md"]);
    assert_eq!(plan.license.as_deref(), Some("MIT License, {{year}}"));
    assert!(!plan.readme);
    let ctx = build_context("demo", &date(), &author(), "0.1.0", &lic, &None, &None);
    assert_eq!(render("# {{project}} ({{license}})", &ctx).unwrap(), "# demo (MIT)");
}

#[test]
fn builtin_names() {
    assert_eq!(builtin_kind("rust"), Some(Builtin::Rust));
    assert_eq!(builtin_kind("vim"), Some(Builtin::Vim));
    assert_eq!(builtin_kind("python"), Some(Builtin::Python));
    assert_eq!(builtin_kind("haskell"), Some(Builtin::Haskell));
    assert_eq!(builtin_kind("idris"), Some(Builtin::Idris));
    assert_eq!(builtin_kind("julia"), Some(Builtin::Julia));
    assert_eq!(builtin_kind("plain"), Some(Builtin::Plain));
    assert_eq!(builtin_kind("cobol"), None);
    assert_eq!(Builtin::Vim.descriptor_asset(), Asset::VimTemplate);
}

#[test]
fn builtin_trailing_files() {
    let idris = builtin_extras(Builtin::Idris, "demo");
    let dests: Vec<&str> = idris.iter().map(|e| e.dest.as_str()).collect();
    assert_eq!(dests, vec!["demo.ipkg", "Demo.idr", "Demo/demo.idr"]);
    let julia = builtin_extras(Builtin::Julia, "demo");
    assert_eq!(julia[1].dest, "src/Demo.jl");
    assert_eq!(julia[1].mode, ExtraMode::Copy);
    let py = builtin_extras(Builtin::Python, "tool");
    assert_eq!(py[2].dest, "bin/tool");
    assert_eq!(py[2].asset, Asset::PyBin);
    assert_eq!(builtin_extras(Builtin::Haskell, "h").len(), 11);
    assert!(builtin_extras(Builtin::Plain, "p").is_empty());
    assert_eq!(builtin_extras(Builtin::Vim, "v")[0].mode, ExtraMode::Render);
}

#[test]
fn capitalized_name_and_padded_date() {
    let late = Date { year: 1999, month: 12, day: 31 };
    let ctx = build_context("élan", &late, &author(), "1.0.0", &None, &None, &None);
    assert_eq!(ctx.get("Project").unwrap(), "élan");
    assert_eq!(ctx.get("date").unwrap(), "12-31-1999");
    assert_eq!(ctx.get("year").unwrap(), "1999");
    let ctx = build_context("", &date(), &author(), "1.0.0", &None, &None, &None);
    assert_eq!(ctx.get("Project").unwrap(), "");
    let ctx = build_context("x-y", &date(), &author(), "1.0.0", &None, &None, &None);
    assert_eq!(ctx.get("Project").unwrap(), "X-y");
}

#[test]
fn github_username_when_present() {
    let a = Author { name: "B".to_string(), email: "b@x".to_string(), github_username: Some("bee".to_string()) };
    let ctx = build_context("p", &date(), &a, "1.0.0", &None, &None, &None);
    assert_eq!(ctx.get("github_username").unwrap(), "bee");
}
