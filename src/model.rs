//! The descriptor model: global configuration and the parsed form of a template.

use vstd::prelude::*;

verus! {

/// Who the project is written by.
pub struct Author {
    pub name: String,
    pub email: String,
    pub github_username: Option<String>,
}

/// A value of a free-form `user` table: only plain strings reach a render context.
pub enum UserValue {
    Text(String),
    Other,
}

/// The per-user configuration, loaded once and read only.
pub struct GlobalConfig {
    pub author: Option<Author>,
    pub license: Option<String>,
    pub version_control: Option<String>,
    pub user: Option<Vec<(String, UserValue)>>,
}

/// The `config` block of a template.
pub struct TemplateConfig {
    pub version: Option<String>,
    pub version_control: Option<String>,
}

/// One file of a template: where its body comes from, and where it goes in the project.
pub struct FileSpec {
    pub src: String,
    pub dest: String,
}

/// A directory of the project, with what it holds in turn.
pub struct DirSpec {
    pub path: String,
    pub tree: FileTree,
}

/// The directories and files that a template declares, at one level of the tree.
pub struct FileTree {
    pub directories: Option<Vec<DirSpec>>,
    pub files: Option<Vec<FileSpec>>,
    pub templates: Option<Vec<FileSpec>>,
    pub scripts: Option<Vec<FileSpec>>,
}

/// The parsed form of a template's definition.
pub struct TemplateDescriptor {
    pub license: Option<String>,
    pub with_readme: Option<bool>,
    pub config: Option<TemplateConfig>,
    pub user: Option<Vec<(String, UserValue)>>,
    pub files: FileTree,
}

} // verus!
