//! The materialization plan: the directories and files that a file tree
//! declares, in the order in which they are created, with paths relative to
//! the project root.

use vstd::prelude::*;
use crate::context::{render, render_spec, RenderContext, RenderError};
use crate::model::{DirSpec, FileSpec, FileTree, TemplateDescriptor};
use crate::resolve::ResolvedLicense;

verus! {

/// How a declared file is produced.
#[derive(Clone, Copy, PartialEq, Eq, Structural, Debug)]
pub enum FileKind {
    /// Copied verbatim, not executable.
    Plain,
    /// Rendered, not executable.
    Template,
    /// Rendered, then marked executable.
    Script,
}

impl FileKind {
    /// Whether the body goes through the substitution engine.
    pub fn is_rendered(&self) -> (r: bool)
        ensures
            r == (*self != FileKind::Plain),
    {
        match self {
            FileKind::Plain => false,
            _ => true,
        }
    }

    /// Whether the created file gets the execute bits.
    pub fn is_executable(&self) -> (r: bool)
        ensures
            r == (*self == FileKind::Script),
    {
        match self {
            FileKind::Script => true,
            _ => false,
        }
    }
}

/// One step of materialization.
pub enum Step {
    /// Create a directory.
    Dir { path: String },
    /// Produce `dest` from the template's file `src`.
    File { src: String, dest: String, kind: FileKind },
}

/// A step with its paths as character sequences.
pub enum StepView {
    Dir(Seq<char>),
    File(Seq<char>, Seq<char>, FileKind),
}

impl View for Step {
    type V = StepView;

    open spec fn view(&self) -> StepView {
        match self {
            Step::Dir { path } => StepView::Dir(path@),
            Step::File { src, dest, kind } => StepView::File(src@, dest@, *kind),
        }
    }
}

/// The views of a list of steps.
pub open spec fn steps_view(s: Seq<Step>) -> Seq<StepView> {
    s.map_values(|x: Step| x@)
}

/// A path below `prefix`; below the root (an empty prefix) the name itself.
pub open spec fn join(prefix: Seq<char>, name: Seq<char>) -> Seq<char> {
    if prefix.len() == 0 {
        name
    } else {
        prefix + seq!['/'] + name
    }
}

/// The entries of an optional list.
pub open spec fn entries<T>(o: Option<Vec<T>>) -> Seq<T> {
    match o {
        Some(v) => v@,
        None => Seq::empty(),
    }
}

/// The steps of a list of files of one kind, in declaration order.
pub open spec fn file_steps(fs: Seq<FileSpec>, prefix: Seq<char>, kind: FileKind) -> Seq<StepView>
    decreases fs.len(),
{
    if fs.len() == 0 {
        Seq::empty()
    } else {
        file_steps(fs.drop_last(), prefix, kind).push(
            StepView::File(fs.last().src@, join(prefix, fs.last().dest@), kind),
        )
    }
}

/// The steps of a level of the tree: its directories, each followed by what
/// it holds, then its files, its templates and its scripts.
pub open spec fn tree_steps(t: FileTree, prefix: Seq<char>) -> Seq<StepView>
    decreases t,
{
    let dirs = match t.directories {
        Some(v) => dirs_steps(v@, prefix),
        None => Seq::empty(),
    };
    dirs + file_steps(entries(t.files), prefix, FileKind::Plain) + file_steps(
        entries(t.templates),
        prefix,
        FileKind::Template,
    ) + file_steps(entries(t.scripts), prefix, FileKind::Script)
}

/// The steps of a list of directories, in declaration order.
pub open spec fn dirs_steps(ds: Seq<DirSpec>, prefix: Seq<char>) -> Seq<StepView>
    decreases ds,
{
    if ds.len() == 0 {
        Seq::empty()
    } else {
        let d = ds.last();
        let p = join(prefix, d.path@);
        dirs_steps(ds.drop_last(), prefix) + seq![StepView::Dir(p)] + tree_steps(d.tree, p)
    }
}

/// The path of `name` below `prefix`.
pub fn join_path(prefix: &str, name: &str) -> (r: String)
    ensures
        r@ == join(prefix@, name@),
{
    if prefix.unicode_len() == 0 {
        name.to_owned()
    } else {
        let mut p = prefix.to_owned();
        p.append("/");
        proof {
            reveal_strlit("/");
        }
        p.append(name);
        p
    }
}

fn plan_files(fs: &Option<Vec<FileSpec>>, prefix: &str, kind: FileKind, out: &mut Vec<Step>)
    ensures
        steps_view(final(out)@) == steps_view(old(out)@) + file_steps(entries(*fs), prefix@, kind),
{
    match fs {
        None => {
            assert(steps_view(out@) =~= steps_view(old(out)@) + file_steps(entries(*fs), prefix@, kind));
        },
        Some(v) => {
            let mut i: usize = 0;
            assert(steps_view(out@) =~= steps_view(old(out)@) + file_steps(v@.take(0), prefix@, kind));
            while i < v.len()
                invariant
                    i <= v.len(),
                    steps_view(out@) == steps_view(old(out)@) + file_steps(v@.take(i as int), prefix@, kind),
                decreases v.len() - i,
            {
                assert(v@.take(i + 1).drop_last() =~= v@.take(i as int));
                assert(v@.take(i + 1).last() == v@[i as int]);
                let ghost before = steps_view(out@);
                let dest = join_path(prefix, v[i].dest.as_str());
                out.push(Step::File { src: v[i].src.clone(), dest, kind });
                assert(steps_view(out@) =~= before.push(
                    StepView::File(v@[i as int].src@, join(prefix@, v@[i as int].dest@), kind),
                ));
                assert(steps_view(out@) =~= steps_view(old(out)@) + file_steps(v@.take(i + 1), prefix@, kind));
                i = i + 1;
            }
            assert(v@.take(v.len() as int) =~= v@);
        },
    }
}

fn plan_level(t: &FileTree, prefix: &str, out: &mut Vec<Step>)
    ensures
        steps_view(final(out)@) == steps_view(old(out)@) + tree_steps(*t, prefix@),
    decreases t,
{
    let ghost start = steps_view(out@);
    match &t.directories {
        Some(v) => plan_dirs(v, prefix, out),
        None => {},
    }
    let ghost d = steps_view(out@);
    plan_files(&t.files, prefix, FileKind::Plain, out);
    plan_files(&t.templates, prefix, FileKind::Template, out);
    plan_files(&t.scripts, prefix, FileKind::Script, out);
    assert(steps_view(out@) =~= start + tree_steps(*t, prefix@));
}

fn plan_dirs(ds: &Vec<DirSpec>, prefix: &str, out: &mut Vec<Step>)
    ensures
        steps_view(final(out)@) == steps_view(old(out)@) + dirs_steps(ds@, prefix@),
    decreases ds,
{
    let mut i: usize = 0;
    assert(ds@.take(0) =~= Seq::<DirSpec>::empty());
    assert(steps_view(out@) =~= steps_view(old(out)@) + dirs_steps(ds@.take(0), prefix@));
    while i < ds.len()
        invariant
            i <= ds.len(),
            steps_view(out@) == steps_view(old(out)@) + dirs_steps(ds@.take(i as int), prefix@),
        decreases ds.len() - i,
    {
        assert(ds@.take(i + 1).drop_last() =~= ds@.take(i as int));
        assert(ds@.take(i + 1).last() == ds@[i as int]);
        let ghost before = steps_view(out@);
        let p = join_path(prefix, ds[i].path.as_str());
        out.push(Step::Dir { path: p.clone() });
        assert(steps_view(out@) =~= before + seq![StepView::Dir(p@)]);
        let ghost mid = steps_view(out@);
        plan_level(&ds[i].tree, p.as_str(), out);
        assert(steps_view(out@) == mid + tree_steps(ds@[i as int].tree, p@));
        assert(steps_view(out@) =~= steps_view(old(out)@) + dirs_steps(ds@.take(i + 1), prefix@));
        i = i + 1;
    }
    assert(ds@.take(ds.len() as int) =~= ds@);
}

/// The steps of a whole file tree, relative to the project root.
pub fn plan_tree(t: &FileTree) -> (r: Vec<Step>)
    ensures
        steps_view(r@) == tree_steps(*t, Seq::empty()),
{
    let mut out: Vec<Step> = Vec::new();
    let root = String::new();
    plan_level(t, root.as_str(), &mut out);
    assert(steps_view(out@) =~= tree_steps(*t, Seq::empty()));
    out
}

/// The destinations of the file steps, in order.
pub open spec fn listing_spec(s: Seq<StepView>) -> Seq<Seq<char>>
    decreases s.len(),
{
    if s.len() == 0 {
        Seq::empty()
    } else {
        let prev = listing_spec(s.drop_last());
        match s.last() {
            StepView::File(_, dest, _) => prev.push(dest),
            StepView::Dir(_) => prev,
        }
    }
}

/// The relative paths of the files that the steps create, in creation order.
pub fn generated_files(steps: &Vec<Step>) -> (r: Vec<String>)
    ensures
        r@.map_values(|x: String| x@) == listing_spec(steps_view(steps@)),
{
    let mut out: Vec<String> = Vec::new();
    let mut i: usize = 0;
    assert(steps_view(steps@).take(0) =~= Seq::<StepView>::empty());
    assert(out@.map_values(|x: String| x@) =~= Seq::<Seq<char>>::empty());
    while i < steps.len()
        invariant
            i <= steps.len(),
            out@.map_values(|x: String| x@) == listing_spec(steps_view(steps@).take(i as int)),
        decreases steps.len() - i,
    {
        assert(steps_view(steps@).take(i + 1).drop_last() =~= steps_view(steps@).take(i as int));
        let ghost before = out@.map_values(|x: String| x@);
        match &steps[i] {
            Step::File { dest, .. } => {
                out.push(dest.clone());
                assert(out@.map_values(|x: String| x@) =~= before.push(dest@));
            },
            Step::Dir { .. } => {},
        }
        i = i + 1;
    }
    assert(steps_view(steps@).take(steps.len() as int) =~= steps_view(steps@));
    out
}

/// Why a project cannot be materialized.
#[derive(Clone, Copy, PartialEq, Eq, Structural, Debug)]
pub enum PlanError {
    /// The target directory exists and overwriting was not asked for.
    TargetExists,
}

/// What to create for a project, relative to its root: the steps of the
/// file tree, the listing of the files they create, the `LICENSE` text if a
/// license was resolved, and whether the built-in README is rendered.
pub struct ProjectPlan {
    pub steps: Vec<Step>,
    pub listing: Vec<String>,
    pub license: Option<String>,
    pub readme: bool,
}

/// Whether `p` is the plan of a descriptor with a resolved license.
pub open spec fn plan_spec(
    d: TemplateDescriptor,
    license: Option<ResolvedLicense>,
    p: ProjectPlan,
) -> bool {
    &&& steps_view(p.steps@) == tree_steps(d.files, Seq::empty())
    &&& p.listing@.map_values(|x: String| x@) == listing_spec(steps_view(p.steps@))
    &&& match license {
        Some(l) => p.license is Some && p.license->Some_0@ == l.content@,
        None => p.license is None,
    }
    &&& p.readme == (d.with_readme == Some(true))
}

/// The existence guard: a run into an existing target goes on only when
/// overwriting was asked for.
pub fn check_target(target_exists: bool, force: bool) -> (r: Result<(), PlanError>)
    ensures
        r is Err <==> (target_exists && !force),
{
    if target_exists && !force {
        Err(PlanError::TargetExists)
    } else {
        Ok(())
    }
}

/// Plans the materialization of a template. Nothing is planned, so nothing
/// is written, when the target exists and `force` is not set; otherwise every
/// declared directory and file has its step.
pub fn plan_project(
    target_exists: bool,
    force: bool,
    d: &TemplateDescriptor,
    license: &Option<ResolvedLicense>,
) -> (r: Result<ProjectPlan, PlanError>)
    ensures
        r is Err <==> (target_exists && !force),
        r matches Ok(p) ==> plan_spec(*d, *license, p),
{
    match check_target(target_exists, force) {
        Err(e) => Err(e),
        Ok(()) => {
            let steps = plan_tree(&d.files);
            let listing = generated_files(&steps);
            let text = match license {
                Some(l) => Some(l.content.clone()),
                None => None,
            };
            let readme = match d.with_readme {
                Some(b) => b,
                None => false,
            };
            Ok(ProjectPlan { steps, listing, license: text, readme })
        },
    }
}

/// What a declared file of the given kind holds: its body itself, or the
/// body rendered.
pub open spec fn contents_spec(kind: FileKind, body: Seq<char>, ctx: RenderContext) -> Result<
    Seq<char>,
    RenderError,
> {
    if kind == FileKind::Plain {
        Ok(body)
    } else {
        render_spec(body, ctx)
    }
}

/// Produces the text of a declared file from its body.
pub fn file_contents(kind: FileKind, body: &str, ctx: &RenderContext) -> (r: Result<String, RenderError>)
    ensures
        match r {
            Ok(s) => contents_spec(kind, body@, *ctx) == Ok::<Seq<char>, RenderError>(s@),
            Err(e) => contents_spec(kind, body@, *ctx) == Err::<Seq<char>, RenderError>(e),
        },
{
    if kind.is_rendered() {
        render(body, ctx)
    } else {
        Ok(body.to_owned())
    }
}

} // verus!
