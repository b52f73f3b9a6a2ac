//! Properties that hold across the library's functions.

use vstd::prelude::*;
use crate::context::{
    builtin_entries, context_vars_spec, is_render_of, lookup, table_entries, Date, RenderContext,
};
use crate::model::{Author, DirSpec, FileSpec, FileTree, GlobalConfig, TemplateDescriptor, UserValue};
use crate::plan::{dirs_steps, entries, file_steps, join, plan_spec, steps_view, tree_steps, FileKind, ProjectPlan, StepView};
use crate::resolve::{license_lookup_spec, resolved_license_spec, LicenseTexts, ResolvedLicense};

verus! {

/// In the built-in flow, when both the global configuration and the template
/// name a license, the global one is resolved.
pub proof fn builtin_flow_prefers_global(
    global: GlobalConfig,
    template: TemplateDescriptor,
    texts: LicenseTexts,
    r: Option<ResolvedLicense>,
)
    requires
        global.license is Some,
        template.license is Some,
        resolved_license_spec(texts, global.license, template.license, r),
    ensures
        r is Some,
        license_lookup_spec(texts, global.license->Some_0@, r->Some_0),
{
}

/// In the path flow, when both the template and the global configuration
/// name a license, the template's own is resolved.
pub proof fn path_flow_prefers_template(
    global: GlobalConfig,
    template: TemplateDescriptor,
    texts: LicenseTexts,
    r: Option<ResolvedLicense>,
)
    requires
        global.license is Some,
        template.license is Some,
        resolved_license_spec(texts, template.license, global.license, r),
    ensures
        r is Some,
        license_lookup_spec(texts, template.license->Some_0@, r->Some_0),
{
}

/// Rendering the same body against an unchanged context twice gives the
/// same outcome, character for character.
pub proof fn render_is_repeatable(
    body: Seq<char>,
    ctx: RenderContext,
    r1: Result<String, crate::context::RenderError>,
    r2: Result<String, crate::context::RenderError>,
)
    requires
        is_render_of(body, ctx, r1),
        is_render_of(body, ctx, r2),
    ensures
        r1 is Ok <==> r2 is Ok,
        r1 is Ok ==> r1->Ok_0@ == r2->Ok_0@,
        r1 is Err ==> r1 == r2,
{
}

/// Two plans of one descriptor and license, whatever root each is carried
/// out under, create the same relative paths in the same order, list the
/// same files and write the same license text.
pub proof fn plans_are_deterministic(
    d: TemplateDescriptor,
    license: Option<ResolvedLicense>,
    p1: ProjectPlan,
    p2: ProjectPlan,
)
    requires
        plan_spec(d, license, p1),
        plan_spec(d, license, p2),
    ensures
        steps_view(p1.steps@) == steps_view(p2.steps@),
        p1.listing@.map_values(|x: String| x@) == p2.listing@.map_values(|x: String| x@),
        p1.license is Some <==> p2.license is Some,
        p1.license is Some ==> p1.license->Some_0@ == p2.license->Some_0@,
        p1.readme == p2.readme,
{
}

/// The steps of a list of files: one for each entry, in order, with its kind.
pub proof fn file_steps_entries(fs: Seq<FileSpec>, prefix: Seq<char>, kind: FileKind)
    ensures
        file_steps(fs, prefix, kind).len() == fs.len(),
        forall|j: int|
            0 <= j < fs.len() ==> #[trigger] file_steps(fs, prefix, kind)[j] == StepView::File(
                fs[j].src@,
                join(prefix, fs[j].dest@),
                kind,
            ),
    decreases fs.len(),
{
    if fs.len() > 0 {
        file_steps_entries(fs.drop_last(), prefix, kind);
    }
}

/// Every file declared at a level of the tree is planned with the kind of
/// the list that declares it: a script as `Script`, the only kind that is
/// made executable; a plain file as `Plain` and a template as `Template`.
pub proof fn declared_files_keep_their_kind(t: FileTree, prefix: Seq<char>)
    ensures
        forall|j: int|
            0 <= j < entries(t.scripts).len() ==> tree_steps(t, prefix).contains(
                StepView::File(
                    #[trigger] entries(t.scripts)[j].src@,
                    join(prefix, entries(t.scripts)[j].dest@),
                    FileKind::Script,
                ),
            ),
        forall|j: int|
            0 <= j < entries(t.templates).len() ==> tree_steps(t, prefix).contains(
                StepView::File(
                    #[trigger] entries(t.templates)[j].src@,
                    join(prefix, entries(t.templates)[j].dest@),
                    FileKind::Template,
                ),
            ),
        forall|j: int|
            0 <= j < entries(t.files).len() ==> tree_steps(t, prefix).contains(
                StepView::File(
                    #[trigger] entries(t.files)[j].src@,
                    join(prefix, entries(t.files)[j].dest@),
                    FileKind::Plain,
                ),
            ),
{
    let dirs = match t.directories {
        Some(v) => dirs_steps(v@, prefix),
        None => Seq::empty(),
    };
    let f = file_steps(entries(t.files), prefix, FileKind::Plain);
    let tm = file_steps(entries(t.templates), prefix, FileKind::Template);
    let sc = file_steps(entries(t.scripts), prefix, FileKind::Script);
    file_steps_entries(entries(t.files), prefix, FileKind::Plain);
    file_steps_entries(entries(t.templates), prefix, FileKind::Template);
    file_steps_entries(entries(t.scripts), prefix, FileKind::Script);
    let all = tree_steps(t, prefix);
    assert(all == dirs + f + tm + sc);
    assert forall|j: int| 0 <= j < entries(t.scripts).len() implies all.contains(
        StepView::File(
            #[trigger] entries(t.scripts)[j].src@,
            join(prefix, entries(t.scripts)[j].dest@),
            FileKind::Script,
        ),
    ) by {
        assert(all[dirs.len() + f.len() + tm.len() + j] == sc[j]);
    }
    assert forall|j: int| 0 <= j < entries(t.templates).len() implies all.contains(
        StepView::File(
            #[trigger] entries(t.templates)[j].src@,
            join(prefix, entries(t.templates)[j].dest@),
            FileKind::Template,
        ),
    ) by {
        assert(all[dirs.len() + f.len() + j] == tm[j]);
    }
    assert forall|j: int| 0 <= j < entries(t.files).len() implies all.contains(
        StepView::File(
            #[trigger] entries(t.files)[j].src@,
            join(prefix, entries(t.files)[j].dest@),
            FileKind::Plain,
        ),
    ) by {
        assert(all[dirs.len() + j] == f[j]);
    }
}

/// Looking a name up in two lists of bindings one after the other: the
/// second list's binding wins where it has one.
pub proof fn lookup_append(a: Seq<(Seq<char>, Seq<char>)>, b: Seq<(Seq<char>, Seq<char>)>, k: Seq<char>)
    ensures
        lookup(a + b, k) == match lookup(b, k) {
            Some(v) => Some(v),
            None => lookup(a, k),
        },
    decreases b.len(),
{
    if b.len() == 0 {
        assert(a + b =~= a);
    } else {
        assert((a + b).drop_last() =~= a + b.drop_last());
        assert((a + b).last() == b.last());
        lookup_append(a, b.drop_last(), k);
    }
}

/// A name bound nowhere in a list of bindings is looked up as absent.
pub proof fn lookup_absent(s: Seq<(Seq<char>, Seq<char>)>, k: Seq<char>)
    requires
        forall|i: int| 0 <= i < s.len() ==> (#[trigger] s[i]).0 != k,
    ensures
        lookup(s, k) is None,
    decreases s.len(),
{
    if s.len() > 0 {
        assert(s.last() == s[s.len() - 1]);
        lookup_absent(s.drop_last(), k);
    }
}

/// The names that every render context binds.
pub open spec fn is_builtin_key(k: Seq<char>) -> bool {
    k == "project"@ || k == "Project"@ || k == "year"@ || k == "name"@ || k == "version"@ || k
        == "email"@ || k == "github_username"@ || k == "license"@ || k == "date"@
}

/// A custom variable that the global `user` table binds to text keeps the
/// global value in the render context, whatever the template's own `user`
/// table binds it to.
pub proof fn global_user_value_wins(
    name: Seq<char>,
    date: Date,
    author: Author,
    version: Seq<char>,
    license: Option<ResolvedLicense>,
    local_user: Option<Vec<(String, UserValue)>>,
    global_user: Option<Vec<(String, UserValue)>>,
    k: Seq<char>,
)
    requires
        !is_builtin_key(k),
        lookup(table_entries(global_user), k) is Some,
    ensures
        lookup(context_vars_spec(name, date, author, version, license, local_user, global_user), k)
            == lookup(table_entries(global_user), k),
{
    let b = builtin_entries(name, date, author, version, license);
    assert forall|i: int| 0 <= i < b.len() implies (#[trigger] b[i]).0 != k by {
        if i == 0 {
        } else if i == 1 {
        } else if i == 2 {
        } else if i == 3 {
        } else if i == 4 {
        } else if i == 5 {
        } else if i == 6 {
        } else if i == 7 {
        } else {
        }
    }
    lookup_absent(b, k);
    lookup_append(table_entries(local_user) + table_entries(global_user), b, k);
    lookup_append(table_entries(local_user), table_entries(global_user), k);
}

/// What a list of directories plans includes the directory itself and
/// everything planned inside it, for each directory of the list.
pub proof fn dirs_steps_include_each_directory(ds: Seq<DirSpec>, prefix: Seq<char>)
    ensures
        forall|j: int|
            0 <= j < ds.len() ==> dirs_steps(ds, prefix).contains(
                StepView::Dir(join(prefix, (#[trigger] ds[j]).path@)),
            ),
        forall|j: int, x: StepView|
            0 <= j < ds.len() && #[trigger] tree_steps(ds[j].tree, join(prefix, ds[j].path@)).contains(
                x,
            ) ==> dirs_steps(ds, prefix).contains(x),
    decreases ds.len(),
{
    if ds.len() > 0 {
        let init = ds.drop_last();
        dirs_steps_include_each_directory(init, prefix);
        let d = ds.last();
        let p = join(prefix, d.path@);
        let head = dirs_steps(init, prefix);
        let own = tree_steps(d.tree, p);
        let all = dirs_steps(ds, prefix);
        assert(all == head + seq![StepView::Dir(p)] + own);
        assert forall|j: int| 0 <= j < ds.len() implies all.contains(
            StepView::Dir(join(prefix, (#[trigger] ds[j]).path@)),
        ) by {
            if j < ds.len() - 1 {
                assert(ds[j] == init[j]);
                let k = choose|k: int|
                    0 <= k < head.len() && head[k] == StepView::Dir(join(prefix, init[j].path@));
                assert(all[k] == head[k]);
            } else {
                assert(all[head.len() as int] == StepView::Dir(p));
            }
        }
        assert forall|j: int, x: StepView|
            0 <= j < ds.len() && #[trigger] tree_steps(ds[j].tree, join(prefix, ds[j].path@)).contains(
                x,
            ) implies all.contains(x) by {
            if j < ds.len() - 1 {
                assert(ds[j] == init[j]);
                assert(tree_steps(init[j].tree, join(prefix, init[j].path@)).contains(x));
                let k = choose|k: int| 0 <= k < head.len() && head[k] == x;
                assert(all[k] == x);
            } else {
                let k = choose|k: int| 0 <= k < own.len() && own[k] == x;
                assert(all[head.len() + 1 + k] == x);
            }
        }
    }
}

/// A level of the tree plans each of its directories and everything planned
/// inside them. With `declared_files_keep_their_kind` at each level, every
/// script at any depth is planned as `Script`, and every plain file or
/// template as a kind that is not made executable.
pub proof fn tree_steps_include_subtrees(t: FileTree, prefix: Seq<char>)
    ensures
        forall|j: int|
            0 <= j < entries(t.directories).len() ==> tree_steps(t, prefix).contains(
                StepView::Dir(join(prefix, (#[trigger] entries(t.directories)[j]).path@)),
            ),
        forall|j: int, x: StepView|
            0 <= j < entries(t.directories).len() && #[trigger] tree_steps(
                entries(t.directories)[j].tree,
                join(prefix, entries(t.directories)[j].path@),
            ).contains(x) ==> tree_steps(t, prefix).contains(x),
{
    let ds = entries(t.directories);
    dirs_steps_include_each_directory(ds, prefix);
    let dirs = match t.directories {
        Some(v) => dirs_steps(v@, prefix),
        None => Seq::empty(),
    };
    assert(dirs == dirs_steps(ds, prefix));
    let all = tree_steps(t, prefix);
    let rest = file_steps(entries(t.files), prefix, FileKind::Plain) + file_steps(
        entries(t.templates),
        prefix,
        FileKind::Template,
    ) + file_steps(entries(t.scripts), prefix, FileKind::Script);
    assert(all =~= dirs + rest);
    assert forall|j: int| 0 <= j < ds.len() implies all.contains(
        StepView::Dir(join(prefix, (#[trigger] ds[j]).path@)),
    ) by {
        let k = choose|k: int|
            0 <= k < dirs.len() && dirs[k] == StepView::Dir(join(prefix, ds[j].path@));
        assert(all[k] == dirs[k]);
    }
    assert forall|j: int, x: StepView|
        0 <= j < ds.len() && #[trigger] tree_steps(ds[j].tree, join(prefix, ds[j].path@)).contains(
            x,
        ) implies all.contains(x) by {
        let k = choose|k: int| 0 <= k < dirs.len() && dirs[k] == x;
        assert(all[k] == x);
    }
}

} // verus!
