//! The render context and the substitution engine.

use vstd::prelude::*;
use crate::model::{Author, UserValue};
use vstd::std_specs::iter::IteratorSpec;
use crate::resolve::{license_label_spec, same_text, ResolvedLicense};

verus! {

broadcast use vstd::string::next_postcondition;

/// A calendar date, as the render context shows it.
pub struct Date {
    pub year: i32,
    pub month: i32,
    pub day: i32,
}

impl Date {
    /// A four-digit year, a month of the year and a day of the month.
    pub open spec fn wf(&self) -> bool {
        &&& 1000 <= self.year <= 9999
        &&& 1 <= self.month <= 12
        &&& 1 <= self.day <= 31
    }
}

/// The character of one decimal digit.
pub open spec fn digit_char(d: int) -> char {
    if d == 0 {
        '0'
    } else if d == 1 {
        '1'
    } else if d == 2 {
        '2'
    } else if d == 3 {
        '3'
    } else if d == 4 {
        '4'
    } else if d == 5 {
        '5'
    } else if d == 6 {
        '6'
    } else if d == 7 {
        '7'
    } else if d == 8 {
        '8'
    } else {
        '9'
    }
}

/// The decimal digits of a natural number, without leading zeros.
pub open spec fn decimal_spec(n: nat) -> Seq<char>
    decreases n,
{
    if n < 10 {
        seq![digit_char(n as int)]
    } else {
        decimal_spec(n / 10).push(digit_char((n % 10) as int))
    }
}

/// A number below one hundred as two digits, with a leading zero below ten.
pub open spec fn two_digits(n: nat) -> Seq<char> {
    seq![digit_char((n / 10) as int), digit_char((n % 10) as int)]
}

/// A date written `MM-DD-YYYY`.
pub open spec fn date_text(d: Date) -> Seq<char> {
    two_digits(d.month as nat) + seq!['-'] + two_digits(d.day as nat) + seq!['-']
        + decimal_spec(d.year as nat)
}

/// An ASCII lower-case letter in upper case; any other character unchanged.
pub open spec fn ascii_upper(c: char) -> char {
    if 'a' <= c && c <= 'z' {
        ((c as int) - 32) as char
    } else {
        c
    }
}

/// A name with its first character in ASCII upper case.
pub open spec fn capitalized(s: Seq<char>) -> Seq<char> {
    if s.len() == 0 {
        s
    } else {
        s.update(0, ascii_upper(s[0]))
    }
}

fn digit_str(d: u32) -> (r: &'static str)
    requires
        d < 10,
    ensures
        r@ == seq![digit_char(d as int)],
{
    proof {
        reveal_strlit("0");
        reveal_strlit("1");
        reveal_strlit("2");
        reveal_strlit("3");
        reveal_strlit("4");
        reveal_strlit("5");
        reveal_strlit("6");
        reveal_strlit("7");
        reveal_strlit("8");
        reveal_strlit("9");
    }
    if d == 0 {
        "0"
    } else if d == 1 {
        "1"
    } else if d == 2 {
        "2"
    } else if d == 3 {
        "3"
    } else if d == 4 {
        "4"
    } else if d == 5 {
        "5"
    } else if d == 6 {
        "6"
    } else if d == 7 {
        "7"
    } else if d == 8 {
        "8"
    } else {
        "9"
    }
}

/// The decimal digits of `n`.
pub fn decimal(n: u32) -> (r: String)
    ensures
        r@ == decimal_spec(n as nat),
    decreases n,
{
    if n < 10 {
        String::from_str(digit_str(n))
    } else {
        let mut s = decimal(n / 10);
        s.append(digit_str(n % 10));
        s
    }
}

/// Relies on time::strftime with the format `%m-%d-%Y`: the month and the
/// day as two digits each, then the year in decimal, joined by dashes. The
/// format is valid and the month in range, so the call does not fail.
#[verifier::external_body]
fn format_date(d: &Date) -> (r: String)
    requires
        d.wf(),
    ensures
        r@ == date_text(*d),
{
    let tm = time::Tm {
        tm_sec: 0, tm_min: 0, tm_hour: 0, tm_mday: d.day, tm_mon: d.month - 1,
        tm_year: d.year - 1900, tm_wday: 0, tm_yday: 0, tm_isdst: 0, tm_utcoff: 0, tm_nsec: 0,
    };
    match time::strftime("%m-%d-%Y", &tm) {
        Ok(s) => s,
        Err(_) => String::new(),
    }
}

/// Relies on case::CaseExt::to_capitalized: the first character is replaced
/// by its ASCII upper-case counterpart, the rest is kept.
#[verifier::external_body]
pub(crate) fn capitalize(s: &str) -> (r: String)
    ensures
        r@ == capitalized(s@),
{
    case::CaseExt::to_capitalized(s)
}

/// A variable bound to a list of records of one field each: the name of the
/// variable, the name of the field, and the field's value in each record.
pub struct Listing {
    pub name: String,
    pub field: String,
    pub items: Vec<String>,
}

/// An ordered list of bindings from variable names to text, read with the
/// last binding of a name winning, and the listing of generated files once
/// it is known. The listing shadows a text binding of the same name.
pub struct RenderContext {
    pub vars: Vec<(String, String)>,
    pub files: Option<Listing>,
}

/// The value bound last to `k` in an ordered list of bindings.
pub open spec fn lookup(s: Seq<(Seq<char>, Seq<char>)>, k: Seq<char>) -> Option<Seq<char>>
    decreases s.len(),
{
    if s.len() == 0 {
        None
    } else if s.last().0 == k {
        Some(s.last().1)
    } else {
        lookup(s.drop_last(), k)
    }
}

impl RenderContext {
    /// The bindings, in the order in which they were made.
    pub open spec fn vars_view(&self) -> Seq<(Seq<char>, Seq<char>)> {
        self.vars@.map_values(|p: (String, String)| (p.0@, p.1@))
    }

    /// The listing of generated files, if it has been set.
    pub open spec fn files_view(&self) -> Option<(Seq<char>, Seq<char>, Seq<Seq<char>>)> {
        match self.files {
            Some(l) => Some((l.name@, l.field@, l.items@.map_values(|s: String| s@))),
            None => None,
        }
    }

    /// The value that a template sees for `k`.
    pub open spec fn value_of(&self, k: Seq<char>) -> Option<Seq<char>> {
        lookup(self.vars_view(), k)
    }

    /// An empty context.
    pub fn new() -> (r: RenderContext)
        ensures
            r.vars_view() == Seq::<(Seq<char>, Seq<char>)>::empty(),
            r.files is None,
    {
        let r = RenderContext { vars: Vec::new(), files: None };
        assert(r.vars_view() =~= Seq::<(Seq<char>, Seq<char>)>::empty());
        r
    }

    /// Binds `key` to `value`, over any earlier binding of `key`.
    pub fn insert(&mut self, key: &str, value: String)
        ensures
            final(self).vars_view() == old(self).vars_view().push((key@, value@)),
            final(self).files == old(self).files,
            final(self).value_of(key@) == Some(value@),
            forall|k: Seq<char>| k != key@ ==> #[trigger] final(self).value_of(k) == old(self).value_of(k),
    {
        self.vars.push((key.to_owned(), value));
        assert(self.vars_view() =~= old(self).vars_view().push((key@, value@)));
        assert(self.vars_view().drop_last() =~= old(self).vars_view());
    }

    /// Sets the listing of generated files: the variable `files`, whose
    /// records hold each path under `file`.
    pub fn set_files(&mut self, files: Vec<String>)
        ensures
            final(self).vars == old(self).vars,
            final(self).files_view() == Some(
                ("files"@, "file"@, files@.map_values(|s: String| s@)),
            ),
    {
        self.files = Some(
            Listing { name: String::from_str("files"), field: String::from_str("file"), items: files },
        );
    }

    /// The value that a template sees for `key`.
    pub fn get(&self, key: &str) -> (r: Option<String>)
        ensures
            match r {
                Some(v) => self.value_of(key@) == Some(v@),
                None => self.value_of(key@) is None,
            },
    {
        let mut i: usize = self.vars.len();
        assert(self.vars_view().take(i as int) =~= self.vars_view());
        while i > 0
            invariant
                i <= self.vars.len(),
                self.value_of(key@) == lookup(self.vars_view().take(i as int), key@),
            decreases i,
        {
            proof {
                assert(self.vars_view().take(i as int).drop_last() =~= self.vars_view().take(
                    i - 1,
                ));
            }
            if same_text(self.vars[i - 1].0.as_str(), key) {
                return Some(self.vars[i - 1].1.clone());
            }
            i = i - 1;
        }
        None
    }
}

/// The text bindings of a `user` table, in its order; other values are left out.
pub open spec fn user_entries(t: Seq<(String, UserValue)>) -> Seq<(Seq<char>, Seq<char>)>
    decreases t.len(),
{
    if t.len() == 0 {
        Seq::empty()
    } else {
        let prev = user_entries(t.drop_last());
        match t.last().1 {
            UserValue::Text(v) => prev.push((t.last().0@, v@)),
            UserValue::Other => prev,
        }
    }
}

/// The text bindings of an optional `user` table.
pub open spec fn table_entries(t: Option<Vec<(String, UserValue)>>) -> Seq<(Seq<char>, Seq<char>)> {
    match t {
        Some(v) => user_entries(v@),
        None => Seq::empty(),
    }
}

/// Adds the text bindings of a `user` table to a context, in the table's order.
pub fn insert_user_table(ctx: &mut RenderContext, table: &Option<Vec<(String, UserValue)>>)
    ensures
        final(ctx).vars_view() == old(ctx).vars_view() + table_entries(*table),
        final(ctx).files == old(ctx).files,
{
    match table {
        None => {
            assert(ctx.vars_view() =~= old(ctx).vars_view() + table_entries(*table));
        },
        Some(t) => {
            let mut i: usize = 0;
            assert(t@.take(0) =~= Seq::<(String, UserValue)>::empty());
            assert(ctx.vars_view() =~= old(ctx).vars_view() + user_entries(t@.take(0)));
            while i < t.len()
                invariant
                    i <= t.len(),
                    ctx.vars_view() == old(ctx).vars_view() + user_entries(t@.take(i as int)),
                    ctx.files == old(ctx).files,
                decreases t.len() - i,
            {
                assert(t@.take(i + 1).drop_last() =~= t@.take(i as int));
                let ghost before = ctx.vars_view();
                match &t[i].1 {
                    UserValue::Text(v) => {
                        ctx.insert(t[i].0.as_str(), v.clone());
                        assert(ctx.vars_view() =~= old(ctx).vars_view() + user_entries(
                            t@.take(i + 1),
                        ));
                    },
                    UserValue::Other => {},
                }
                i = i + 1;
            }
            assert(t@.take(t.len() as int) =~= t@);
        },
    }
}

/// The value of `github_username`: the author's, or empty.
pub open spec fn github_spec(a: Author) -> Seq<char> {
    match a.github_username {
        Some(u) => u@,
        None => Seq::empty(),
    }
}

/// The value of `license`: the label of the resolved license, or empty.
pub open spec fn license_label_or_empty(l: Option<ResolvedLicense>) -> Seq<char> {
    match l {
        Some(r) => license_label_spec(r.kind),
        None => Seq::empty(),
    }
}

/// The built-in bindings, in the order in which they are made.
pub open spec fn builtin_entries(
    name: Seq<char>,
    date: Date,
    author: Author,
    version: Seq<char>,
    license: Option<ResolvedLicense>,
) -> Seq<(Seq<char>, Seq<char>)> {
    seq![
        ("project"@, name),
        ("Project"@, capitalized(name)),
        ("year"@, decimal_spec(date.year as nat)),
        ("name"@, author.name@),
        ("version"@, version),
        ("email"@, author.email@),
        ("github_username"@, github_spec(author)),
        ("license"@, license_label_or_empty(license)),
        ("date"@, date_text(date)),
    ]
}

/// The bindings of a fresh context: the template's `user` table, then the
/// global one, then the built-in keys. As the last binding of a name wins,
/// a global entry overrides a template entry of the same name, and a
/// built-in key overrides both.
pub open spec fn context_vars_spec(
    name: Seq<char>,
    date: Date,
    author: Author,
    version: Seq<char>,
    license: Option<ResolvedLicense>,
    local_user: Option<Vec<(String, UserValue)>>,
    global_user: Option<Vec<(String, UserValue)>>,
) -> Seq<(Seq<char>, Seq<char>)> {
    table_entries(local_user) + table_entries(global_user) + builtin_entries(
        name,
        date,
        author,
        version,
        license,
    )
}

/// Builds the render context of a run, without the file listing.
pub fn build_context(
    name: &str,
    date: &Date,
    author: &Author,
    version: &str,
    license: &Option<ResolvedLicense>,
    local_user: &Option<Vec<(String, UserValue)>>,
    global_user: &Option<Vec<(String, UserValue)>>,
) -> (r: RenderContext)
    requires
        date.wf(),
    ensures
        r.vars_view() == context_vars_spec(
            name@,
            *date,
            *author,
            version@,
            *license,
            *local_user,
            *global_user,
        ),
        r.files is None,
{
    let mut ctx = RenderContext::new();
    insert_user_table(&mut ctx, local_user);
    insert_user_table(&mut ctx, global_user);
    let ghost users = ctx.vars_view();
    ctx.insert("project", name.to_owned());
    ctx.insert("Project", capitalize(name));
    ctx.insert("year", decimal(date.year as u32));
    ctx.insert("name", author.name.clone());
    ctx.insert("version", version.to_owned());
    ctx.insert("email", author.email.clone());
    let github = match &author.github_username {
        Some(u) => u.clone(),
        None => String::new(),
    };
    ctx.insert("github_username", github);
    let label = match license {
        Some(l) => l.kind.label(),
        None => String::new(),
    };
    ctx.insert("license", label);
    ctx.insert("date", format_date(date));
    assert(ctx.vars_view() =~= users + builtin_entries(name@, *date, *author, version@, *license));
    ctx
}

/// Whether a character may open a tag: a name, a section (`#`, `^`, `/`)
/// or an unescaped value (`&`).
pub open spec fn tag_start(c: char) -> bool {
    ('a' <= c && c <= 'z') || ('A' <= c && c <= 'Z') || ('0' <= c && c <= '9') || c == '_' || c
        == '.' || c == ' ' || c == '#' || c == '^' || c == '/' || c == '&'
}

/// Whether every `{{` of a body opens a supported tag. Partials (`{{>`),
/// which would read another file, comments, triple braces and empty tags
/// are not supported.
pub open spec fn tags_supported(s: Seq<char>) -> bool {
    forall|i: int|
        0 <= i && i + 1 < s.len() && #[trigger] s[i] == '{' && s[i + 1] == '{' ==> i + 2 < s.len()
            && tag_start(s[i + 2])
}

/// Whether a character may open a tag.
fn is_tag_start(c: char) -> (r: bool)
    ensures
        r == tag_start(c),
{
    ('a' <= c && c <= 'z') || ('A' <= c && c <= 'Z') || ('0' <= c && c <= '9') || c == '_' || c
        == '.' || c == ' ' || c == '#' || c == '^' || c == '/' || c == '&'
}

/// Whether every `{{` of a body opens a supported tag.
pub fn has_supported_tags(body: &str) -> (r: bool)
    ensures
        r == tags_supported(body@),
{
    let ghost s = body@;
    let mut it = body.chars();
    proof {
        vstd::string::axiom_spec_iter(body);
    }
    let ghost mut i: int = 0;
    let mut a: char = ' ';
    let mut b: char = ' ';
    loop
        invariant
            s == body@,
            0 <= i <= s.len(),
            it.remaining() == s.skip(i),
            i >= 1 ==> b == s[i - 1],
            i < 1 ==> b == ' ',
            i >= 2 ==> a == s[i - 2],
            i < 2 ==> a == ' ',
            forall|j: int|
                0 <= j && j + 2 < i && #[trigger] s[j] == '{' && s[j + 1] == '{' ==> tag_start(
                    s[j + 2],
                ),
        decreases s.len() - i,
    {
        let ghost prev = it;
        match it.next() {
            None => {
                assert(s.skip(i).len() == 0);
                assert(i == s.len());
                if a == '{' && b == '{' {
                    assert(s[i - 2] == '{' && s[i - 1] == '{');
                    assert(!tags_supported(s));
                    return false;
                }
                return true;
            },
            Some(c) => {
                assert(prev.remaining()[0] == s[i]);
                if a == '{' && b == '{' && !is_tag_start(c) {
                    assert(i >= 2);
                    assert(s[i - 2] == '{' && s[i - 1] == '{' && !tag_start(s[i]));
                    assert(!tags_supported(s));
                    return false;
                }
                a = b;
                b = c;
                proof {
                    assert(s.skip(i).drop_first() =~= s.skip(i + 1));
                    i = i + 1;
                }
            },
        }
    }
}

/// What the mustache engine produces from a body and a context's bindings
/// and listing, or `None` where the body holds a malformed tag.
pub uninterp spec fn mustache_render(
    body: Seq<char>,
    vars: Seq<(Seq<char>, Seq<char>)>,
    listing: Option<(Seq<char>, Seq<char>, Seq<Seq<char>>)>,
) -> Option<Seq<char>>;

/// Relies on rustache's `Render::render` on a `HashBuilder`: the bindings go
/// in in order (a later one replaces an earlier one of the same name), then
/// the listing as a vector of one-field records. With only supported tags
/// the call returns, and its output depends on the body and these values
/// alone; some malformed bodies are an error.
#[verifier::external_body]
fn mustache(body: &str, ctx: &RenderContext) -> (r: Option<String>)
    requires
        tags_supported(body@),
    ensures
        match r {
            Some(s) => mustache_render(body@, ctx.vars_view(), ctx.files_view()) == Some(s@),
            None => mustache_render(body@, ctx.vars_view(), ctx.files_view()) is None,
        },
{
    let mut data = rustache::HashBuilder::new();
    for (k, v) in ctx.vars.iter() {
        data = data.insert(k, v.as_str());
    }
    if let Some(l) = &ctx.files {
        let record = |f: &String| rustache::HashBuilder::new().insert(&l.field, f.as_str());
        data = data.insert(&l.name, l.items.iter().fold(rustache::VecBuilder::new(), |acc, f| acc.push(record(f))));
    }
    let mut out: Vec<u8> = Vec::new();
    match rustache::Render::render(&data, body, &mut out) {
        Ok(()) => Some(String::from_utf8_lossy(&out).into_owned()),
        Err(_) => None,
    }
}

/// Why a body could not be rendered.
#[derive(Clone, Copy, PartialEq, Eq, Structural, Debug)]
pub enum RenderError {
    /// The body holds a tag that is not supported.
    UnsupportedTag,
    /// The body holds a malformed tag.
    Malformed,
}

/// The outcome of rendering `body` against `ctx`.
pub open spec fn render_spec(body: Seq<char>, ctx: RenderContext) -> Result<Seq<char>, RenderError> {
    if !tags_supported(body) {
        Err(RenderError::UnsupportedTag)
    } else {
        match mustache_render(body, ctx.vars_view(), ctx.files_view()) {
            Some(s) => Ok(s),
            None => Err(RenderError::Malformed),
        }
    }
}

/// Whether `r` is what rendering `body` against `ctx` gives.
pub open spec fn is_render_of(body: Seq<char>, ctx: RenderContext, r: Result<String, RenderError>) -> bool {
    match r {
        Ok(s) => render_spec(body, ctx) == Ok::<Seq<char>, RenderError>(s@),
        Err(e) => render_spec(body, ctx) == Err::<Seq<char>, RenderError>(e),
    }
}

/// Renders a body against a context, which it leaves as it is.
pub fn render(body: &str, ctx: &RenderContext) -> (r: Result<String, RenderError>)
    ensures
        is_render_of(body@, *ctx, r),
{
    if !has_supported_tags(body) {
        return Err(RenderError::UnsupportedTag);
    }
    match mustache(body, ctx) {
        Some(s) => Ok(s),
        None => Err(RenderError::Malformed),
    }
}

} // verus!
