//! Modrinth: the requests the mod store makes, what its answers turn into, and
//! disabling and enabling installed mods by renaming them.
use vstd::prelude::*;
use crate::text;

verus! {

/// A mod found by a Modrinth search.
#[derive(Debug, Clone)]
pub struct ModSearchResult {
    pub project_id: String,
    pub slug: String,
    pub title: String,
    pub description: String,
    pub author: String,
    pub downloads: u64,
    pub icon_url: Option<String>,
    pub categories: Vec<String>,
    pub latest_version: Option<String>,
}

/// A published version of a mod.
#[derive(Debug, Clone)]
pub struct ModVersion {
    pub id: String,
    pub version_number: String,
    pub name: String,
    pub game_versions: Vec<String>,
    pub loaders: Vec<String>,
    pub downloads: u64,
    pub files: Vec<ModFile>,
}

/// A downloadable file of a mod version.
#[derive(Debug, Clone)]
pub struct ModFile {
    pub url: String,
    pub filename: String,
    pub size: u64,
    pub primary: bool,
}

/// The outcome of installing a mod file.
#[derive(Debug, Clone)]
pub struct InstallResult {
    pub success: bool,
    pub filename: String,
    pub installed_path: String,
    pub message: String,
}

pub open spec fn ov(o: Option<String>) -> Option<Seq<char>> {
    match o {
        Some(s) => Some(s@),
        None => None,
    }
}

pub open spec fn or_default(o: Option<String>, d: Seq<char>) -> Seq<char> {
    match o {
        Some(s) => s@,
        None => d,
    }
}

fn or_text(o: Option<String>, d: &str) -> (r: String)
    ensures
        r@ == or_default(o, d@),
{
    match o {
        Some(s) => s,
        None => text::to_string(d),
    }
}

/// The Modrinth API address.
pub open spec fn modrinth_api() -> Seq<char> {
    "https://api.modrinth.com/v2"@
}

/// The query string of a version request: `game_versions=["v"]` and
/// `loaders=["l"]` (loader lower-cased, quotes as `%22`), joined by `&`.
pub open spec fn version_params(mc_version: Option<Seq<char>>, loader: Option<Seq<char>>) -> Seq<Seq<char>> {
    (match mc_version {
        Some(v) => seq!["game_versions=[%22"@ + v + "%22]"@],
        None => Seq::empty(),
    }) + (match loader {
        Some(l) => seq!["loaders=[%22"@ + text::spec_lowercase(l) + "%22]"@],
        None => Seq::empty(),
    })
}

/// The address of a project's versions, with the filters as query parameters.
pub open spec fn versions_url_text(project_id: Seq<char>, mc_version: Option<Seq<char>>, loader: Option<Seq<char>>) -> Seq<char> {
    let base = modrinth_api() + "/project/"@ + project_id + "/version"@;
    let params = version_params(mc_version, loader);
    if params.len() == 0 {
        base
    } else {
        base + "?"@ + text::join(params, "&"@)
    }
}

pub open spec fn osv(o: Option<&str>) -> Option<Seq<char>> {
    match o {
        Some(s) => Some(s@),
        None => None,
    }
}

/// The address that lists a project's versions for a game version and loader.
pub fn versions_url(project_id: &str, mc_version: Option<&str>, loader: Option<&str>) -> (r: String)
    ensures
        r@ == versions_url_text(project_id@, osv(mc_version), osv(loader)),
{
    let mut params: Vec<String> = Vec::new();
    match mc_version {
        Some(v) => {
            let mut p: Vec<char> = Vec::new();
            text::push_str(&mut p, "game_versions=[%22");
            text::push_str(&mut p, v);
            text::push_str(&mut p, "%22]");
            params.push(text::string_of(p.as_slice()));
        },
        None => {},
    }
    let ghost p1 = text::sviews(params@);
    match loader {
        Some(l) => {
            let lower = text::lowercase(l);
            let mut p: Vec<char> = Vec::new();
            text::push_str(&mut p, "loaders=[%22");
            text::push_string(&mut p, &lower);
            text::push_str(&mut p, "%22]");
            params.push(text::string_of(p.as_slice()));
        },
        None => {},
    }
    assert(text::sviews(params@) =~= version_params(osv(mc_version), osv(loader)));
    let mut url: Vec<char> = Vec::new();
    text::push_str(&mut url, "https://api.modrinth.com/v2");
    text::push_str(&mut url, "/project/");
    text::push_str(&mut url, project_id);
    text::push_str(&mut url, "/version");
    if params.len() > 0 {
        url.push('?');
        let j = text::join_strings(&params, "&");
        text::push_chars(&mut url, &j);
        proof {
            reveal_strlit("?");
        }
    }
    text::string_of(url.as_slice())
}

/// The search facets: mods only, then the game version and the lower-cased
/// loader when given.
pub open spec fn search_facets_text(mc_version: Option<Seq<char>>, loader: Option<Seq<char>>) -> Seq<Seq<Seq<char>>> {
    seq![seq!["project_type:mod"@]] + (match mc_version {
        Some(v) => seq![seq!["versions:"@ + v]],
        None => Seq::empty(),
    }) + (match loader {
        Some(l) => seq![seq!["categories:"@ + text::spec_lowercase(l)]],
        None => Seq::empty(),
    })
}

pub open spec fn facet_views(v: Seq<Vec<String>>) -> Seq<Seq<Seq<char>>> {
    Seq::new(v.len(), |i: int| text::sviews(v[i]@))
}

fn one(s: String) -> (r: Vec<String>)
    ensures
        text::sviews(r@) == seq![s@],
{
    let mut v: Vec<String> = Vec::new();
    v.push(s);
    assert(text::sviews(v@) =~= seq![s@]);
    v
}

/// The facets of a Modrinth search for a game version and loader.
pub fn search_facets(mc_version: Option<&str>, loader: Option<&str>) -> (r: Vec<Vec<String>>)
    ensures
        facet_views(r@) == search_facets_text(osv(mc_version), osv(loader)),
{
    let mut facets: Vec<Vec<String>> = Vec::new();
    facets.push(one(text::to_string("project_type:mod")));
    match mc_version {
        Some(v) => {
            let mut p: Vec<char> = Vec::new();
            text::push_str(&mut p, "versions:");
            text::push_str(&mut p, v);
            facets.push(one(text::string_of(p.as_slice())));
        },
        None => {},
    }
    match loader {
        Some(l) => {
            let lower = text::lowercase(l);
            let mut p: Vec<char> = Vec::new();
            text::push_str(&mut p, "categories:");
            text::push_string(&mut p, &lower);
            facets.push(one(text::string_of(p.as_slice())));
        },
        None => {},
    }
    assert(facet_views(facets@) =~= search_facets_text(osv(mc_version), osv(loader)));
    facets
}

/// A search hit, from the fields of Modrinth's answer: none without a project
/// id, slug or title; an empty description, an `Unknown` author and no
/// downloads where those are missing.
pub fn search_result_from(
    project_id: Option<String>,
    slug: Option<String>,
    title: Option<String>,
    description: Option<String>,
    author: Option<String>,
    downloads: Option<u64>,
    icon_url: Option<String>,
    categories: Vec<String>,
    latest_version: Option<String>,
) -> (r: Option<ModSearchResult>)
    ensures
        r is Some <==> (project_id is Some && slug is Some && title is Some),
        r matches Some(m) ==> {
            &&& Some(m.project_id@) == ov(project_id)
            &&& Some(m.slug@) == ov(slug)
            &&& Some(m.title@) == ov(title)
            &&& m.description@ == or_default(description, Seq::empty())
            &&& m.author@ == or_default(author, "Unknown"@)
            &&& m.downloads == match downloads { Some(d) => d, None => 0 }
            &&& ov(m.icon_url) == ov(icon_url)
            &&& m.categories@ == categories@
            &&& ov(m.latest_version) == ov(latest_version)
        },
{
    match (project_id, slug, title) {
        (Some(project_id), Some(slug), Some(title)) => {
            let description = match description {
                Some(d) => d,
                None => String::new(),
            };
            Some(
                ModSearchResult {
                    project_id,
                    slug,
                    title,
                    description,
                    author: or_text(author, "Unknown"),
                    downloads: match downloads {
                        Some(d) => d,
                        None => 0,
                    },
                    icon_url,
                    categories,
                    latest_version,
                },
            )
        },
        _ => None,
    }
}

/// A file of a version: none without a url or file name; size 0 and not
/// primary where those are missing.
pub fn mod_file_from(url: Option<String>, filename: Option<String>, size: Option<u64>, primary: Option<bool>) -> (r: Option<ModFile>)
    ensures
        r is Some <==> (url is Some && filename is Some),
        r matches Some(f) ==> Some(f.url@) == ov(url) && Some(f.filename@) == ov(filename)
            && f.size == (match size { Some(s) => s, None => 0 })
            && f.primary == (match primary { Some(p) => p, None => false }),
{
    match (url, filename) {
        (Some(url), Some(filename)) => Some(
            ModFile {
                url,
                filename,
                size: match size {
                    Some(s) => s,
                    None => 0,
                },
                primary: match primary {
                    Some(p) => p,
                    None => false,
                },
            },
        ),
        _ => None,
    }
}

/// A version: none without an id or version number; an empty name and no
/// downloads where those are missing.
pub fn mod_version_from(
    id: Option<String>,
    version_number: Option<String>,
    name: Option<String>,
    game_versions: Vec<String>,
    loaders: Vec<String>,
    downloads: Option<u64>,
    files: Vec<ModFile>,
) -> (r: Option<ModVersion>)
    ensures
        r is Some <==> (id is Some && version_number is Some),
        r matches Some(v) ==> Some(v.id@) == ov(id) && Some(v.version_number@) == ov(version_number)
            && v.name@ == or_default(name, Seq::empty()) && v.game_versions@ == game_versions@
            && v.loaders@ == loaders@ && v.downloads == (match downloads { Some(d) => d, None => 0 })
            && v.files@ == files@,
{
    match (id, version_number) {
        (Some(id), Some(version_number)) => Some(
            ModVersion {
                id,
                version_number,
                name: match name {
                    Some(n) => n,
                    None => String::new(),
                },
                game_versions,
                loaders,
                downloads: match downloads {
                    Some(d) => d,
                    None => 0,
                },
                files,
            },
        ),
        _ => None,
    }
}

/// The report when a mod file is already in the mods folder.
pub fn already_installed(filename: &str, installed_path: String) -> (r: InstallResult)
    ensures
        !r.success,
        r.filename@ == filename@,
        r.installed_path@ == installed_path@,
        r.message@ == filename@ + " already exists in mods folder"@,
{
    let mut m: Vec<char> = Vec::new();
    text::push_str(&mut m, filename);
    text::push_str(&mut m, " already exists in mods folder");
    InstallResult {
        success: false,
        filename: text::to_string(filename),
        installed_path,
        message: text::string_of(m.as_slice()),
    }
}

/// The name a mod file gets when disabled: `.disabled` appended.
pub open spec fn disabled_name_text(f: Seq<char>) -> Seq<char> {
    f + ".disabled"@
}

/// The name a disabled mod file gets back: every trailing `.disabled` removed.
pub open spec fn enabled_name_text(f: Seq<char>) -> Seq<char> {
    text::trim_end_matches(f, ".disabled"@)
}

/// The file name that disables `filename`.
pub fn disabled_name(filename: &str) -> (r: String)
    ensures
        r@ == disabled_name_text(filename@),
{
    let mut v = text::chars_of(filename);
    text::push_str(&mut v, ".disabled");
    text::string_of(v.as_slice())
}

/// The file name that enables the disabled `filename`.
pub fn enabled_name(filename: &str) -> (r: String)
    ensures
        r@ == enabled_name_text(filename@),
{
    let v = text::chars_of(filename);
    let t = text::trim_end_matches_str(&v, ".disabled");
    text::string_of(t.as_slice())
}

/// Disabling and then enabling a mod file gives its name back, unless the name
/// itself ends in `.disabled`.
pub proof fn law_enable_undoes_disable(f: Seq<char>)
    requires
        !text::is_suffix(".disabled"@, f),
    ensures
        enabled_name_text(disabled_name_text(f)) == f,
{
    reveal_strlit(".disabled");
    let d = disabled_name_text(f);
    let p = ".disabled"@;
    assert(d.subrange(d.len() - p.len(), d.len() as int) =~= p);
    assert(d.subrange(0, d.len() - p.len()) =~= f);
    assert(text::is_suffix(p, d));
    assert(text::trim_end_matches(f, p) == f);
    assert(text::trim_end_matches(d, p) == text::trim_end_matches(f, p));
}

} // verus!
