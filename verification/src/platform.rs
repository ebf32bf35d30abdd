//! Java installations and the launchers found on the machine.
use vstd::prelude::*;
use crate::text;

verus! {

/// A Java runtime found on the machine.
#[derive(Debug, Clone)]
pub struct JavaInstallation {
    pub path: String,
    pub version: Option<String>,
    pub vendor: Option<String>,
    pub is_64bit: bool,
}

pub open spec fn ov(o: Option<String>) -> Option<Seq<char>> {
    match o {
        Some(s) => Some(s@),
        None => None,
    }
}

/// The version in the first line of `java -version` output: the text between
/// its first and second `"`.
pub open spec fn java_version_of(out: Seq<char>) -> Option<Seq<char>> {
    let ls = text::lines(out);
    if ls.len() == 0 {
        None
    } else {
        let parts = text::split_char(ls[0], '"');
        if parts.len() > 1 {
            Some(parts[1])
        } else {
            None
        }
    }
}

/// The vendor line of `java -version` output: its second line, trimmed.
pub open spec fn java_vendor_of(out: Seq<char>) -> Option<Seq<char>> {
    let ls = text::lines(out);
    if ls.len() > 1 {
        Some(text::trim(ls[1]))
    } else {
        None
    }
}

/// What the `java -version` output (its standard error) of the runtime at
/// `path` says: version, vendor, and whether it is a 64-bit VM.
pub fn java_from_version_output(path: String, stderr: &str) -> (r: JavaInstallation)
    ensures
        r.path@ == path@,
        ov(r.version) == java_version_of(stderr@),
        ov(r.vendor) == java_vendor_of(stderr@),
        r.is_64bit == text::contains(stderr@, "64-Bit"@),
{
    let cs = text::chars_of(stderr);
    let ls = text::lines_of(&cs);
    let version = if ls.len() > 0 {
        let parts = text::split_on(&ls[0], '"');
        if parts.len() > 1 {
            assert(text::vviews(parts@)[1] == parts@[1]@);
            Some(text::string_of(parts[1].as_slice()))
        } else {
            None
        }
    } else {
        None
    };
    let vendor = if ls.len() > 1 {
        let t = text::trim_vec(&ls[1]);
        Some(text::string_of(t.as_slice()))
    } else {
        None
    };
    JavaInstallation { path, version, vendor, is_64bit: text::contains_str(&cs, "64-Bit") }
}

/// The kinds of Minecraft launchers.
#[derive(Debug, Clone, Copy, PartialEq, Eq, Structural)]
pub enum LauncherType {
    PrismLauncher,
    MultiMC,
    CurseForge,
    Modrinth,
    ATLauncher,
    OfficialLauncher,
    Custom,
}

/// The display name of a launcher kind.
pub open spec fn launcher_type_text(t: LauncherType) -> Seq<char> {
    match t {
        LauncherType::PrismLauncher => "Prism Launcher"@,
        LauncherType::MultiMC => "MultiMC"@,
        LauncherType::CurseForge => "CurseForge"@,
        LauncherType::Modrinth => "Modrinth App"@,
        LauncherType::ATLauncher => "ATLauncher"@,
        LauncherType::OfficialLauncher => "Official Launcher"@,
        LauncherType::Custom => "Custom"@,
    }
}

impl LauncherType {
    /// The display name of the launcher kind.
    pub fn to_display_string(&self) -> (r: String)
        ensures
            r@ == launcher_type_text(*self),
    {
        match self {
            LauncherType::PrismLauncher => text::to_string("Prism Launcher"),
            LauncherType::MultiMC => text::to_string("MultiMC"),
            LauncherType::CurseForge => text::to_string("CurseForge"),
            LauncherType::Modrinth => text::to_string("Modrinth App"),
            LauncherType::ATLauncher => text::to_string("ATLauncher"),
            LauncherType::OfficialLauncher => text::to_string("Official Launcher"),
            LauncherType::Custom => text::to_string("Custom"),
        }
    }
}

/// A launcher found on the machine.
#[derive(Debug, Clone)]
pub struct DiscoveredLauncher {
    pub name: String,
    pub path: String,
    pub launcher_type: LauncherType,
}

/// The launchers among the candidates (path, name, kind, whether the path
/// exists) that exist, in order.
pub open spec fn found_launchers(c: Seq<(Seq<char>, Seq<char>, LauncherType, bool)>) -> Seq<(Seq<char>, Seq<char>, LauncherType)>
    decreases c.len(),
{
    if c.len() == 0 {
        Seq::empty()
    } else {
        let prev = found_launchers(c.drop_last());
        let x = c.last();
        if x.3 {
            prev.push((x.1, x.0, x.2))
        } else {
            prev
        }
    }
}

pub open spec fn candidate_views(v: Seq<(String, String, LauncherType, bool)>) -> Seq<(Seq<char>, Seq<char>, LauncherType, bool)> {
    Seq::new(v.len(), |i: int| (v[i].0@, v[i].1@, v[i].2, v[i].3))
}

pub open spec fn launcher_views(v: Seq<DiscoveredLauncher>) -> Seq<(Seq<char>, Seq<char>, LauncherType)> {
    Seq::new(v.len(), |i: int| (v[i].name@, v[i].path@, v[i].launcher_type))
}

/// The launchers that exist among the candidate locations: each found location
/// gives a launcher with its name and kind.
pub fn discover_launchers(candidates: &Vec<(String, String, LauncherType, bool)>) -> (r: Vec<DiscoveredLauncher>)
    ensures
        launcher_views(r@) == found_launchers(candidate_views(candidates@)),
{
    let ghost cv = candidate_views(candidates@);
    let mut out: Vec<DiscoveredLauncher> = Vec::new();
    let mut i: usize = 0;
    assert(cv.take(0) == Seq::<(Seq<char>, Seq<char>, LauncherType, bool)>::empty());
    assert(launcher_views(out@) =~= Seq::<(Seq<char>, Seq<char>, LauncherType)>::empty());
    while i < candidates.len()
        invariant
            i <= candidates.len(),
            cv == candidate_views(candidates@),
            launcher_views(out@) == found_launchers(cv.take(i as int)),
        decreases candidates.len() - i,
    {
        let c = &candidates[i];
        assert(cv.take(i + 1).drop_last() == cv.take(i as int));
        assert(cv.take(i + 1).last() == cv[i as int]);
        if c.3 {
            let ghost before = launcher_views(out@);
            out.push(
                DiscoveredLauncher {
                    name: text::copy_string(&c.1),
                    path: text::copy_string(&c.0),
                    launcher_type: c.2,
                },
            );
            assert(launcher_views(out@) =~= before.push((c.1@, c.0@, c.2)));
        }
        i = i + 1;
    }
    assert(cv.take(candidates.len() as int) == cv);
    out
}

/// Where a launcher keeps its instances, as seen from its folder.
#[derive(Debug, Clone, Copy, PartialEq, Eq, Structural)]
pub enum InstanceSource {
    /// Each sub-folder of the launcher folder may be an instance.
    ListRoot,
    /// Each sub-folder of its `instances` folder may be an instance.
    ListInstancesFolder,
    /// The launcher folder is the one instance, if it holds `versions`.
    RootIfVersions,
    /// The launcher folder is the one instance.
    Root,
}

pub open spec fn instance_source_spec(l: LauncherType, has_instances_folder: bool) -> InstanceSource {
    match l {
        LauncherType::PrismLauncher | LauncherType::MultiMC => if has_instances_folder {
            InstanceSource::ListInstancesFolder
        } else {
            InstanceSource::ListRoot
        },
        LauncherType::CurseForge | LauncherType::Modrinth => InstanceSource::ListRoot,
        LauncherType::ATLauncher => InstanceSource::ListInstancesFolder,
        LauncherType::OfficialLauncher => InstanceSource::RootIfVersions,
        LauncherType::Custom => InstanceSource::Root,
    }
}

/// Where the instances of a launcher of kind `launcher` are to be looked for,
/// given whether its folder holds an `instances` folder.
pub fn instance_source(launcher: LauncherType, has_instances_folder: bool) -> (r: InstanceSource)
    ensures
        r == instance_source_spec(launcher, has_instances_folder),
{
    match launcher {
        LauncherType::PrismLauncher | LauncherType::MultiMC => if has_instances_folder {
            InstanceSource::ListInstancesFolder
        } else {
            InstanceSource::ListRoot
        },
        LauncherType::CurseForge | LauncherType::Modrinth => InstanceSource::ListRoot,
        LauncherType::ATLauncher => InstanceSource::ListInstancesFolder,
        LauncherType::OfficialLauncher => InstanceSource::RootIfVersions,
        LauncherType::Custom => InstanceSource::Root,
    }
}

/// The names whose presence inside a folder marks it as an instance of some launcher.
pub open spec fn marker_names_spec() -> Seq<Seq<char>> {
    seq![
        ".minecraft"@,
        "minecraft"@,
        "mmc-pack.json"@,
        "instance.cfg"@,
        "minecraftinstance.json"@,
        "mods"@,
        "instance.json"@,
        "profile.json"@,
    ]
}

/// The names to look for inside each candidate folder.
pub fn marker_names() -> (r: Vec<String>)
    ensures
        text::sviews(r@) == marker_names_spec(),
{
    let v: Vec<&str> = vec![
        ".minecraft",
        "minecraft",
        "mmc-pack.json",
        "instance.cfg",
        "minecraftinstance.json",
        "mods",
        "instance.json",
        "profile.json",
    ];
    let r = text::strings_of(&v);
    proof {
        reveal_strlit(".minecraft");
        reveal_strlit("minecraft");
        reveal_strlit("mmc-pack.json");
        reveal_strlit("instance.cfg");
        reveal_strlit("minecraftinstance.json");
        reveal_strlit("mods");
        reveal_strlit("instance.json");
        reveal_strlit("profile.json");
        assert(text::str_views(v@) =~= marker_names_spec());
    }
    r
}

/// A folder entry seen while looking for instances: its path, its file name,
/// whether it is a folder, and which of the marker names exist inside it.
#[derive(Debug, Clone)]
pub struct EntryProbe {
    pub path: String,
    pub name: String,
    pub is_dir: bool,
    pub present: Vec<String>,
}

/// Whether an entry is an instance of a launcher of kind `l`.
pub open spec fn is_instance_spec(l: LauncherType, name: Seq<char>, is_dir: bool, present: Seq<Seq<char>>) -> bool {
    is_dir && match l {
        LauncherType::PrismLauncher | LauncherType::MultiMC => {
            !(name.len() > 0 && name[0] == '.') && (present.contains(".minecraft"@) || present.contains(
                "minecraft"@,
            ) || present.contains("mmc-pack.json"@) || present.contains("instance.cfg"@))
        },
        LauncherType::CurseForge => present.contains("minecraftinstance.json"@) || present.contains("mods"@),
        LauncherType::ATLauncher => present.contains("instance.json"@),
        LauncherType::Modrinth => present.contains("profile.json"@),
        LauncherType::OfficialLauncher | LauncherType::Custom => false,
    }
}

pub open spec fn entry_is_instance(l: LauncherType, e: EntryProbe) -> bool {
    is_instance_spec(l, e.name@, e.is_dir, text::sviews(e.present@))
}

/// The paths of the entries that are instances, in order.
pub open spec fn selected_instances(l: LauncherType, es: Seq<EntryProbe>) -> Seq<Seq<char>>
    decreases es.len(),
{
    if es.len() == 0 {
        Seq::empty()
    } else {
        let prev = selected_instances(l, es.drop_last());
        if entry_is_instance(l, es.last()) {
            prev.push(es.last().path@)
        } else {
            prev
        }
    }
}

fn has_marker(present: &Vec<String>, m: &str) -> (r: bool)
    ensures
        r == text::sviews(present@).contains(m@),
{
    let cs = text::chars_of(m);
    text::contains_string(present, &cs)
}

/// Whether the entry `e` is an instance of a launcher of kind `launcher`.
pub fn is_instance_entry(launcher: LauncherType, e: &EntryProbe) -> (r: bool)
    ensures
        r == entry_is_instance(launcher, *e),
{
    if !e.is_dir {
        return false;
    }
    let p = &e.present;
    match launcher {
        LauncherType::PrismLauncher | LauncherType::MultiMC => {
            let name = text::chars_of_string(&e.name);
            let hidden = name.len() > 0 && name[0] == '.';
            !hidden && (has_marker(p, ".minecraft") || has_marker(p, "minecraft") || has_marker(p, "mmc-pack.json")
                || has_marker(p, "instance.cfg"))
        },
        LauncherType::CurseForge => has_marker(p, "minecraftinstance.json") || has_marker(p, "mods"),
        LauncherType::ATLauncher => has_marker(p, "instance.json"),
        LauncherType::Modrinth => has_marker(p, "profile.json"),
        LauncherType::OfficialLauncher | LauncherType::Custom => false,
    }
}

/// The paths of the listed entries that are instances of a launcher of kind
/// `launcher`, in the order they were listed.
pub fn select_instances(launcher: LauncherType, entries: &Vec<EntryProbe>) -> (r: Vec<String>)
    ensures
        text::sviews(r@) == selected_instances(launcher, entries@),
{
    let mut out: Vec<String> = Vec::new();
    let mut i: usize = 0;
    assert(entries@.take(0) =~= Seq::<EntryProbe>::empty());
    assert(text::sviews(out@) =~= Seq::<Seq<char>>::empty());
    while i < entries.len()
        invariant
            i <= entries.len(),
            text::sviews(out@) == selected_instances(launcher, entries@.take(i as int)),
        decreases entries.len() - i,
    {
        assert(entries@.take(i + 1).drop_last() =~= entries@.take(i as int));
        assert(entries@.take(i + 1).last() == entries@[i as int]);
        if is_instance_entry(launcher, &entries[i]) {
            let ghost before = text::sviews(out@);
            out.push(text::copy_string(&entries[i].path));
            assert(text::sviews(out@) =~= before.push(entries@[i as int].path@));
        }
        i = i + 1;
    }
    assert(entries@.take(entries.len() as int) =~= entries@);
    out
}

} // verus!
