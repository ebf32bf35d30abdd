//! A Minecraft instance: its identity, the game version and mod loader its
//! launcher recorded, and the Java settings of its `instance.cfg`.
use vstd::prelude::*;
use crate::text;
use crate::config;
use crate::json;
use crate::jvm::{JsonScalar, ScalarText};
use sha2::Digest;

verus! {

/// A Minecraft installation managed by a launcher. Paths are kept as text.
#[derive(Debug, Clone)]
pub struct MinecraftInstance {
    pub id: String,
    pub name: String,
    pub path: String,
    pub launcher: String,
    pub minecraft_version: Option<String>,
    pub loader_type: Option<String>,
    pub loader_version: Option<String>,
    pub mods_path: Option<String>,
    pub mod_count: usize,
    pub config_path: Option<String>,
    pub resource_packs_path: Option<String>,
    pub shader_packs_path: Option<String>,
    pub java_path: Option<String>,
    pub jvm_args: Option<String>,
    pub xmx_mb: Option<u32>,
    pub xms_mb: Option<u32>,
}

// ---------------------------------------------------------------------------
// Instance ids
// ---------------------------------------------------------------------------

/// The bytes of the UTF-8 encoding of a text, as `str::as_bytes` gives them.
pub open spec fn spec_utf8(s: Seq<char>) -> Seq<u8> {
    vstd::utf8::encode_utf8(s)
}

/// The SHA-256 digest of a byte string (`sha2::Sha256`).
pub uninterp spec fn spec_sha256(data: Seq<u8>) -> Seq<u8>;

/// `sha2::Sha256::new()`, `update(data)`, `finalize()`: the SHA-256 digest of
/// `data`, named by `spec_sha256`; a digest has 32 bytes.
#[verifier::external_body]
pub(crate) fn sha256(data: &[u8]) -> (r: Vec<u8>)
    ensures
        r@ == spec_sha256(data@),
        r.len() == 32,
{
    let mut hasher = sha2::Sha256::new();
    hasher.update(data);
    hasher.finalize().to_vec()
}

/// The lower-case hexadecimal digit of `n < 16`.
pub open spec fn hex_digit(n: int) -> char {
    if n < 10 {
        text::digit_char(n as nat)
    } else if n == 10 {
        'a'
    } else if n == 11 {
        'b'
    } else if n == 12 {
        'c'
    } else if n == 13 {
        'd'
    } else if n == 14 {
        'e'
    } else {
        'f'
    }
}

/// Lower-case hexadecimal text of bytes: two digits per byte, high nibble first.
pub open spec fn hex_lower(data: Seq<u8>) -> Seq<char>
    decreases data.len(),
{
    if data.len() == 0 {
        Seq::empty()
    } else {
        hex_lower(data.drop_last()) + seq![
            hex_digit(data.last() as int / 16),
            hex_digit(data.last() as int % 16),
        ]
    }
}

/// `hex::encode`: each byte as two lower-case hexadecimal digits.
#[verifier::external_body]
pub(crate) fn hex_encode(data: &[u8]) -> (r: String)
    ensures
        r@ == hex_lower(data@),
{
    hex::encode(data)
}

/// The id of the instance at `path`: `inst-` and the hex of the first 12 bytes of
/// the SHA-256 of the path's UTF-8 text.
pub open spec fn instance_id_text(path: Seq<char>) -> Seq<char> {
    "inst-"@ + hex_lower(spec_sha256(spec_utf8(path)).take(12))
}

/// The stable id of the instance at `path`.
pub fn instance_id_from_path(path: &str) -> (r: String)
    ensures
        r@ == instance_id_text(path@),
{
    let digest = sha256(path.as_bytes());
    let mut head: Vec<u8> = Vec::new();
    let mut i: usize = 0;
    while i < 12
        invariant
            i <= 12,
            digest.len() == 32,
            head@ == digest@.take(i as int),
        decreases 12 - i,
    {
        head.push(digest[i]);
        assert(digest@.take(i + 1) == digest@.take(i as int).push(digest@[i as int]));
        i = i + 1;
    }
    let h = hex_encode(head.as_slice());
    let mut out: Vec<char> = Vec::new();
    text::push_str(&mut out, "inst-");
    text::push_string(&mut out, &h);
    text::string_of(out.as_slice())
}

/// The hash recorded for the content of a file: the lower-case hexadecimal text
/// of its SHA-256 digest.
pub fn content_hash(content: &[u8]) -> (r: String)
    ensures
        r@ == hex_lower(spec_sha256(content@)),
{
    let digest = sha256(content);
    hex_encode(digest.as_slice())
}

fn push_bytes(out: &mut Vec<u8>, b: &[u8])
    ensures
        final(out)@ == old(out)@ + b@,
{
    let mut i: usize = 0;
    let ghost o = out@;
    while i < b.len()
        invariant
            i <= b.len(),
            out@ == o + b@.take(i as int),
        decreases b.len() - i,
    {
        out.push(b[i]);
        i = i + 1;
        assert(b@.take(i as int) == b@.take(i - 1).push(b@[i - 1]));
    }
    assert(b@.take(i as int) == b@);
}

/// The id of a device: `dev-` and the hex of the first 8 bytes of the SHA-256
/// of its host name's UTF-8 text followed by its CPU model's.
pub fn device_id(hostname: &str, cpu_model: &str) -> (r: String)
    ensures
        r@ == "dev-"@ + hex_lower(spec_sha256(spec_utf8(hostname@) + spec_utf8(cpu_model@)).take(8)),
{
    let mut data: Vec<u8> = Vec::new();
    push_bytes(&mut data, hostname.as_bytes());
    push_bytes(&mut data, cpu_model.as_bytes());
    assert(data@ =~= spec_utf8(hostname@) + spec_utf8(cpu_model@));
    let digest = sha256(data.as_slice());
    let mut head: Vec<u8> = Vec::new();
    let mut i: usize = 0;
    while i < 8
        invariant
            i <= 8,
            digest.len() == 32,
            head@ == digest@.take(i as int),
        decreases 8 - i,
    {
        head.push(digest[i]);
        assert(digest@.take(i + 1) == digest@.take(i as int).push(digest@[i as int]));
        i = i + 1;
    }
    let h = hex_encode(head.as_slice());
    let mut out: Vec<char> = Vec::new();
    text::push_str(&mut out, "dev-");
    text::push_string(&mut out, &h);
    text::string_of(out.as_slice())
}

// ---------------------------------------------------------------------------
// Game version and mod loader
// ---------------------------------------------------------------------------

/// What an instance's files say: game version, loader and loader version.
pub type VersionInfo = (Option<String>, Option<String>, Option<String>);

/// The text view of an optional string.
pub open spec fn ov(o: Option<String>) -> Option<Seq<char>> {
    match o {
        Some(s) => Some(s@),
        None => None,
    }
}

/// A MultiMC/Prism component as uid and version.
pub type ComponentText = (Option<Seq<char>>, Option<Seq<char>>);

pub open spec fn component_views(v: Seq<(Option<String>, Option<String>)>) -> Seq<ComponentText> {
    Seq::new(v.len(), |i: int| (ov(v[i].0), ov(v[i].1)))
}

/// The loader a component uid names, if it names one.
pub open spec fn loader_of_uid(uid: Seq<char>) -> Option<Seq<char>> {
    if uid == "net.minecraftforge"@ {
        Some("Forge"@)
    } else if uid == "net.neoforged"@ {
        Some("NeoForge"@)
    } else if uid == "net.fabricmc.fabric-loader"@ {
        Some("Fabric"@)
    } else if uid == "org.quiltmc.quilt-loader"@ {
        Some("Quilt"@)
    } else {
        None
    }
}

/// Game version, loader and loader version after reading the components in
/// order: `net.minecraft` sets the game version, a loader component sets the
/// loader and its version; later components win. A missing uid reads as empty.
pub open spec fn mmc_versions(comps: Seq<ComponentText>) -> (
    Option<Seq<char>>,
    Option<Seq<char>>,
    Option<Seq<char>>,
)
    decreases comps.len(),
{
    if comps.len() == 0 {
        (None, None, None)
    } else {
        let prev = mmc_versions(comps.drop_last());
        let c = comps.last();
        let uid = match c.0 {
            Some(u) => u,
            None => Seq::empty(),
        };
        if uid == "net.minecraft"@ {
            (c.1, prev.1, prev.2)
        } else {
            match loader_of_uid(uid) {
                Some(l) => (prev.0, Some(l), c.1),
                None => prev,
            }
        }
    }
}

fn copy_opt(o: &Option<String>) -> (r: Option<String>)
    ensures
        ov(r) == ov(*o),
{
    match o {
        Some(s) => Some(text::copy_string(s)),
        None => None,
    }
}

/// Game version and loader from the components of an `mmc-pack.json`.
pub fn versions_from_mmc_components(components: &Vec<(Option<String>, Option<String>)>) -> (r:
    VersionInfo)
    ensures
        (ov(r.0), ov(r.1), ov(r.2)) == mmc_versions(component_views(components@)),
{
    let ghost cv = component_views(components@);
    let mut mc: Option<String> = None;
    let mut loader: Option<String> = None;
    let mut loader_version: Option<String> = None;
    let mut i: usize = 0;
    assert(cv.take(0) == Seq::<ComponentText>::empty());
    while i < components.len()
        invariant
            i <= components.len(),
            cv == component_views(components@),
            (ov(mc), ov(loader), ov(loader_version)) == mmc_versions(cv.take(i as int)),
        decreases components.len() - i,
    {
        assert(cv.take(i + 1).drop_last() == cv.take(i as int));
        assert(cv.take(i + 1).last() == cv[i as int]);
        let comp = &components[i];
        let uid = match &comp.0 {
            Some(u) => text::copy_string(u),
            None => String::new(),
        };
        let u = uid.as_str();
        if text::str_eq(u, "net.minecraft") {
            mc = copy_opt(&comp.1);
        } else if text::str_eq(u, "net.minecraftforge") {
            loader = Some(text::to_string("Forge"));
            loader_version = copy_opt(&comp.1);
        } else if text::str_eq(u, "net.neoforged") {
            loader = Some(text::to_string("NeoForge"));
            loader_version = copy_opt(&comp.1);
        } else if text::str_eq(u, "net.fabricmc.fabric-loader") {
            loader = Some(text::to_string("Fabric"));
            loader_version = copy_opt(&comp.1);
        } else if text::str_eq(u, "org.quiltmc.quilt-loader") {
            loader = Some(text::to_string("Quilt"));
            loader_version = copy_opt(&comp.1);
        }
        i = i + 1;
    }
    assert(cv.take(components.len() as int) == cv);
    (mc, loader, loader_version)
}

/// The loader family a launcher's loader name belongs to: NeoForge, Forge,
/// Fabric or Quilt when its lower-cased form contains that word (checked in
/// that order), else the name itself.
pub open spec fn loader_family(name: Seq<char>) -> Seq<char> {
    let lower = text::spec_lowercase(name);
    if text::contains(lower, "neoforge"@) {
        "NeoForge"@
    } else if text::contains(lower, "forge"@) {
        "Forge"@
    } else if text::contains(lower, "fabric"@) {
        "Fabric"@
    } else if text::contains(lower, "quilt"@) {
        "Quilt"@
    } else {
        name
    }
}

/// The loader family of a launcher's loader name.
pub fn normalize_loader_name(name: &str) -> (r: String)
    ensures
        r@ == loader_family(name@),
{
    let lower_s = text::lowercase(name);
    let lower = text::chars_of_string(&lower_s);
    if text::contains_str(&lower, "neoforge") {
        text::to_string("NeoForge")
    } else if text::contains_str(&lower, "forge") {
        text::to_string("Forge")
    } else if text::contains_str(&lower, "fabric") {
        text::to_string("Fabric")
    } else if text::contains_str(&lower, "quilt") {
        text::to_string("Quilt")
    } else {
        text::to_string(name)
    }
}

pub open spec fn family_opt(o: Option<String>) -> Option<Seq<char>> {
    match o {
        Some(s) => Some(loader_family(s@)),
        None => None,
    }
}

/// Game version and loader from what a Modrinth App `profile.json` holds:
/// `game_version`, `loader` and `loader_version`.
pub fn versions_from_modrinth(
    game_version: Option<String>,
    loader: Option<String>,
    loader_version: Option<String>,
) -> (r: VersionInfo)
    ensures
        ov(r.0) == ov(game_version),
        ov(r.1) == family_opt(loader),
        ov(r.2) == ov(loader_version),
{
    let l = match &loader {
        Some(n) => Some(normalize_loader_name(n.as_str())),
        None => None,
    };
    (game_version, l, loader_version)
}

/// The entries of a JSON document, by key path.
pub type JsonEntries = Map<Seq<Seq<char>>, ScalarText>;

pub open spec fn family_of(o: Option<Seq<char>>) -> Option<Seq<char>> {
    match o {
        Some(n) => Some(loader_family(n)),
        None => None,
    }
}

/// Game version and loader from what a CurseForge `minecraftinstance.json`
/// holds. The game version is what `gameVersion` holds where that key is
/// present (none where it is not a text), else the `minecraftVersion` of
/// `baseModLoader`; the loader is the family of `baseModLoader.name`; the loader
/// version is what `baseModLoader.forgeVersion` holds where that is present,
/// else `baseModLoader.name`.
pub open spec fn curseforge_versions(m: JsonEntries) -> (Option<Seq<char>>, Option<Seq<char>>, Option<
    Seq<char>,
>) {
    let loader_name = json::text_at(m, seq!["baseModLoader"@, "name"@]);
    (
        if json::entry_at(m, seq!["gameVersion"@]) is Some {
            json::text_at(m, seq!["gameVersion"@])
        } else {
            json::text_at(m, seq!["baseModLoader"@, "minecraftVersion"@])
        },
        family_of(loader_name),
        if json::entry_at(m, seq!["baseModLoader"@, "forgeVersion"@]) is Some {
            json::text_at(m, seq!["baseModLoader"@, "forgeVersion"@])
        } else {
            loader_name
        },
    )
}

/// Game version and loader from what a Modrinth App `profile.json` holds: the
/// texts under `game_version`, `loader` (as its family) and `loader_version`.
pub open spec fn modrinth_versions(m: JsonEntries) -> (Option<Seq<char>>, Option<Seq<char>>, Option<
    Seq<char>,
>) {
    (
        json::text_at(m, seq!["game_version"@]),
        family_of(json::text_at(m, seq!["loader"@])),
        json::text_at(m, seq!["loader_version"@]),
    )
}

fn text_of(x: Option<JsonScalar>) -> (r: Option<String>)
    ensures
        ov(r) == (match json::scalar_opt_view(x) {
            Some(ScalarText::Text(t)) => Some(t),
            _ => None,
        }),
{
    match x {
        Some(JsonScalar::Text(t)) => Some(t),
        _ => None,
    }
}

/// The game version and loader of the text of a CurseForge
/// `minecraftinstance.json`; none where the text is not JSON.
pub fn curseforge_versions_from_text(content: &str) -> (r: Option<VersionInfo>)
    ensures
        r is Some <==> json::json_valid(content@),
        r matches Some(t) ==> (ov(t.0), ov(t.1), ov(t.2)) == curseforge_versions(
            json::json_text_entries(content@),
        ),
{
    let v = match json::json_parse(content) {
        Ok(v) => v,
        Err(_) => {
            return None;
        },
    };
    let game = json::json_get(&v, "gameVersion");
    let mc = match game {
        Some(_) => text_of(game),
        None => text_of(json::json_get_in(&v, "baseModLoader", "minecraftVersion")),
    };
    let name = text_of(json::json_get_in(&v, "baseModLoader", "name"));
    let loader = match &name {
        Some(n) => Some(normalize_loader_name(n.as_str())),
        None => None,
    };
    let forge = json::json_get_in(&v, "baseModLoader", "forgeVersion");
    let lv = match forge {
        Some(_) => text_of(forge),
        None => name,
    };
    Some((mc, loader, lv))
}

/// The game version and loader of the text of a Modrinth App `profile.json`;
/// none where the text is not JSON.
pub fn modrinth_versions_from_text(content: &str) -> (r: Option<VersionInfo>)
    ensures
        r is Some <==> json::json_valid(content@),
        r matches Some(t) ==> (ov(t.0), ov(t.1), ov(t.2)) == modrinth_versions(
            json::json_text_entries(content@),
        ),
{
    let v = match json::json_parse(content) {
        Ok(v) => v,
        Err(_) => {
            return None;
        },
    };
    let game = text_of(json::json_get(&v, "game_version"));
    let loader = text_of(json::json_get(&v, "loader"));
    let lv = text_of(json::json_get(&v, "loader_version"));
    Some(versions_from_modrinth(game, loader, lv))
}

/// The `id` of the text of a game version's `<version>.json`: `Some` of what
/// `id` holds as text, where the text is JSON; none where it is not.
pub fn version_id_from_text(content: &str) -> (r: Option<Option<String>>)
    ensures
        r is Some <==> json::json_valid(content@),
        r matches Some(id) ==> ov(id) == json::text_at(json::json_text_entries(content@), seq!["id"@]),
{
    let v = match json::json_parse(content) {
        Ok(v) => v,
        Err(_) => {
            return None;
        },
    };
    Some(text_of(json::json_get(&v, "id")))
}

/// The CurseForge id of an instance from the text of its
/// `minecraftinstance.json`: `installedModpack.addonID` in decimal where it is
/// a non-negative integer, else the folder name; none where the text is not
/// JSON.
pub fn curseforge_instance_id_from_text(content: &str, folder_name: Option<String>) -> (r: Option<
    String,
>)
    ensures
        !json::json_valid(content@) ==> r is None,
        json::json_valid(content@) ==> match json::entry_at(
            json::json_text_entries(content@),
            seq!["installedModpack"@, "addonID"@],
        ) {
            Some(ScalarText::Number(n)) => r matches Some(id) && id@ == text::dec(n as nat),
            _ => ov(r) == ov(folder_name),
        },
{
    let v = match json::json_parse(content) {
        Ok(v) => v,
        Err(_) => {
            return None;
        },
    };
    match json::json_get_in(&v, "installedModpack", "addonID") {
        Some(JsonScalar::Number(n)) => Some(text::dec_string(n)),
        _ => folder_name,
    }
}

// ---------------------------------------------------------------------------
// instance.cfg
// ---------------------------------------------------------------------------

/// Java settings of an instance: Java path, JVM arguments, `-Xmx` and `-Xms` in MB.
pub type JvmConfig = (Option<String>, Option<String>, Option<u32>, Option<u32>);

/// The settings after reading `instance.cfg` lines in order: each line with an
/// `=` is cut at the first one, and the trimmed key `JavaPath`, `JvmArgs`,
/// `MaxMemAlloc` or `MinMemAlloc` sets its value (the memory sizes as `u32`,
/// `None` when they do not parse); later lines win.
pub open spec fn cfg_settings(ls: Seq<Seq<char>>) -> (
    Option<Seq<char>>,
    Option<Seq<char>>,
    Option<int>,
    Option<int>,
)
    decreases ls.len(),
{
    if ls.len() == 0 {
        (None, None, None, None)
    } else {
        let prev = cfg_settings(ls.drop_last());
        match text::split_once(text::trim(ls.last()), '=') {
            Some(p) => {
                let k = text::trim(p.0);
                let v = text::trim(p.1);
                if k == "JavaPath"@ {
                    (Some(v), prev.1, prev.2, prev.3)
                } else if k == "JvmArgs"@ {
                    (prev.0, Some(v), prev.2, prev.3)
                } else if k == "MaxMemAlloc"@ {
                    (prev.0, prev.1, text::parse_int(v, 0, u32::MAX as int), prev.3)
                } else if k == "MinMemAlloc"@ {
                    (prev.0, prev.1, prev.2, text::parse_int(v, 0, u32::MAX as int))
                } else {
                    prev
                }
            },
            None => prev,
        }
    }
}

/// The Java settings that an `instance.cfg` text holds.
pub fn parse_instance_cfg(content: &str) -> (r: JvmConfig)
    ensures
        (ov(r.0), ov(r.1), config::opt_u32(r.2), config::opt_u32(r.3)) == cfg_settings(
            text::lines(content@),
        ),
{
    let cs = text::chars_of(content);
    let ls = text::lines_of(&cs);
    let ghost lv = text::vviews(ls@);
    let mut java_path: Option<String> = None;
    let mut jvm_args: Option<String> = None;
    let mut xmx: Option<u32> = None;
    let mut xms: Option<u32> = None;
    let mut i: usize = 0;
    assert(lv.take(0) == Seq::<Seq<char>>::empty());
    while i < ls.len()
        invariant
            i <= ls.len(),
            lv == text::vviews(ls@),
            (ov(java_path), ov(jvm_args), config::opt_u32(xmx), config::opt_u32(xms))
                == cfg_settings(lv.take(i as int)),
        decreases ls.len() - i,
    {
        assert(lv.take(i + 1).drop_last() == lv.take(i as int));
        assert(lv.take(i + 1).last() == ls@[i as int]@);
        let line = text::trim_vec(&ls[i]);
        match text::split_once_vec(&line, '=') {
            Some((k0, v0)) => {
                let k = text::trim_vec(&k0);
                let v = text::trim_vec(&v0);
                let ks = text::string_of(k.as_slice());
                let key = ks.as_str();
                if text::str_eq(key, "JavaPath") {
                    java_path = Some(text::string_of(v.as_slice()));
                } else if text::str_eq(key, "JvmArgs") {
                    jvm_args = Some(text::string_of(v.as_slice()));
                } else if text::str_eq(key, "MaxMemAlloc") {
                    xmx = text::parse_u32(&v);
                } else if text::str_eq(key, "MinMemAlloc") {
                    xms = text::parse_u32(&v);
                }
            },
            None => {},
        }
        i = i + 1;
    }
    assert(lv.take(ls.len() as int) == lv);
    (java_path, jvm_args, xmx, xms)
}

/// A mods-folder entry counted as a mod: its lower-cased name ends with `.jar`
/// or `.zip`.
pub open spec fn counts_as_mod(name: Seq<char>) -> bool {
    let lower = text::spec_lowercase(name);
    text::is_suffix(".jar"@, lower) || text::is_suffix(".zip"@, lower)
}

/// How many of the names count as mods.
pub open spec fn mod_archive_total(names: Seq<Seq<char>>) -> nat
    decreases names.len(),
{
    if names.len() == 0 {
        0
    } else {
        mod_archive_total(names.drop_last()) + if counts_as_mod(names.last()) {
            1nat
        } else {
            0nat
        }
    }
}

proof fn lemma_mod_archive_total_bound(names: Seq<Seq<char>>)
    ensures
        mod_archive_total(names) <= names.len(),
    decreases names.len(),
{
    if names.len() > 0 {
        lemma_mod_archive_total_bound(names.drop_last());
    }
}

/// The number of mods in a mods folder, from the names it lists.
pub fn count_mod_archives(names: &Vec<String>) -> (r: usize)
    ensures
        r == mod_archive_total(text::sviews(names@)),
{
    let ghost nv = text::sviews(names@);
    let mut count: usize = 0;
    let mut i: usize = 0;
    assert(nv.take(0) =~= Seq::<Seq<char>>::empty());
    while i < names.len()
        invariant
            i <= names.len(),
            nv == text::sviews(names@),
            count == mod_archive_total(nv.take(i as int)),
        decreases names.len() - i,
    {
        assert(nv.take(i + 1).drop_last() =~= nv.take(i as int));
        assert(nv.take(i + 1).last() == names@[i as int]@);
        proof {
            lemma_mod_archive_total_bound(nv.take(i as int));
        }
        let lower_s = text::lowercase(names[i].as_str());
        let lower = text::chars_of_string(&lower_s);
        if text::ends_with_str(&lower, ".jar") || text::ends_with_str(&lower, ".zip") {
            count = count + 1;
        }
        i = i + 1;
    }
    assert(nv.take(names.len() as int) =~= nv);
    count
}

} // verus!
