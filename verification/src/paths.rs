//! Where the application keeps its files. Paths are held as their text.
use vstd::prelude::*;
use crate::error::SidecarError;

verus! {

/// A single file or directory name: not empty, not `.` or `..`, and without separators or
/// drive colons.
pub open spec fn plain_name(part: Seq<char>) -> bool {
    &&& part.len() > 0
    &&& part != seq!['.']
    &&& part != seq!['.', '.']
    &&& forall|i: int| 0 <= i < part.len() ==> #[trigger] part[i] != '/' && part[i] != '\\' && part[i] != ':'
}

/// A Windows verbatim path (`\\?\...`), which `Path::join` normalizes.
pub open spec fn verbatim(base: Seq<char>) -> bool {
    base.len() >= 4 && base.take(4) == seq!['\\', '\\', '?', '\\']
}

/// `base` is a bare Windows drive such as `C:`, to which `Path::join` adds no separator on Windows.
pub open spec fn bare_drive(base: Seq<char>) -> bool {
    base.len() == 2 && base[1] == ':' && (('a' <= base[0] && base[0] <= 'z') || ('A' <= base[0]
        && base[0] <= 'Z'))
}

/// `r` is `part` placed inside the directory `base`: `part` alone when `base` is empty;
/// `base` and `part` when `base` already ends in the platform's separator `sep`; `base`, `sep`
/// and `part` when `base` ends in none of `/`, `\` and is no bare drive; and one of those two
/// when `base` ends in the other separator or is a bare drive (which of them depends on
/// whether the platform takes it as a separator or a drive).
pub open spec fn child_path(base: Seq<char>, part: Seq<char>, sep: char, r: Seq<char>) -> bool {
    if base.len() == 0 {
        r == part
    } else if base.last() == sep {
        r == base + part
    } else if base.last() == '/' || base.last() == '\\' || bare_drive(base) {
        r == base + part || r == base + seq![sep] + part
    } else {
        r == base + seq![sep] + part
    }
}

/// `r` is `part` placed inside `base` (see `child_path`) with the platform's separator, which
/// is `/` or `\\`.
pub open spec fn inside(base: Seq<char>, part: Seq<char>, r: Seq<char>) -> bool {
    exists|sep: char| (sep == '/' || sep == '\\') && child_path(base, part, sep, r)
}

/// The text of `Path::new(base).join(part)` on the target the library is built for.
pub uninterp spec fn path_joined(base: Seq<char>, part: Seq<char>) -> Seq<char>;

/// The platform's path separator as `Path::join` shows it: the character it puts between the
/// names `a` and `b`.
pub open spec fn platform_separator() -> char {
    path_joined(seq!['a'], seq!['b'])[1]
}

/// Calls `std::path::Path::join` and hands back the text of the result.
/// Claimed: the text depends on the two texts alone (on a given target), and for a plain name
/// joined to a base that is not a verbatim path it is the name inside the base as `inside`
/// says, with the platform's separator (`std::path::MAIN_SEPARATOR`, `/` or `\\`): the
/// documentation of `PathBuf::push` adds a separator unless the base is empty or already ends
/// in one (or, on Windows, is a bare drive), and appends a relative name without prefix or root.
#[verifier::external_body]
pub(crate) fn join_path(base: &str, part: &str) -> (r: String)
    ensures
        r@ == path_joined(base@, part@),
        plain_name(part@) && !verbatim(base@) ==> inside(base@, part@, r@),
{
    std::path::Path::new(base).join(part).to_string_lossy().into_owned()
}

/// A name placed inside a directory ends with that name; so two names that differ in their
/// last characters give different paths inside the same directory.
pub proof fn lemma_inside_ends_with(base: Seq<char>, part: Seq<char>, r: Seq<char>)
    requires
        inside(base, part, r),
    ensures
        r.len() >= part.len(),
        r.subrange(r.len() - part.len(), r.len() as int) == part,
        forall|k: int| 1 <= k <= part.len() ==> #[trigger] r[r.len() - k] == part[part.len() - k],
{
    let sep = choose|sep: char| (sep == '/' || sep == '\\') && child_path(base, part, sep, r);
    let lead: Seq<char> = if r == part {
        Seq::<char>::empty()
    } else if r == base + part {
        base
    } else {
        base + seq![sep]
    };
    assert(r =~= lead + part);
    assert(r.subrange(r.len() - part.len(), r.len() as int) =~= part);
    assert forall|k: int| 1 <= k <= part.len() implies #[trigger] r[r.len() - k] == part[part.len() - k] by {
        assert(r[r.len() - k] == (lead + part)[lead.len() + part.len() - k]);
    }
}

/// The files under the application's data directory.
#[derive(Debug, Clone, PartialEq, Eq)]
pub struct AppPaths {
    pub config_file: String,
    pub log_dir: String,
    pub settings_file: String,
}

pub open spec fn config_file_of(data_root: Seq<char>) -> Seq<char> {
    path_joined(data_root, "dynamic_config.yaml"@)
}

pub open spec fn log_dir_of(data_root: Seq<char>) -> Seq<char> {
    path_joined(data_root, "logs"@)
}

pub open spec fn settings_file_of(data_root: Seq<char>) -> Seq<char> {
    path_joined(data_root, "settings.json"@)
}

/// Derives the application's files from its data directory.
pub fn app_paths_from(data_root: &str) -> (p: AppPaths)
    ensures
        p.config_file@ == config_file_of(data_root@),
        p.log_dir@ == log_dir_of(data_root@),
        p.settings_file@ == settings_file_of(data_root@),
        !verbatim(data_root@) ==> {
            &&& inside(data_root@, "dynamic_config.yaml"@, p.config_file@)
            &&& inside(data_root@, "logs"@, p.log_dir@)
            &&& inside(data_root@, "settings.json"@, p.settings_file@)
        },
        !verbatim(data_root@) ==> {
            &&& p.config_file@ != p.log_dir@
            &&& p.config_file@ != p.settings_file@
            &&& p.log_dir@ != p.settings_file@
        },
{
    proof {
        reveal_strlit("dynamic_config.yaml");
        reveal_strlit("logs");
        reveal_strlit("settings.json");
        assert("dynamic_config.yaml"@[0] != '.');
        assert("logs"@[0] != '.');
        assert("settings.json"@[0] != '.');
    }
    let p = AppPaths {
        config_file: join_path(data_root, "dynamic_config.yaml"),
        log_dir: join_path(data_root, "logs"),
        settings_file: join_path(data_root, "settings.json"),
    };
    proof {
        if !verbatim(data_root@) {
            lemma_inside_ends_with(data_root@, "dynamic_config.yaml"@, p.config_file@);
            lemma_inside_ends_with(data_root@, "logs"@, p.log_dir@);
            lemma_inside_ends_with(data_root@, "settings.json"@, p.settings_file@);
            let c = p.config_file@;
            let l = p.log_dir@;
            let t = p.settings_file@;
            assert(c[c.len() - 1] == 'l');
            assert(l[l.len() - 1] == 's');
            assert(t[t.len() - 1] == 'n');
        }
    }
    p
}

/// Calls `directories::ProjectDirs::from` and hands back the text of its `data_dir`, or
/// `None` where no home directory can be found or the directory is not valid Unicode (it is
/// then not replaced by a lossy copy, which would name another directory). Nothing is claimed
/// of the directory: it depends on the user's environment and platform. The library asks it
/// only for its own project, its names in the order `ProjectDirs::from` takes them (qualifier,
/// organization, application).
#[verifier::external_body]
fn project_data_dir(qualifier: &str, organization: &str, application: &str) -> Option<String>
    requires
        (qualifier@, organization@, application@) == project_names(),
{
    match directories::ProjectDirs::from(qualifier, organization, application) {
        Some(dirs) => match dirs.data_dir().to_str() {
            Some(text) => Some(text.to_string()),
            None => None,
        },
        None => None,
    }
}

/// The project whose data directory the application uses, as qualifier, organization and
/// application: `com`, `cy`, `kafkaconsole`.
pub open spec fn project_names() -> (Seq<char>, Seq<char>, Seq<char>) {
    ("com"@, "cy"@, "kafkaconsole"@)
}

/// The project whose data directory the application uses: qualifier `com`, organization
/// `cy`, application `kafkaconsole`.
pub fn project_identity() -> (id: (&'static str, &'static str, &'static str))
    ensures
        id.0@ == "com"@,
        id.1@ == "cy"@,
        id.2@ == "kafkaconsole"@,
        (id.0@, id.1@, id.2@) == project_names(),
{
    ("com", "cy", "kafkaconsole")
}

/// `p` holds the application's files under the data directory `root`.
pub open spec fn paths_under(root: Seq<char>, p: AppPaths) -> bool {
    &&& p.config_file@ == config_file_of(root)
    &&& p.log_dir@ == log_dir_of(root)
    &&& p.settings_file@ == settings_file_of(root)
    &&& !verbatim(root) ==> {
        &&& inside(root, "dynamic_config.yaml"@, p.config_file@)
        &&& inside(root, "logs"@, p.log_dir@)
        &&& inside(root, "settings.json"@, p.settings_file@)
    }
}

/// The application's files under the data directory the platform gave (`None` when it gave
/// none that can be held as text): `DataDirUnavailable` without one.
pub fn paths_from_data_dir(root: Option<String>) -> (r: Result<AppPaths, SidecarError>)
    ensures
        match root {
            Some(t) => r matches Ok(p) && paths_under(t@, p),
            None => r matches Err(e) && e is DataDirUnavailable,
        },
{
    match root {
        Some(t) => Ok(app_paths_from(t.as_str())),
        None => Err(SidecarError::DataDirUnavailable),
    }
}

/// Locates the application's files under the platform's data directory for the project of
/// `project_identity`, as `paths_from_data_dir` does with what the platform gives;
/// `DataDirUnavailable` when it gives none, or one whose name is not valid Unicode.
pub fn locate_app_paths() -> (r: Result<AppPaths, SidecarError>)
    ensures
        match r {
            Ok(p) => exists|root: Seq<char>| paths_under(root, p),
            Err(e) => e is DataDirUnavailable,
        },
{
    let (qualifier, organization, application) = project_identity();
    let root = project_data_dir(qualifier, organization, application);
    let ghost given = root;
    let r = paths_from_data_dir(root);
    proof {
        if given is Some {
            assert(paths_under(given->Some_0@, r->Ok_0));
        }
    }
    r
}

} // verus!
