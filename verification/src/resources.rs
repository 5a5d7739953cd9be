//! The bundled runtime and backend archive, found under the resource directory.
use vstd::prelude::*;
use crate::error::SidecarError;
use crate::paths::{inside, join_path, path_joined, plain_name, platform_separator, verbatim};

verus! {

/// The bundled Java executable and the backend's jar.
#[derive(Debug, Clone, PartialEq, Eq)]
pub struct Resources {
    pub java_bin: String,
    pub jar: String,
}

/// Returns `std::path::MAIN_SEPARATOR`, the platform's primary path separator.
/// Claimed: it is `/` or `\`, which one depending on the target, and it is the separator that
/// `Path::join` puts between two names (`PathBuf::push` adds `MAIN_SEPARATOR`).
#[verifier::external_body]
fn main_separator() -> (c: char)
    ensures
        c == '/' || c == '\\',
        c == platform_separator(),
{
    std::path::MAIN_SEPARATOR
}

pub open spec fn is_java_exe(name: Seq<char>) -> bool {
    name == "java"@ || name == "java.exe"@
}

/// The name of the Java executable on a platform whose primary path separator is `sep`:
/// `java.exe` where it is `\\` (Windows), else `java`.
pub open spec fn java_exe_of(sep: char) -> Seq<char> {
    if sep == '\\' {
        "java.exe"@
    } else {
        "java"@
    }
}

/// The name of the Java executable on a platform whose primary path separator is `sep`.
pub fn java_exe_for(sep: char) -> (name: &'static str)
    ensures
        name@ == java_exe_of(sep),
        is_java_exe(name@),
        plain_name(name@),
{
    proof {
        reveal_strlit("java");
        reveal_strlit("java.exe");
        assert("java"@[0] != '.');
        assert("java.exe"@[0] != '.');
    }
    if sep == '\\' {
        "java.exe"
    } else {
        "java"
    }
}

/// The name of the Java executable on this platform: `java_exe_for` the platform's primary
/// path separator, so `java.exe` on Windows and `java` elsewhere.
pub fn java_exe_name() -> (name: &'static str)
    ensures
        name@ == java_exe_of(platform_separator()),
        exists|sep: char| (sep == '/' || sep == '\\') && name@ == java_exe_of(sep),
        is_java_exe(name@),
        plain_name(name@),
{
    let sep = main_separator();
    java_exe_for(sep)
}

/// `<resource_dir>/jre/bin/<exe>`.
pub open spec fn java_bin_of(resource_dir: Seq<char>, exe: Seq<char>) -> Seq<char> {
    path_joined(path_joined(path_joined(resource_dir, "jre"@), "bin"@), exe)
}

/// `<resource_dir>/jre/bin`.
pub open spec fn jre_bin_of(resource_dir: Seq<char>) -> Seq<char> {
    path_joined(path_joined(resource_dir, "jre"@), "bin"@)
}

/// `<resource_dir>/kafbat`.
pub open spec fn kafbat_dir_of(resource_dir: Seq<char>) -> Seq<char> {
    path_joined(resource_dir, "kafbat"@)
}

/// Where the bundled Java executable named `exe` (see `java_exe_name`) should be:
/// `<resource_dir>/jre/bin/<exe>`.
pub fn java_bin_path(resource_dir: &str, exe: &str) -> (p: String)
    ensures
        p@ == java_bin_of(resource_dir@, exe@),
        plain_name(exe@) && !verbatim(jre_bin_of(resource_dir@)) ==> inside(
            jre_bin_of(resource_dir@),
            exe@,
            p@,
        ),
{
    proof {
        reveal_strlit("jre");
        reveal_strlit("bin");
        assert("jre"@[0] != '.');
        assert("bin"@[0] != '.');
    }
    let jre = join_path(resource_dir, "jre");
    let bin = join_path(jre.as_str(), "bin");
    join_path(bin.as_str(), exe)
}

/// The directory that holds the backend's jar.
pub fn kafbat_dir(resource_dir: &str) -> (p: String)
    ensures
        p@ == kafbat_dir_of(resource_dir@),
{
    proof {
        reveal_strlit("kafbat");
        assert("kafbat"@[0] != '.');
    }
    join_path(resource_dir, "kafbat")
}

/// A file name whose extension is `jar`: it ends in `.jar` after a non-empty stem.
pub open spec fn is_jar_name(name: Seq<char>) -> bool {
    name.len() >= 5 && name.skip(name.len() - 4) == seq!['.', 'j', 'a', 'r']
}

/// Whether a file name has the extension `jar`.
pub fn has_jar_extension(name: &str) -> (r: bool)
    ensures
        r == is_jar_name(name@),
{
    let n: usize = name.unicode_len();
    if n < 5 {
        return false;
    }
    let r = name.get_char(n - 4) == '.' && name.get_char(n - 3) == 'j' && name.get_char(n - 2)
        == 'a' && name.get_char(n - 1) == 'r';
    proof {
        let tail = name@.skip(n - 4);
        if r {
            assert(tail =~= seq!['.', 'j', 'a', 'r']);
        } else {
            if tail == seq!['.', 'j', 'a', 'r'] {
                assert(tail[0] == name@[n - 4]);
                assert(tail[1] == name@[n - 3]);
                assert(tail[2] == name@[n - 2]);
                assert(tail[3] == name@[n - 1]);
            }
        }
    }
    r
}

/// The position of the first jar among `names`, if any.
pub open spec fn first_jar(names: Seq<Seq<char>>) -> Option<int> {
    if exists|i: int| 0 <= i < names.len() && is_jar_name(#[trigger] names[i]) {
        Some(
            choose|i: int|
                0 <= i < names.len() && is_jar_name(#[trigger] names[i]) && forall|j: int|
                    0 <= j < i ==> !is_jar_name(#[trigger] names[j]),
        )
    } else {
        None
    }
}

pub open spec fn names_view(names: Seq<String>) -> Seq<Seq<char>> {
    names.map_values(|n: String| n@)
}

/// The outcome of resolving the resources from what the file system showed: whether the
/// Java executable exists, and the names in the jar directory (`None` when it cannot be
/// read), in the order they were listed.
pub open spec fn layout_result(
    resource_dir: Seq<char>,
    java_bin: Seq<char>,
    java_present: bool,
    names: Option<Seq<Seq<char>>>,
) -> Result<(Seq<char>, Seq<char>), Seq<char>> {
    let dir = kafbat_dir_of(resource_dir);
    if !java_present {
        Err(java_bin)
    } else {
        match names {
            None => Err(dir),
            Some(ns) => match first_jar(ns) {
                Some(i) => Ok((java_bin, path_joined(dir, ns[i]))),
                None => Err(dir + "/*.jar"@),
            },
        }
    }
}

pub open spec fn resolution_view(r: Result<Resources, SidecarError>) -> Option<
    Result<(Seq<char>, Seq<char>), Seq<char>>,
> {
    match r {
        Ok(res) => Some(Ok((res.java_bin@, res.jar@))),
        Err(SidecarError::ResourceNotFound(what)) => Some(Err(what@)),
        Err(_) => None,
    }
}

/// Resolves the bundled resources: the Java executable at `java_bin` (found at
/// `java_bin_path(resource_dir)`) must exist, and the jar is the first entry with the
/// extension `jar` in the jar directory. Each failure is `ResourceNotFound` naming what is
/// missing.
pub fn resolve_layout(
    resource_dir: &str,
    java_bin: String,
    java_present: bool,
    kafbat_entries: Option<Vec<String>>,
) -> (r: Result<Resources, SidecarError>)
    ensures
        resolution_view(r) == Some(
            layout_result(
                resource_dir@,
                java_bin@,
                java_present,
                match kafbat_entries {
                    Some(ns) => Some(names_view(ns@)),
                    None => None,
                },
            ),
        ),
        r matches Ok(res) ==> kafbat_entries matches Some(ns) && exists|i: int|
            0 <= i < ns.len() && #[trigger] is_jar_name(ns@[i]@) && (plain_name(ns@[i]@) && !verbatim(
                kafbat_dir_of(resource_dir@),
            ) ==> inside(kafbat_dir_of(resource_dir@), ns@[i]@, res.jar@)),
{
    if !java_present {
        return Err(SidecarError::ResourceNotFound(java_bin));
    }
    let dir = kafbat_dir(resource_dir);
    match kafbat_entries {
        None => Err(SidecarError::ResourceNotFound(dir)),
        Some(names) => {
            let ghost ns = names_view(names@);
            let mut i: usize = 0;
            while i < names.len()
                invariant
                    i <= names.len(),
                    ns == names_view(names@),
                    dir@ == kafbat_dir_of(resource_dir@),
                    java_present,
                    kafbat_entries == Some(names),
                    forall|j: int| 0 <= j < i ==> !is_jar_name(#[trigger] ns[j]),
                decreases names.len() - i,
            {
                if has_jar_extension(names[i].as_str()) {
                    let jar = join_path(dir.as_str(), names[i].as_str());
                    proof {
                        assert(is_jar_name(ns[i as int]));
                        assert(0 <= i < ns.len() && is_jar_name(ns[i as int]) && forall|j: int|
                            0 <= j < i ==> !is_jar_name(#[trigger] ns[j]));
                        let k = first_jar(ns)->0;
                        assert(0 <= k < ns.len() && is_jar_name(ns[k]));
                        assert(k == i) by {
                            if k < i {
                                assert(!is_jar_name(ns[k]));
                            }
                            if k > i {
                                assert(!is_jar_name(ns[i as int]));
                            }
                        }
                        assert(first_jar(ns) == Some(i as int));
                        assert(jar@ == path_joined(kafbat_dir_of(resource_dir@), ns[i as int]));
                        assert(layout_result(resource_dir@, java_bin@, java_present, Some(ns)) == Ok::<(Seq<char>, Seq<char>), Seq<char>>((java_bin@, jar@)));
                    }
                    return Ok(Resources { java_bin, jar });
                }
                i = i + 1;
            }
            let mut what = dir;
            what.append("/*.jar");
            Err(SidecarError::ResourceNotFound(what))
        },
    }
}

} // verus!
