//! Where the application finds its companions: the `rkdeveloptool` binary
//! and the bundled loaders, relative to the executable (portable layout
//! first, then the macOS bundle and its resources).
use vstd::prelude::*;
use crate::text::{owned, views};

verus! {

/// The operating system the application runs on.
#[derive(Clone, Copy, PartialEq, Eq, Structural, Debug)]
pub enum HostOs {
    Windows,
    MacOs,
    Linux,
    Other,
}

/// The platform name reported to the interface: every system other than
/// Windows and macOS is reported as `linux`.
pub fn platform_name(os: HostOs) -> (res: &'static str)
    ensures
        res@ == (match os {
            HostOs::Windows => "windows"@,
            HostOs::MacOs => "macos"@,
            _ => "linux"@,
        }),
{
    match os {
        HostOs::Windows => "windows",
        HostOs::MacOs => "macos",
        _ => "linux",
    }
}

/// The file name of the `rkdeveloptool` companion.
pub fn rkdeveloptool_name(os: HostOs) -> (res: &'static str)
    ensures
        res@ == (match os {
            HostOs::Windows => "rkdeveloptool.exe"@,
            _ => "rkdeveloptool"@,
        }),
{
    match os {
        HostOs::Windows => "rkdeveloptool.exe",
        _ => "rkdeveloptool",
    }
}

/// A path, as its components: the root (empty for a relative path) and the
/// names that follow it.
pub struct PathModel {
    pub root: String,
    pub names: Vec<String>,
}

/// The view of a path: its root and its names.
pub open spec fn path_view(p: PathModel) -> (Seq<char>, Seq<Seq<char>>) {
    (p.root@, views(p.names@))
}

/// A name that `Path::file_name` reports (not `.` or `..`).
pub open spec fn normal_name(n: Seq<char>) -> bool {
    n != "."@ && n != ".."@
}

/// The name ends in `.app` after a non-empty stem, which is what
/// `Path::extension() == Some("app")` means for a single name.
pub open spec fn has_app_extension(n: Seq<char>) -> bool {
    n.len() > 4 && n.subrange(n.len() - 4, n.len() as int) == ".app"@
}

/// The companion directory: the directory holding the executable, except
/// for an executable inside `X.app/Contents/MacOS` on macOS, where it is the
/// directory that holds the bundle `X.app`.
pub open spec fn companion_names(os: HostOs, names: Seq<Seq<char>>) -> Seq<Seq<char>> {
    let k = names.len();
    if os == HostOs::MacOs && k >= 3 && names[k - 1] == "MacOS"@ && names[k - 2] == "Contents"@
        && normal_name(names[k - 3]) && has_app_extension(names[k - 3]) {
        names.take(k - 3)
    } else {
        names
    }
}

/// Whether two names are equal.
fn name_is(a: &String, b: &str) -> (res: bool)
    ensures
        res == (a@ == b@),
{
    let x = owned(b);
    *a == x
}

/// Whether `n` ends in `.app` after a non-empty stem.
fn app_extension(n: &String) -> (res: bool)
    ensures
        res == has_app_extension(n@),
{
    let cs = crate::text::chars_of(n.as_str());
    let k = cs.len();
    if k <= 4 {
        return false;
    }
    let r = cs[k - 4] == '.' && cs[k - 3] == 'a' && cs[k - 2] == 'p' && cs[k - 1] == 'p';
    proof {
        reveal_strlit(".app");
        if r {
            assert(cs@.subrange(k - 4, k as int) =~= ".app"@);
        } else {
            assert(cs@.subrange(k - 4, k as int) != ".app"@) by {
                if cs@.subrange(k - 4, k as int) == ".app"@ {
                    assert(cs@.subrange(k - 4, k as int)[0] == '.');
                    assert(cs@.subrange(k - 4, k as int)[1] == 'a');
                    assert(cs@.subrange(k - 4, k as int)[2] == 'p');
                    assert(cs@.subrange(k - 4, k as int)[3] == 'p');
                }
            }
        }
    }
    r
}

/// A copy of a list of names.
fn copy_names(names: &[String], count: usize) -> (res: Vec<String>)
    requires
        count <= names@.len(),
    ensures
        views(res@) == views(names@).take(count as int),
{
    let mut out: Vec<String> = Vec::new();
    let mut i: usize = 0;
    while i < count
        invariant
            i <= count <= names@.len(),
            views(out@) == views(names@).take(i as int),
        decreases count - i,
    {
        let ghost before = views(out@);
        let s = owned(names[i].as_str());
        assert(s@ == views(names@)[i as int]);
        out.push(s);
        assert(views(out@) =~= before.push(s@));
        assert(views(names@).take(i + 1) =~= views(names@).take(i as int).push(s@));
        i = i + 1;
    }
    out
}

impl PathModel {
    /// This path with `name` appended, as `Path::join` does for a single
    /// relative name.
    pub fn join(&self, name: &str) -> (res: PathModel)
        ensures
            path_view(res) == (self.root@, views(self.names@).push(name@)),
    {
        let mut names = copy_names(self.names.as_slice(), self.names.len());
        assert(views(self.names@).take(self.names@.len() as int) =~= views(self.names@));
        let ghost before = views(names@);
        names.push(owned(name));
        assert(views(names@) =~= before.push(name@));
        PathModel { root: owned(self.root.as_str()), names }
    }
}

/// The companion directory for an executable in `exe_dir` (see
/// [`companion_names`]).
pub fn companion_dir(os: HostOs, exe_dir: &PathModel) -> (res: PathModel)
    ensures
        path_view(res) == (exe_dir.root@, companion_names(os, views(exe_dir.names@))),
{
    let names = &exe_dir.names;
    let k = names.len();
    let ghost ns = views(names@);
    let keep = if os == HostOs::MacOs && k >= 3 && name_is(&names[k - 1], "MacOS") && name_is(&names[k - 2], "Contents")
        && !name_is(&names[k - 3], ".") && !name_is(&names[k - 3], "..") && app_extension(&names[k - 3]) {
        k - 3
    } else {
        k
    };
    assert(ns[k - 1] == names@[k - 1]@ && ns[k - 2] == names@[k - 2]@ && ns[k - 3] == names@[k - 3]@
        || k < 3);
    let out = copy_names(names.as_slice(), keep);
    assert(views(names@).take(k as int) =~= views(names@));
    PathModel { root: owned(exe_dir.root.as_str()), names: out }
}

/// The parent of the executable directory joined with `Resources`: where a
/// macOS bundle keeps its resources. `None` elsewhere, or when the
/// directory has no parent.
pub fn resource_dir_candidate(os: HostOs, exe_dir: &PathModel) -> (res: Option<PathModel>)
    ensures
        match res {
            Some(p) => os == HostOs::MacOs && exe_dir.names@.len() > 0 && path_view(p) == (
                exe_dir.root@,
                views(exe_dir.names@).drop_last().push("Resources"@),
            ),
            None => os != HostOs::MacOs || exe_dir.names@.len() == 0,
        },
{
    if os == HostOs::MacOs && exe_dir.names.len() > 0 {
        let k = exe_dir.names.len();
        let names = copy_names(exe_dir.names.as_slice(), k - 1);
        assert(views(exe_dir.names@).take(k - 1) =~= views(exe_dir.names@).drop_last());
        let parent = PathModel { root: owned(exe_dir.root.as_str()), names };
        Some(parent.join("Resources"))
    } else {
        None
    }
}

/// The resource directory: the bundle's resources when that candidate is a
/// directory, else the executable directory.
pub fn resource_dir(exe_dir: PathModel, candidate: Option<PathModel>, candidate_is_dir: bool) -> (res: PathModel)
    ensures
        res == (match candidate {
            Some(c) => if candidate_is_dir {
                c
            } else {
                exe_dir
            },
            None => exe_dir,
        }),
{
    match candidate {
        Some(c) => if candidate_is_dir {
            c
        } else {
            exe_dir
        },
        None => exe_dir,
    }
}

/// The index of the first candidate that exists.
pub fn first_existing(exists: &[bool]) -> (res: Option<usize>)
    ensures
        match res {
            Some(i) => i < exists@.len() && exists@[i as int] && forall|j: int| 0 <= j < i ==> !exists@[j],
            None => forall|j: int| 0 <= j < exists@.len() ==> !exists@[j],
        },
{
    let mut i: usize = 0;
    while i < exists.len()
        invariant
            i <= exists@.len(),
            forall|j: int| 0 <= j < i ==> !exists@[j],
        decreases exists@.len() - i,
    {
        if exists[i] {
            return Some(i);
        }
        i = i + 1;
    }
    None
}

/// The places where `rkdeveloptool` is looked for, in order: beside the
/// companions, beside the executable, then in the build tree.
pub fn rkdeveloptool_candidates(os: HostOs, companion: &PathModel, exe_dir: &PathModel, build_dir: &PathModel) -> (res: Vec<PathModel>)
    ensures
        res@.len() == 3,
        path_view(res@[0]) == (companion.root@, views(companion.names@).push(if os == HostOs::Windows {
            "rkdeveloptool.exe"@
        } else {
            "rkdeveloptool"@
        })),
        path_view(res@[1]) == (exe_dir.root@, views(exe_dir.names@).push(if os == HostOs::Windows {
            "rkdeveloptool.exe"@
        } else {
            "rkdeveloptool"@
        })),
        path_view(res@[2]) == (build_dir.root@, views(build_dir.names@).push(if os == HostOs::Windows {
            "rkdeveloptool.exe"@
        } else {
            "rkdeveloptool"@
        })),
{
    let name = rkdeveloptool_name(os);
    let mut v: Vec<PathModel> = Vec::new();
    v.push(companion.join(name));
    v.push(exe_dir.join(name));
    v.push(build_dir.join(name));
    v
}

/// The message when `rkdeveloptool` is nowhere to be found.
pub open spec fn missing_tool_message(os: HostOs) -> Seq<char> {
    "rkdeveloptool is missing - place "@ + (if os == HostOs::Windows {
        "rkdeveloptool.exe"@
    } else {
        "rkdeveloptool"@
    }) + " next to the app (portable layout)."@
}

/// The path of `rkdeveloptool`: the first candidate that is a file, or the
/// message that it is missing.
pub fn rkdeveloptool_path(os: HostOs, candidates: Vec<PathModel>, is_file: &[bool]) -> (res: Result<PathModel, String>)
    requires
        candidates@.len() == is_file@.len(),
    ensures
        match res {
            Ok(p) => exists|i: int|
                0 <= i < candidates@.len() && is_file@[i] && p == candidates@[i] && forall|j: int|
                    0 <= j < i ==> !is_file@[j],
            Err(m) => m@ == missing_tool_message(os) && forall|j: int| 0 <= j < is_file@.len() ==> !is_file@[j],
        },
{
    match first_existing(is_file) {
        Some(i) => {
            let mut candidates = candidates;
            let ghost before = candidates@;
            let p = candidates.swap_remove(i);
            Ok(p)
        },
        None => {
            let mut m = owned("rkdeveloptool is missing - place ");
            m.append(rkdeveloptool_name(os));
            m.append(" next to the app (portable layout).");
            Err(m)
        },
    }
}

/// The directories where the loader binaries are looked for, in order:
/// beside the companions, in the resources, beside the executable, then in
/// the source tree.
pub fn loader_binaries_candidates(companion: &PathModel, resources: &PathModel, exe_dir: &PathModel, source_dir: &PathModel) -> (res: Vec<PathModel>)
    ensures
        res@.len() == 4,
        path_view(res@[0]) == (companion.root@, views(companion.names@).push("loader_binaries"@)),
        path_view(res@[1]) == (resources.root@, views(resources.names@).push("loader_binaries"@)),
        path_view(res@[2]) == (exe_dir.root@, views(exe_dir.names@).push("loader_binaries"@)),
        path_view(res@[3]) == (source_dir.root@, views(source_dir.names@).push("loader_binaries"@)),
{
    let mut v: Vec<PathModel> = Vec::new();
    v.push(companion.join("loader_binaries"));
    v.push(resources.join("loader_binaries"));
    v.push(exe_dir.join("loader_binaries"));
    v.push(source_dir.join("loader_binaries"));
    v
}

/// The loader directory: the first candidate that is a directory, else the
/// first candidate (beside the companions).
pub fn loader_binaries_dir(candidates: Vec<PathModel>, is_dir: &[bool]) -> (res: PathModel)
    requires
        candidates@.len() == is_dir@.len(),
        candidates@.len() > 0,
    ensures
        (exists|i: int|
            0 <= i < candidates@.len() && is_dir@[i] && res == candidates@[i] && forall|j: int|
                0 <= j < i ==> !is_dir@[j]) || ((forall|j: int| 0 <= j < is_dir@.len() ==> !is_dir@[j])
            && res == candidates@[0]),
{
    let mut candidates = candidates;
    match first_existing(is_dir) {
        Some(i) => candidates.swap_remove(i),
        None => candidates.swap_remove(0),
    }
}

} // verus!
