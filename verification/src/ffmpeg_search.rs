//! Where FFmpeg is looked for, and in what order.

use vstd::prelude::*;
use crate::text::{spec_strip_prefix, starts_with};

verus! {

/// The folder next to the executable that may hold a bundled FFmpeg.
pub const BUNDLED_RUNTIME_DIR: &'static str = "_ffmpeg_runtime";

/// How deep the bundled folder is searched.
pub const BUNDLED_SEARCH_DEPTH: usize = 4;

/// The WinGet package folder, under the local application data folder.
pub const WINGET_PACKAGES_DIR: &'static str = "Microsoft/WinGet/Packages";

/// How deep a WinGet FFmpeg package is searched.
pub const WINGET_SEARCH_DEPTH: usize = 5;

/// A usual install location: a folder under the folder that an environment
/// variable names.
#[derive(Clone, Copy, Debug, PartialEq, Eq)]
pub struct FfmpegLocation {
    pub variable: &'static str,
    pub subdirectory: &'static str,
}

/// The usual install locations of FFmpeg on Windows, in the order they are
/// tried: WinGet links, a per-user install, Scoop, Chocolatey, Program
/// Files, and Program Files (x86).
pub open spec fn spec_common_locations() -> Seq<(Seq<char>, Seq<char>)> {
    seq![
        ("LOCALAPPDATA"@, "Microsoft/WinGet/Links"@),
        ("LOCALAPPDATA"@, "Programs/ffmpeg/bin"@),
        ("USERPROFILE"@, "scoop/shims"@),
        ("USERPROFILE"@, "scoop/apps/ffmpeg-essentials/current/bin"@),
        ("USERPROFILE"@, "scoop/apps/ffmpeg/current/bin"@),
        ("ProgramData"@, "chocolatey/bin"@),
        ("ProgramFiles"@, "ffmpeg/bin"@),
        ("ProgramFiles(x86)"@, "ffmpeg/bin"@),
    ]
}

fn location(variable: &'static str, subdirectory: &'static str) -> (r: FfmpegLocation)
    ensures
        r.variable == variable,
        r.subdirectory == subdirectory,
{
    FfmpegLocation { variable, subdirectory }
}

/// The usual install locations of FFmpeg on Windows, in the order tried;
/// `ffmpeg.exe` is looked for in each.
pub fn common_ffmpeg_locations() -> (r: Vec<FfmpegLocation>)
    ensures
        r@.len() == spec_common_locations().len(),
        forall|i: int|
            0 <= i < r@.len() ==> ((#[trigger] r@[i]).variable@, r@[i].subdirectory@)
                == spec_common_locations()[i],
{
    let mut v: Vec<FfmpegLocation> = Vec::new();
    v.push(location("LOCALAPPDATA", "Microsoft/WinGet/Links"));
    v.push(location("LOCALAPPDATA", "Programs/ffmpeg/bin"));
    v.push(location("USERPROFILE", "scoop/shims"));
    v.push(location("USERPROFILE", "scoop/apps/ffmpeg-essentials/current/bin"));
    v.push(location("USERPROFILE", "scoop/apps/ffmpeg/current/bin"));
    v.push(location("ProgramData", "chocolatey/bin"));
    v.push(location("ProgramFiles", "ffmpeg/bin"));
    v.push(location("ProgramFiles(x86)", "ffmpeg/bin"));
    v
}

/// The file names tried in each folder of PATH: `ffmpeg.exe` then `ffmpeg`
/// on Windows, `ffmpeg` elsewhere.
pub fn path_executable_names(on_windows: bool) -> (r: Vec<&'static str>)
    ensures
        on_windows ==> r@.len() == 2 && r@[0]@ == "ffmpeg.exe"@ && r@[1]@ == "ffmpeg"@,
        !on_windows ==> r@.len() == 1 && r@[0]@ == "ffmpeg"@,
{
    let mut v: Vec<&'static str> = Vec::new();
    if on_windows {
        v.push("ffmpeg.exe");
    }
    v.push("ffmpeg");
    v
}

/// Whether a WinGet package folder of this name holds the Gyan FFmpeg
/// build: its name begins with "Gyan.FFmpeg".
pub fn is_winget_ffmpeg_package(dir_name: &str) -> (r: bool)
    ensures
        r == (spec_strip_prefix(dir_name@, "Gyan.FFmpeg"@) is Some),
{
    starts_with(dir_name, "Gyan.FFmpeg")
}

/// Whether a folder tree is searched further: depth is left and the path
/// is a folder.
pub fn searches_tree(max_depth: usize, is_dir: bool) -> (r: bool)
    ensures
        r == searches_tree_spec(max_depth, is_dir),
{
    max_depth > 0 && is_dir
}

/// The folder a probe starts from: the executable's folder, the folder
/// named by the variable of the usual location at that index, the local
/// application data folder, or the PATH folder at that index.
#[derive(Clone, Copy, Debug, PartialEq, Eq, Structural)]
pub enum ProbeBase {
    ExeDir,
    Location(usize),
    LocalAppData,
    PathDir(usize),
}

/// What is done with the path of a probe.
#[derive(Clone, Copy, Debug, PartialEq, Eq, Structural)]
pub enum ProbeKind {
    /// Take it where it is a file.
    File,
    /// Search the folder tree to this depth (see `tree_step`).
    Tree(usize),
    /// Search the WinGet packages of the Gyan FFmpeg build in it.
    WingetPackages,
}

/// A place where FFmpeg is looked for: the base folder joined with `parts`.
#[derive(Debug, PartialEq, Eq)]
pub struct FfmpegProbe {
    pub base: ProbeBase,
    pub parts: Vec<&'static str>,
    pub kind: ProbeKind,
}

/// A probe taken by its view.
pub open spec fn probe_view(p: FfmpegProbe) -> (ProbeBase, Seq<Seq<char>>, ProbeKind) {
    (p.base, p.parts@.map_values(|s: &'static str| s@), p.kind)
}

/// The probes beside the executable: `ffmpeg.exe` there, then the bundled
/// runtime tree, 4 levels deep.
pub open spec fn exe_probes(has_exe_dir: bool) -> Seq<(ProbeBase, Seq<Seq<char>>, ProbeKind)> {
    if has_exe_dir {
        seq![
            (ProbeBase::ExeDir, seq!["ffmpeg.exe"@], ProbeKind::File),
            (ProbeBase::ExeDir, seq!["_ffmpeg_runtime"@], ProbeKind::Tree(BUNDLED_SEARCH_DEPTH)),
        ]
    } else {
        Seq::empty()
    }
}

/// The probes of the usual locations whose variable is set, in order:
/// `ffmpeg.exe` in the location's folder.
pub open spec fn location_probes(set: Seq<bool>) -> Seq<(ProbeBase, Seq<Seq<char>>, ProbeKind)>
    decreases set.len(),
{
    if set.len() == 0 {
        Seq::empty()
    } else {
        let i = (set.len() - 1) as int;
        location_probes(set.drop_last()) + if set.last() {
            seq![
                (
                    ProbeBase::Location(i as usize),
                    seq![spec_common_locations()[i].1, "ffmpeg.exe"@],
                    ProbeKind::File,
                ),
            ]
        } else {
            Seq::empty()
        }
    }
}

/// The file names tried in each PATH folder.
pub open spec fn path_names(on_windows: bool) -> Seq<Seq<char>> {
    if on_windows {
        seq!["ffmpeg.exe"@, "ffmpeg"@]
    } else {
        seq!["ffmpeg"@]
    }
}

/// The probes of the first `count` PATH folders, each with the names of
/// `path_names` in order.
pub open spec fn path_probes(count: nat, on_windows: bool) -> Seq<
    (ProbeBase, Seq<Seq<char>>, ProbeKind),
>
    decreases count,
{
    if count == 0 {
        Seq::empty()
    } else {
        let j = (count - 1) as int;
        path_probes((count - 1) as nat, on_windows) + path_names(on_windows).map_values(
            |n: Seq<char>| (ProbeBase::PathDir(j as usize), seq![n], ProbeKind::File),
        )
    }
}

/// Where FFmpeg is looked for, in order: beside the executable and in its
/// bundled runtime tree; on Windows the usual locations whose variable is
/// set and then the WinGet packages under the local application data
/// folder; last each PATH folder.
pub open spec fn spec_ffmpeg_probes(
    has_exe_dir: bool,
    location_set: Seq<bool>,
    has_local_app_data: bool,
    path_dir_count: nat,
    on_windows: bool,
) -> Seq<(ProbeBase, Seq<Seq<char>>, ProbeKind)> {
    exe_probes(has_exe_dir) + (if on_windows {
        location_probes(location_set)
    } else {
        Seq::empty()
    }) + (if on_windows && has_local_app_data {
        seq![(ProbeBase::LocalAppData, seq!["Microsoft/WinGet/Packages"@], ProbeKind::WingetPackages)]
    } else {
        Seq::empty()
    }) + path_probes(path_dir_count, on_windows)
}

/// The views of a list of probes.
pub open spec fn probe_views(ps: Seq<FfmpegProbe>) -> Seq<(ProbeBase, Seq<Seq<char>>, ProbeKind)> {
    ps.map_values(|p: FfmpegProbe| probe_view(p))
}

fn push_probe(ps: &mut Vec<FfmpegProbe>, base: ProbeBase, parts: Vec<&'static str>, kind: ProbeKind)
    ensures
        probe_views(final(ps)@) == probe_views(old(ps)@).push(
            (base, parts@.map_values(|s: &'static str| s@), kind),
        ),
{
    ps.push(FfmpegProbe { base, parts, kind });
    assert(probe_views(ps@) =~= probe_views(old(ps)@).push(
        (base, parts@.map_values(|s: &'static str| s@), kind),
    ));
}

/// The places where FFmpeg is looked for, in the order they are tried,
/// given whether there is an executable folder, which usual locations have
/// their variable set (one flag per location of `common_ffmpeg_locations`),
/// whether the local application data variable is set, and how many PATH
/// folders there are.
pub fn ffmpeg_probes(
    has_exe_dir: bool,
    location_set: &[bool],
    has_local_app_data: bool,
    path_dir_count: usize,
    on_windows: bool,
) -> (r: Vec<FfmpegProbe>)
    requires
        location_set@.len() == spec_common_locations().len(),
    ensures
        probe_views(r@) == spec_ffmpeg_probes(
            has_exe_dir,
            location_set@,
            has_local_app_data,
            path_dir_count as nat,
            on_windows,
        ),
{
    let mut ps: Vec<FfmpegProbe> = Vec::new();
    assert(probe_views(ps@) =~= Seq::<(ProbeBase, Seq<Seq<char>>, ProbeKind)>::empty());
    if has_exe_dir {
        push_probe(&mut ps, ProbeBase::ExeDir, one_part("ffmpeg.exe"), ProbeKind::File);
        push_probe(
            &mut ps,
            ProbeBase::ExeDir,
            one_part(BUNDLED_RUNTIME_DIR),
            ProbeKind::Tree(BUNDLED_SEARCH_DEPTH),
        );
    }
    let ghost start = probe_views(ps@);
    assert(start =~= exe_probes(has_exe_dir));
    if on_windows {
        let locations = common_ffmpeg_locations();
        let mut i: usize = 0;
        assert(location_set@.take(0) =~= Seq::<bool>::empty());
        while i < location_set.len()
            invariant
                location_set@.len() == spec_common_locations().len(),
                locations@.len() == spec_common_locations().len(),
                forall|k: int|
                    0 <= k < locations@.len() ==> ((#[trigger] locations@[k]).variable@,
                    locations@[k].subdirectory@) == spec_common_locations()[k],
                i <= location_set@.len(),
                probe_views(ps@) == start + location_probes(location_set@.take(i as int)),
            decreases location_set@.len() - i,
        {
            let ghost before = probe_views(ps@);
            assert(location_set@.take(i + 1).drop_last() =~= location_set@.take(i as int));
            if location_set[i] {
                push_probe(
                    &mut ps,
                    ProbeBase::Location(i),
                    two_parts(locations[i].subdirectory, "ffmpeg.exe"),
                    ProbeKind::File,
                );
            }
            assert(probe_views(ps@) =~= start + location_probes(location_set@.take(i + 1)));
            i = i + 1;
        }
        assert(location_set@.take(location_set@.len() as int) =~= location_set@);
    }
    let ghost mid = probe_views(ps@);
    if on_windows && has_local_app_data {
        push_probe(
            &mut ps,
            ProbeBase::LocalAppData,
            one_part(WINGET_PACKAGES_DIR),
            ProbeKind::WingetPackages,
        );
    }
    let ghost before_path = probe_views(ps@);
    let mut j: usize = 0;
    while j < path_dir_count
        invariant
            j <= path_dir_count,
            probe_views(ps@) == before_path + path_probes(j as nat, on_windows),
        decreases path_dir_count - j,
    {
        if on_windows {
            push_probe(&mut ps, ProbeBase::PathDir(j), one_part("ffmpeg.exe"), ProbeKind::File);
        }
        push_probe(&mut ps, ProbeBase::PathDir(j), one_part("ffmpeg"), ProbeKind::File);
        assert(probe_views(ps@) =~= before_path + path_probes((j + 1) as nat, on_windows));
        j = j + 1;
    }
    assert(probe_views(ps@) =~= spec_ffmpeg_probes(
        has_exe_dir,
        location_set@,
        has_local_app_data,
        path_dir_count as nat,
        on_windows,
    ));
    ps
}

fn one_part(a: &'static str) -> (r: Vec<&'static str>)
    ensures
        r@.map_values(|s: &'static str| s@) == seq![a@],
{
    let r = vec![a];
    assert(r@.map_values(|s: &'static str| s@) =~= seq![a@]);
    r
}

fn two_parts(a: &'static str, b: &'static str) -> (r: Vec<&'static str>)
    ensures
        r@.map_values(|s: &'static str| s@) == seq![a@, b@],
{
    let r = vec![a, b];
    assert(r@.map_values(|s: &'static str| s@) =~= seq![a@, b@]);
    r
}

/// What to do at a folder while searching a tree for FFmpeg.
#[derive(Clone, Copy, Debug, PartialEq, Eq, Structural)]
pub enum TreeStep {
    /// Nothing more is searched here.
    Stop,
    /// Take `ffmpeg.exe` in the folder.
    TakeDirect,
    /// Take `bin/ffmpeg.exe` under the folder.
    TakeBin,
    /// Search each subfolder to this depth.
    Descend(usize),
}

/// The step at a folder of a tree search with `depth` levels left: stop
/// where no depth is left or it is not a folder; else take `ffmpeg.exe`,
/// else `bin/ffmpeg.exe`, where it is a file; else search the subfolders
/// one level less deep.
pub fn tree_step(depth: usize, is_dir: bool, direct_is_file: bool, bin_is_file: bool) -> (r:
    TreeStep)
    ensures
        !searches_tree_spec(depth, is_dir) ==> r == TreeStep::Stop,
        searches_tree_spec(depth, is_dir) ==> r == (if direct_is_file {
            TreeStep::TakeDirect
        } else if bin_is_file {
            TreeStep::TakeBin
        } else {
            TreeStep::Descend((depth - 1) as usize)
        }),
{
    if !searches_tree(depth, is_dir) {
        TreeStep::Stop
    } else if direct_is_file {
        TreeStep::TakeDirect
    } else if bin_is_file {
        TreeStep::TakeBin
    } else {
        TreeStep::Descend(depth - 1)
    }
}

/// Whether a folder tree is searched further.
pub open spec fn searches_tree_spec(depth: usize, is_dir: bool) -> bool {
    depth > 0 && is_dir
}

/// An FFmpeg beside the executable is the first place tried.
pub proof fn lemma_exe_dir_is_tried_first(
    location_set: Seq<bool>,
    has_local_app_data: bool,
    path_dir_count: nat,
    on_windows: bool,
)
    ensures
        spec_ffmpeg_probes(true, location_set, has_local_app_data, path_dir_count, on_windows)[0]
            == (ProbeBase::ExeDir, seq!["ffmpeg.exe"@], ProbeKind::File),
{
}

/// Every PATH folder is searched for `ffmpeg`.
pub proof fn lemma_path_dirs_are_tried(count: nat, j: nat, on_windows: bool)
    requires
        j < count,
    ensures
        path_probes(count, on_windows).contains(
            (ProbeBase::PathDir(j as usize), seq!["ffmpeg"@], ProbeKind::File),
        ),
    decreases count,
{
    let probe = (ProbeBase::PathDir(j as usize), seq!["ffmpeg"@], ProbeKind::File);
    let prev = path_probes((count - 1) as nat, on_windows);
    let names = path_names(on_windows).map_values(
        |n: Seq<char>| (ProbeBase::PathDir((count - 1) as usize), seq![n], ProbeKind::File),
    );
    if j < count - 1 {
        lemma_path_dirs_are_tried((count - 1) as nat, j, on_windows);
        let k = choose|k: int| 0 <= k < prev.len() && prev[k] == probe;
        assert((prev + names)[k] == probe);
    } else {
        let k = names.len() - 1;
        assert(names[k] == probe);
        assert((prev + names)[prev.len() + k] == probe);
    }
}

} // verus!
