use recordscreen::ffmpeg_search::{
    common_ffmpeg_locations, ffmpeg_probes, is_winget_ffmpeg_package, path_executable_names,
    searches_tree, tree_step, FfmpegProbe, ProbeBase, ProbeKind, TreeStep,
};

fn probe(base: ProbeBase, parts: Vec<&'static str>, kind: ProbeKind) -> FfmpegProbe {
    FfmpegProbe { base, parts, kind }
}

#[test]
fn locations_in_order() {
    let l = common_ffmpeg_locations();
    assert_eq!(l.len(), 8);
    assert_eq!((l[0].variable, l[0].subdirectory), ("LOCALAPPDATA", "Microsoft/WinGet/Links"));
    assert_eq!((l[3].variable, l[3].subdirectory), ("USERPROFILE", "scoop/apps/ffmpeg-essentials/current/bin"));
    assert_eq!((l[7].variable, l[7].subdirectory), ("ProgramFiles(x86)", "ffmpeg/bin"));
}

#[test]
fn names_and_packages() {
    assert_eq!(path_executable_names(true), vec!["ffmpeg.exe", "ffmpeg"]);
    assert_eq!(path_executable_names(false), vec!["ffmpeg"]);
    assert!(is_winget_ffmpeg_package("Gyan.FFmpeg_Microsoft.Winget.Source_8wekyb3d8bbwe"));
    assert!(!is_winget_ffmpeg_package("BtbN.FFmpeg"));
    assert!(searches_tree(1, true));
    assert!(!searches_tree(0, true));
    assert!(!searches_tree(3, false));
}

#[test]
fn probes_on_windows_in_order() {
    let set = [false, true, false, false, false, false, true, false];
    let probes = ffmpeg_probes(true, &set, true, 2, true);
    assert_eq!(
        probes,
        vec![
            probe(ProbeBase::ExeDir, vec!["ffmpeg.exe"], ProbeKind::File),
            probe(ProbeBase::ExeDir, vec!["_ffmpeg_runtime"], ProbeKind::Tree(4)),
            probe(ProbeBase::Location(1), vec!["Programs/ffmpeg/bin", "ffmpeg.exe"], ProbeKind::File),
            probe(ProbeBase::Location(6), vec!["ffmpeg/bin", "ffmpeg.exe"], ProbeKind::File),
            probe(ProbeBase::LocalAppData, vec!["Microsoft/WinGet/Packages"], ProbeKind::WingetPackages),
            probe(ProbeBase::PathDir(0), vec!["ffmpeg.exe"], ProbeKind::File),
            probe(ProbeBase::PathDir(0), vec!["ffmpeg"], ProbeKind::File),
            probe(ProbeBase::PathDir(1), vec!["ffmpeg.exe"], ProbeKind::File),
            probe(ProbeBase::PathDir(1), vec!["ffmpeg"], ProbeKind::File),
        ]
    );
}

#[test]
fn probes_elsewhere_skip_windows_places() {
    let set = [true; 8];
    let probes = ffmpeg_probes(false, &set, true, 1, false);
    assert_eq!(probes, vec![probe(ProbeBase::PathDir(0), vec!["ffmpeg"], ProbeKind::File)]);
    assert!(ffmpeg_probes(false, &set, false, 0, false).is_empty());
}

#[test]
fn tree_steps() {
    assert_eq!(tree_step(0, true, true, true), TreeStep::Stop);
    assert_eq!(tree_step(3, false, true, true), TreeStep::Stop);
    assert_eq!(tree_step(3, true, true, true), TreeStep::TakeDirect);
    assert_eq!(tree_step(3, true, false, true), TreeStep::TakeBin);
    assert_eq!(tree_step(3, true, false, false), TreeStep::Descend(2));
}
