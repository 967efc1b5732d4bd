use haeng::download::{
    archive_path, download_args, playlist_file_path, update_args, DownloadRun, Stage, Step,
};
use haeng::error::PlaylistError;
use haeng::playlist::{add_playlist, get_url_from_playlists, view_playlists};
use haeng::registry::Registry;

const BASE: &str = "C:\\media";

fn strings(v: &[&str]) -> Vec<String> {
    v.iter().map(|s| s.to_string()).collect()
}

fn three_playlists() -> Registry {
    let mut reg = Registry::new();
    add_playlist(&mut reg, "a", "https://youtube.com/playlist?list=1").unwrap();
    add_playlist(&mut reg, "b", "https://youtube.com/playlist?list=2").unwrap();
    add_playlist(&mut reg, "c", "https://youtube.com/playlist?list=3").unwrap();
    reg
}

#[test]
fn paths_under_base() {
    assert_eq!(playlist_file_path(BASE), "C:\\media\\playlists.json");
    assert_eq!(archive_path(BASE), "C:\\media\\myarchive.txt");
}

#[test]
fn update_arguments() {
    assert_eq!(update_args(), strings(&["-U"]));
}

#[test]
fn download_arguments() {
    assert_eq!(
        download_args(BASE, "mix", "https://youtube.com/playlist?list=1"),
        strings(&[
            "-ciw",
            "-f m4a",
            "--embed-thumbnail",
            "--download-archive",
            "C:\\media\\myarchive.txt",
            "--restrict-filenames",
            "-o",
            "C:\\media\\mix\\%(title)s-%(id)s.%(ext)s",
            "https://youtube.com/playlist?list=1",
        ])
    );
}

#[test]
fn bulk_run_stops_at_first_launch_failure() {
    let mut reg = three_playlists();
    let (mut run, step) = DownloadRun::download_playlists(BASE, &reg);
    assert_eq!(step, Step::Launch(update_args()));
    let first = run.advance(&mut reg, true);
    assert!(matches!(first, Step::Launch(_)));
    let second = run.advance(&mut reg, true);
    assert!(matches!(second, Step::Launch(_)));
    assert_ne!(first, second);
    let end = run.advance(&mut reg, false);
    assert_eq!(end, Step::Done(Err(PlaylistError::DownloadLaunchFailed)));
    assert_eq!(run.stage, Stage::Failed(PlaylistError::DownloadLaunchFailed));
    assert_eq!(run.advance(&mut reg, true), Step::Done(Err(PlaylistError::DownloadLaunchFailed)));
}

#[test]
fn bulk_run_starts_every_target() {
    let mut reg = three_playlists();
    let (mut run, _) = DownloadRun::download_playlists(BASE, &reg);
    let mut launched: Vec<Vec<String>> = Vec::new();
    let mut step = run.advance(&mut reg, true);
    while let Step::Launch(args) = step {
        launched.push(args);
        step = run.advance(&mut reg, true);
    }
    assert_eq!(step, Step::Done(Ok(())));
    let mut urls: Vec<String> = launched.iter().map(|a| a[8].clone()).collect();
    urls.sort();
    assert_eq!(
        urls,
        strings(&[
            "https://youtube.com/playlist?list=1",
            "https://youtube.com/playlist?list=2",
            "https://youtube.com/playlist?list=3",
        ])
    );
}

#[test]
fn bulk_run_over_empty_registry() {
    let mut reg = Registry::new();
    let (mut run, _) = DownloadRun::download_playlists(BASE, &reg);
    assert_eq!(run.advance(&mut reg, true), Step::Done(Ok(())));
}

#[test]
fn update_failure_aborts_bulk_run() {
    let mut reg = three_playlists();
    let (mut run, _) = DownloadRun::download_playlists(BASE, &reg);
    assert_eq!(run.advance(&mut reg, false), Step::Done(Err(PlaylistError::UpdateCheckFailed)));
}

#[test]
fn update_failure_aborts_single_run_before_saving() {
    let mut reg = Registry::new();
    let url = "https://youtube.com/playlist?list=1";
    let (mut run, step) = DownloadRun::download_playlist(BASE, true, "new", Some(url));
    assert_eq!(step, Step::Launch(update_args()));
    assert_eq!(run.advance(&mut reg, false), Step::Done(Err(PlaylistError::UpdateCheckFailed)));
    assert!(view_playlists(&reg).is_empty());
}

#[test]
fn single_run_with_tracked_name() {
    let mut reg = three_playlists();
    let (mut run, _) = DownloadRun::download_playlist(BASE, false, "b", None);
    assert_eq!(
        run.advance(&mut reg, true),
        Step::Launch(download_args(BASE, "b", "https://youtube.com/playlist?list=2"))
    );
    assert_eq!(run.advance(&mut reg, true), Step::Done(Ok(())));
}

#[test]
fn single_run_with_unknown_name_fails() {
    let mut reg = three_playlists();
    let (mut run, _) = DownloadRun::download_playlist(BASE, false, "zzz", None);
    assert_eq!(run.advance(&mut reg, true), Step::Done(Err(PlaylistError::NotFound)));
}

#[test]
fn single_run_reports_launch_failure() {
    let mut reg = three_playlists();
    let (mut run, _) = DownloadRun::download_playlist(BASE, false, "a", None);
    run.advance(&mut reg, true);
    assert_eq!(run.advance(&mut reg, false), Step::Done(Err(PlaylistError::DownloadLaunchFailed)));
}

#[test]
fn save_of_existing_name_still_downloads() {
    let mut reg = three_playlists();
    let other = "https://youtube.com/playlist?list=77";
    let (mut run, _) = DownloadRun::download_playlist(BASE, true, "a", Some(other));
    assert_eq!(run.advance(&mut reg, true), Step::Warn(PlaylistError::AlreadyExists));
    assert_eq!(run.advance(&mut reg, true), Step::Launch(download_args(BASE, "a", other)));
    assert_eq!(run.advance(&mut reg, true), Step::Done(Ok(())));
    assert_eq!(
        get_url_from_playlists(&reg, "a"),
        Ok("https://youtube.com/playlist?list=1".to_string())
    );
}

#[test]
fn save_of_new_name_persists_then_downloads() {
    let mut reg = Registry::new();
    let url = "https://youtube.com/playlist?list=5";
    let (mut run, _) = DownloadRun::download_playlist(BASE, true, "new", Some(url));
    match run.advance(&mut reg, true) {
        Step::Persist(text) => assert!(text.contains("\"new\"")),
        other => panic!("expected a write of the registry, got {:?}", other),
    }
    assert_eq!(get_url_from_playlists(&reg, "new"), Ok(url.to_string()));
    assert_eq!(run.advance(&mut reg, true), Step::Launch(download_args(BASE, "new", url)));
    assert_eq!(run.advance(&mut reg, true), Step::Done(Ok(())));
}

#[test]
fn failed_write_is_reported_and_download_goes_on() {
    let mut reg = Registry::new();
    let url = "https://youtube.com/playlist?list=5";
    let (mut run, _) = DownloadRun::download_playlist(BASE, true, "new", Some(url));
    assert!(matches!(run.advance(&mut reg, true), Step::Persist(_)));
    assert_eq!(run.advance(&mut reg, false), Step::Warn(PlaylistError::FileWriteFailed));
    assert_eq!(run.advance(&mut reg, true), Step::Launch(download_args(BASE, "new", url)));
}

#[test]
fn save_with_invalid_url_still_downloads() {
    let mut reg = Registry::new();
    let (mut run, _) = DownloadRun::download_playlist(BASE, true, "v", Some("https://vimeo.com/1"));
    assert_eq!(run.advance(&mut reg, true), Step::Warn(PlaylistError::DomainNotAllowed));
    assert_eq!(
        run.advance(&mut reg, true),
        Step::Launch(download_args(BASE, "v", "https://vimeo.com/1"))
    );
    assert!(view_playlists(&reg).is_empty());
}

#[test]
fn saved_entry_stays_when_download_launch_fails() {
    let mut reg = Registry::new();
    let url = "https://youtube.com/playlist?list=5";
    let (mut run, _) = DownloadRun::download_playlist(BASE, true, "new", Some(url));
    let written = match run.advance(&mut reg, true) {
        Step::Persist(text) => text,
        other => panic!("expected a write of the registry, got {:?}", other),
    };
    assert!(matches!(run.advance(&mut reg, true), Step::Launch(_)));
    assert_eq!(run.advance(&mut reg, false), Step::Done(Err(PlaylistError::DownloadLaunchFailed)));
    let reloaded = haeng::store::load_playlists(&written).unwrap();
    assert_eq!(get_url_from_playlists(&reloaded, "new"), Ok(url.to_string()));
    assert_eq!(get_url_from_playlists(&reg, "new"), Ok(url.to_string()));
}
