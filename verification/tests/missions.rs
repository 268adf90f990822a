use std::path::PathBuf;
use std::sync::atomic::{AtomicU8, Ordering};
use std::sync::Arc;
use sunrise_launcher::error::AppError;
use sunrise_launcher::missions::{
    archive_root, git_path, is_git_checkout, remove_dot_entries, scripts_path, FolderEntry,
    InstallNext, InstallStep, BRANCH, OWNER, REPOSITORY,
};
use sunrise_launcher::models::{OperationEvent, Presence};
use sunrise_launcher::paths::LocalPath;
use sunrise_launcher::runtime::EventSink;

fn entry(name: &str, kind: Presence) -> FolderEntry {
    FolderEntry { path: PathBuf::from("/archive").join(name), name: name.into(), kind }
}

#[test]
fn archive_root_needs_exactly_one_folder() {
    assert!(archive_root(&vec![]).is_err());

    let root = PathBuf::from("/archive").join("SunriseMissions-abc");
    let top = vec![entry("SunriseMissions-abc", Presence::Folder)];
    assert_eq!(archive_root(&top).expect("root"), root);

    let removed = remove_dot_entries(&vec![
        entry("lib", Presence::Folder),
        entry(".gitattributes", Presence::File),
        entry("mission.lua", Presence::File),
    ]);
    assert_eq!(removed.len(), 1);
    assert_eq!(removed[0].path, PathBuf::from("/archive/.gitattributes"));
    assert!(!removed[0].is_folder);

    let stray = vec![
        entry("SunriseMissions-abc", Presence::Folder),
        entry("stray.txt", Presence::File),
    ];
    assert_eq!(
        archive_root(&stray).expect_err("stray").text(),
        "The missions archive does not have the expected layout."
    );
    assert!(archive_root(&vec![entry("a", Presence::File)]).is_err());
}

#[test]
fn dot_entries_are_removed_in_order() {
    let removed = remove_dot_entries(&vec![
        entry(".b", Presence::Folder),
        entry("x.", Presence::File),
        entry(".a", Presence::Other),
        entry("", Presence::File),
    ]);
    let found: Vec<(PathBuf, bool)> = removed
        .into_iter()
        .map(|removal| (removal.path, removal.is_folder))
        .collect();
    assert_eq!(
        found,
        vec![
            (PathBuf::from("/archive/.b"), true),
            (PathBuf::from("/archive/.a"), false)
        ]
    );
}

#[test]
fn scripts_are_beside_the_settings() {
    let root = LocalPath::at(PathBuf::from("/games"));
    assert_eq!(scripts_path(&root).names, vec!["bin", "x64", "Sunrise", "scripts"]);
    assert_eq!(
        git_path(&root).names,
        vec!["bin", "x64", "Sunrise", "scripts", ".git"]
    );
    assert_eq!(
        scripts_path(&root).parent(),
        sunrise_launcher::storage::settings_path(&root).parent()
    );
    assert_eq!((OWNER, REPOSITORY, BRANCH), ("stanuwu", "SunriseMissions", "main"));
}

#[test]
fn git_checkouts_are_left_alone() {
    assert!(is_git_checkout(Presence::Folder));
    assert!(is_git_checkout(Presence::File));
    assert!(!is_git_checkout(Presence::Missing));
    assert_eq!(
        InstallStep::first(Presence::Folder).expect_err("checkout").text(),
        "The scripts folder is a git checkout. Update it with git instead."
    );
    assert_eq!(
        InstallStep::first(Presence::Missing).expect("first"),
        InstallStep::FetchCommit
    );
}

#[test]
fn successful_steps_install_the_scripts() {
    for (occupied, count) in [(Presence::Folder, 10), (Presence::Missing, 9)] {
        let mut steps = 0;
        let mut next = InstallNext::Run(InstallStep::FetchCommit);
        while let InstallNext::Run(step) = next {
            next = step.next(true, occupied);
            steps += 1;
        }
        assert_eq!(next, InstallNext::Installed);
        assert_eq!(steps, count);
    }
}

#[test]
fn a_failed_swap_is_undone() {
    assert_eq!(
        InstallStep::MoveIn.next(false, Presence::Folder),
        InstallNext::Run(InstallStep::Restore)
    );
    let undone = InstallNext::Run(InstallStep::RemoveStaging { installed: false });
    assert_eq!(InstallStep::MoveIn.next(false, Presence::Missing), undone);
    assert_eq!(InstallStep::Restore.next(true, Presence::Missing), undone);
    assert_eq!(InstallStep::Restore.next(false, Presence::Folder), undone);
    assert_eq!(InstallStep::MoveAside.next(false, Presence::Folder), undone);
    assert_eq!(
        InstallStep::MoveIn.failure(),
        Some("Could not install the mission scripts")
    );
    assert_eq!(InstallStep::FetchCommit.failure(), None);
}

#[test]
fn the_staging_folder_goes_at_the_end() {
    let done = InstallStep::RemoveStaging { installed: true };
    assert_eq!(InstallStep::MoveIn.next(true, Presence::Folder), InstallNext::Run(done));
    for succeeded in [true, false] {
        assert_eq!(done.next(succeeded, Presence::Folder), InstallNext::Installed);
        assert_eq!(
            InstallStep::RemoveStaging { installed: false }.next(succeeded, Presence::Missing),
            InstallNext::Failed
        );
    }
    for step in [
        InstallStep::FetchCommit,
        InstallStep::CreateFolder,
        InstallStep::CreateStaging,
    ] {
        assert_eq!(step.next(false, Presence::Missing), InstallNext::Failed);
    }
    for step in [
        InstallStep::DownloadArchive,
        InstallStep::ExtractArchive,
        InstallStep::FindRoot,
        InstallStep::RemoveDotEntries,
    ] {
        assert_eq!(
            step.next(false, Presence::Missing),
            InstallNext::Run(InstallStep::RemoveStaging { installed: false })
        );
    }
    assert_eq!(done.failure(), None);
}

struct Counter(AtomicU8);

impl EventSink for Counter {
    fn send(&self, event: OperationEvent) {
        match event {
            OperationEvent::Progress { percent, .. } => self.0.store(percent, Ordering::SeqCst),
        }
    }
}

#[test]
fn shared_sinks_pass_events_on() {
    let counter = Arc::new(Counter(AtomicU8::new(0)));
    counter.send(OperationEvent::Progress {
        stage: "s".into(),
        message: "m".into(),
        percent: 7,
    });
    EventSink::send(
        &counter,
        OperationEvent::Progress { stage: "s".into(), message: "m".into(), percent: 9 },
    );
    assert_eq!(counter.0.load(Ordering::SeqCst), 9);
}

#[test]
fn errors_read_as_written() {
    assert_eq!(AppError::message("text".into()).text(), "text");
    let io = AppError::io(
        "Could not read",
        std::io::Error::new(std::io::ErrorKind::Other, "broken"),
    );
    assert_eq!(io.text(), "Could not read: broken");
    assert_eq!(AppError::Cancelled.text(), "The operation was cancelled.");
    let source = serde_json::from_str::<u8>("x").expect_err("invalid");
    let text = source.to_string();
    assert_eq!(
        AppError::from(source).text(),
        format!("Local installer data is invalid: {text}")
    );
    let archive = zip::result::ZipError::FileNotFound;
    let text = archive.to_string();
    assert_eq!(
        AppError::from(archive).text(),
        format!("A downloaded archive could not be read: {text}")
    );
    let network = reqwest::Client::new().get("no address").build().expect_err("invalid");
    let text = network.to_string();
    assert_eq!(
        AppError::from(network).text(),
        format!("GitHub could not be reached. Check your connection and try again: {text}")
    );
}
