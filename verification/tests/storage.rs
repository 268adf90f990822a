use std::path::PathBuf;
use sunrise_launcher::error::AppError;
use sunrise_launcher::models::{InstallationSnapshot, InstallerState, Presence};
use sunrise_launcher::paths::LocalPath;
use sunrise_launcher::runtime::RuntimeContext;
use sunrise_launcher::storage::{
    app_cache_dir, app_data_dir, default_install_directory, inspect_installation,
    inspected_folder, installed_language, is_existing_installation_directory, mod_path,
    needs_dll_digest, preferences_path, recorded_language, settings_path, state_path,
    temporary_name, FolderFacts, Inspection, WriteStep,
};

fn state() -> InstallerState {
    InstallerState {
        release_tag: "v1".into(),
        release_asset_digest: Some("sha256:aa".into()),
        installed_dll_sha256: "aa".into(),
        installed_at_utc: "2026-08-26T12:00:00+00:00".into(),
        steam_language: None,
        missions_commit: Some("c".into()),
    }
}

fn facts(state: Option<InstallerState>, dll: Option<&str>) -> FolderFacts {
    FolderFacts {
        game: Presence::File,
        state,
        steam_language: Some("german".into()),
        dll_sha256: dll.map(|digest| digest.to_string()),
    }
}

fn snapshot(facts: FolderFacts) -> InstallationSnapshot {
    match inspect_installation("/games", facts) {
        Inspection::Snapshot(snapshot) => snapshot,
        Inspection::NoFolder(message) => panic!("{message}"),
    }
}

fn root() -> LocalPath {
    LocalPath::at(PathBuf::from("/games"))
}

#[test]
fn installed_language_prefers_state_then_settings() {
    assert!(installed_language(&None, None).is_none());

    let settings: &[u8] = b"\xEF\xBB\xBF{\"steam\":{\"language\":\"polish\"}}";
    let legacy = Some(state());
    assert_eq!(
        installed_language(&legacy, Some(settings)),
        Some("polish".to_string())
    );
    assert_eq!(recorded_language(&legacy), None);

    let recorded = Some(InstallerState { steam_language: Some("german".into()), ..state() });
    assert_eq!(
        installed_language(&recorded, Some(settings)),
        Some("german".to_string())
    );
    assert_eq!(installed_language(&recorded, None), Some("german".to_string()));
    assert_eq!(installed_language(&None, Some(b"broken")), None);
}

#[test]
fn places_are_below_the_installation_folder() {
    assert_eq!(state_path(&root()).names, vec![".sunrise", "install-state.json"]);
    assert_eq!(
        settings_path(&root()).names,
        vec!["bin", "x64", "Sunrise", "settings.json"]
    );
    assert_eq!(
        mod_path(&root(), &vec!["bin".to_string(), "a.dll".to_string()]).names,
        vec!["bin", "a.dll"]
    );
    assert_eq!(mod_path(&root(), &Vec::new()), root());
    assert_eq!(preferences_path(&root()).names, vec!["preferences.json"]);
    assert_eq!(settings_path(&root()).base, PathBuf::from("/games"));
}

#[test]
fn places_are_in_their_folders() {
    let place = root().join("a").join("b");
    assert_eq!(place.parent(), Some(root().join("a")));
    assert_eq!(place.file_name(), Some("b".to_string()));
    assert_eq!(root().parent(), None);
    assert_eq!(root().file_name(), None);
    assert_eq!(place.clone(), place);
}

#[test]
fn an_installation_is_recognised() {
    assert!(is_existing_installation_directory(Presence::File, Presence::Missing));
    assert!(is_existing_installation_directory(Presence::Missing, Presence::File));
    assert!(!is_existing_installation_directory(Presence::Folder, Presence::Other));
}

#[test]
fn the_executable_folder_is_the_default() {
    assert_eq!(default_install_directory(Some("/x".into())).expect("folder"), "/x");
    assert_eq!(
        default_install_directory(None).expect_err("none").text(),
        "The launcher executable has no parent folder."
    );
}

#[test]
fn no_folder_is_no_installation() {
    for path in ["", " \t\u{3000}"] {
        assert_eq!(inspected_folder(path), None);
        match inspect_installation(path, facts(Some(state()), Some("aa"))) {
            Inspection::NoFolder(message) => {
                assert_eq!(message, "Choose an installation folder to get started.")
            }
            Inspection::Snapshot(_) => panic!("no folder was chosen"),
        }
    }
    assert_eq!(inspected_folder(" /games \n"), Some("/games".to_string()));
}

#[test]
fn unmanaged_folders_are_shown() {
    assert!(!needs_dll_digest(&None));
    let found = snapshot(facts(None, None));
    assert_eq!(found.status, "unmanaged");
    assert_eq!(
        found.message,
        "Destiny 2 was found, but this launcher has not installed Sunrise here."
    );
    assert!(found.game_found && !found.local_file_changed);
    assert_eq!(found.steam_language, Some("german".to_string()));
    assert_eq!(found.installed_release, None);
    let missing = snapshot(FolderFacts { game: Presence::Folder, ..facts(None, Some("aa")) });
    assert_eq!(missing.status, "notInstalled");
    assert_eq!(
        missing.message,
        "No managed Sunrise installation was found in this folder."
    );
    assert!(!missing.game_found);
}

#[test]
fn installed_folders_are_shown() {
    assert!(needs_dll_digest(&Some(state())));
    let repair = snapshot(facts(Some(state()), None));
    assert_eq!(repair.status, "needsRepair");
    assert_eq!(repair.message, "The Sunrise DLL is missing. Run Repair.");
    assert!(repair.local_file_changed);

    let installed = snapshot(facts(Some(state()), Some("AA")));
    assert_eq!(installed.status, "installed");
    assert_eq!(installed.message, "Sunrise is installed and ready.");
    assert!(!installed.local_file_changed);
    assert_eq!(installed.installed_release, Some("v1".to_string()));
    assert_eq!(installed.installed_release_digest, Some("sha256:aa".to_string()));
    assert_eq!(installed.installed_at, Some("2026-08-26T12:00:00+00:00".to_string()));
    assert_eq!(installed.missions_commit, Some("c".to_string()));

    let modified = snapshot(facts(Some(state()), Some("bb")));
    assert_eq!(modified.status, "modified");
    assert_eq!(
        modified.message,
        "The installed DLL differs from the recorded release. Run Repair or Update."
    );
    assert!(modified.local_file_changed);
}

#[test]
fn temporary_files_have_their_own_names() {
    assert_eq!(
        temporary_name(Some("preferences.json"), 4711),
        ".preferences.json-4711.tmp"
    );
    assert_eq!(temporary_name(None, 0), ".state-0.tmp");
}

#[test]
fn files_are_replaced_in_order() {
    let mut step = WriteStep::first(&Some(root())).expect("first");
    let mut steps = vec![step];
    while let Some(next) = step.next(Presence::File) {
        step = next;
        steps.push(step);
    }
    assert_eq!(
        steps,
        vec![
            WriteStep::CreateFolder,
            WriteStep::WriteTemporary,
            WriteStep::RemoveOld,
            WriteStep::Rename
        ]
    );
    assert_eq!(
        WriteStep::WriteTemporary.next(Presence::Missing),
        Some(WriteStep::Rename)
    );
    assert_eq!(
        WriteStep::first(&None).expect_err("no folder").text(),
        "The data file has no parent folder."
    );
    assert_eq!(WriteStep::CreateFolder.failure(), "Could not create a data folder");
    assert_eq!(WriteStep::WriteTemporary.failure(), "Could not write local installer data");
    assert_eq!(WriteStep::RemoveOld.failure(), "Could not replace local installer data");
    assert_eq!(
        WriteStep::Rename.failure(),
        "Could not finish writing local installer data"
    );
}

#[test]
fn the_environment_names_the_folders() {
    let path = |text: &str| Some(PathBuf::from(text));
    let named = RuntimeContext::from_environment(path("/d"), path("/c"), None);
    let named = match named {
        Ok(context) => context,
        Err(error) => panic!("{}", error.text()),
    };
    assert_eq!(
        named.data_dir,
        LocalPath::at(PathBuf::from("/d")).join("project-sunrise-launcher")
    );
    assert_eq!(
        app_cache_dir(&named).expect("cache"),
        LocalPath::at(PathBuf::from("/c")).join("project-sunrise-launcher")
    );
    let home = match RuntimeContext::from_environment(None, None, path("/h")) {
        Ok(context) => context,
        Err(error) => panic!("{}", error.text()),
    };
    assert_eq!(
        app_data_dir(&home).expect("data").names,
        vec![".local/share", "project-sunrise-launcher"]
    );
    assert_eq!(home.cache_dir.names, vec![".cache", "project-sunrise-launcher"]);
    let message = |result: Result<RuntimeContext, AppError>| match result {
        Ok(_) => panic!("no folder is known"),
        Err(error) => error.text(),
    };
    assert_eq!(
        message(RuntimeContext::from_environment(None, path("/c"), None)),
        "Could not determine the application data folder."
    );
    assert_eq!(
        message(RuntimeContext::from_environment(path("/d"), None, None)),
        "Could not determine the application cache folder."
    );
}
