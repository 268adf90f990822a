//! Laws of folders and files.
use std::path::PathBuf;
use vstd::prelude::*;
use crate::error;
use crate::error::{AppError, AppResult};
use crate::missions;
use crate::missions::{FolderEntry, InstallNext, InstallStep, Removal};
use crate::models;
use crate::models::{InstallationSnapshot, InstallerState, Presence};
use crate::paths::LocalPath;
use crate::runtime::RuntimeContext;
use crate::settings;
use crate::storage;
use crate::storage::{AppPaths, FolderFacts, Inspection, WriteStep};
use crate::laws;
use crate::text;

verus! {

/// A folder that was chosen is shown, and where only white space was given one is asked for.
pub proof fn law_choosing_a_folder(
    path: &str,
    facts: FolderFacts,
    r: Inspection,
    folder: Option<String>,
    before: Seq<char>,
    middle: Seq<char>,
    after: Seq<char>,
)
    requires
        call_ensures(storage::inspect_installation, (path, facts), r),
        call_ensures(storage::inspected_folder, (path,), folder),
        path@ == before + middle + after,
        forall|i: int| 0 <= i < before.len() ==> text::is_space(#[trigger] before[i]),
        forall|i: int| 0 <= i < after.len() ==> text::is_space(#[trigger] after[i]),
        middle.len() > 0 ==> !text::is_space(middle.first()) && !text::is_space(middle.last()),
    ensures
        middle.len() == 0 ==> folder is None && (r matches Inspection::NoFolder(message) && message@
            == "Choose an installation folder to get started."@),
        middle.len() > 0 ==> (folder matches Some(name) && name@ == middle) && r is Snapshot,
{
    laws::text::lemma_trimmed_middle(before, middle, after);
}

/// What is shown of a folder. Without a record it is unmanaged if the game is there and not
/// installed otherwise. With a record and no DLL it needs repair. With a record and a DLL it is
/// installed exactly if the recorded digest of the DLL and that of the file differ in ASCII case at
/// most, and modified otherwise; nothing else of the record decides.
pub proof fn law_inspecting_a_folder(
    path: &str,
    facts: FolderFacts,
    snapshot: InstallationSnapshot,
)
    requires
        call_ensures(
            storage::inspect_installation,
            (path, facts),
            Inspection::Snapshot(snapshot),
        ),
    ensures
        snapshot.game_found <==> facts.game == Presence::File,
        snapshot.steam_language == facts.steam_language,
        facts.state is None && facts.game == Presence::File ==> snapshot.status@ == "unmanaged"@
            && snapshot.message@
            == "Destiny 2 was found, but this launcher has not installed Sunrise here."@,
        facts.state is None && facts.game != Presence::File ==> snapshot.status@ == "notInstalled"@
            && snapshot.message@ == "No managed Sunrise installation was found in this folder."@,
        facts.state is None ==> !snapshot.local_file_changed && snapshot.installed_release is None
            && snapshot.installed_release_digest is None && snapshot.installed_at is None
            && snapshot.missions_commit is None,
        facts.state matches Some(state) ==> snapshot.installed_release == Some(state.release_tag)
            && snapshot.installed_release_digest == state.release_asset_digest
            && snapshot.installed_at == Some(state.installed_at_utc) && snapshot.missions_commit
            == state.missions_commit,
        facts.state is Some && facts.dll_sha256 is None ==> snapshot.status@ == "needsRepair"@
            && snapshot.message@ == "The Sunrise DLL is missing. Run Repair."@
            && snapshot.local_file_changed,
        facts.state matches Some(state) ==> (facts.dll_sha256 matches Some(actual) ==> {
            let is_same = text::same_ignoring_ascii_case(state.installed_dll_sha256@, actual@);
            &&& is_same ==> snapshot.status@ == "installed"@ && snapshot.message@
                == "Sunrise is installed and ready."@ && !snapshot.local_file_changed
            &&& !is_same ==> snapshot.status@ == "modified"@ && snapshot.message@
                == "The installed DLL differs from the recorded release. Run Repair or Update."@
                && snapshot.local_file_changed
            &&& snapshot.status@ == "installed"@ <==> is_same
        }),
{
    reveal_strlit("installed");
    reveal_strlit("modified");
    assert("installed"@.len() != "modified"@.len());
}

/// Two folders with the same digests are told the same of, whatever else their records hold.
pub proof fn law_only_the_digests_decide(
    path: &str,
    facts: FolderFacts,
    other_facts: FolderFacts,
    snapshot: InstallationSnapshot,
    other: InstallationSnapshot,
)
    requires
        call_ensures(
            storage::inspect_installation,
            (path, facts),
            Inspection::Snapshot(snapshot),
        ),
        call_ensures(
            storage::inspect_installation,
            (path, other_facts),
            Inspection::Snapshot(other),
        ),
        facts.state matches Some(a) && (other_facts.state matches Some(b)
            && a.installed_dll_sha256@ == b.installed_dll_sha256@),
        models::text_view(facts.dll_sha256) == models::text_view(other_facts.dll_sha256),
    ensures
        snapshot.status@ == other.status@,
        snapshot.message@ == other.message@,
        snapshot.local_file_changed == other.local_file_changed,
{
}

/// The DLL is looked at exactly if there is a record.
pub proof fn law_looking_at_the_dll(state: Option<InstallerState>, r: bool)
    requires
        call_ensures(storage::needs_dll_digest, (&state,), r),
    ensures
        r <==> state is Some,
{
}

/// A folder holds an installation exactly if the game or the record is a file.
pub proof fn law_existing_installations(game: Presence, state: Presence, r: bool)
    requires
        call_ensures(storage::is_existing_installation_directory, (game, state), r),
    ensures
        game == Presence::File || state == Presence::File ==> r,
        game != Presence::File && state != Presence::File ==> !r,
{
}

/// The folder of the executable is the default, where there is one.
pub proof fn law_the_default_folder(folder: Option<String>, r: AppResult<String>)
    requires
        call_ensures(storage::default_install_directory, (folder,), r),
    ensures
        folder matches Some(folder) ==> (r matches Ok(found) && found@ == folder@),
        folder is None ==> (r matches Err(error) && error::is_message(
            error,
            "The launcher executable has no parent folder."@,
        )),
{
}

/// The language is the recorded one where there is one, whatever the settings say. Otherwise it is
/// that of the settings file, where there is a file and it names one.
pub proof fn law_the_language(
    state: Option<InstallerState>,
    bytes: Option<&[u8]>,
    recorded: Option<String>,
    in_use: Option<String>,
    in_settings: Option<String>,
)
    requires
        call_ensures(storage::recorded_language, (&state,), recorded),
        call_ensures(storage::installed_language, (&state, bytes), in_use),
        bytes matches Some(bytes) ==> call_ensures(
            settings::settings_language,
            (bytes,),
            in_settings,
        ),
    ensures
        (state matches Some(record) && record.steam_language is Some) ==> models::text_view(recorded)
            == models::text_view(state->0.steam_language) && models::text_view(in_use)
            == models::text_view(state->0.steam_language),
        !(state matches Some(record) && record.steam_language is Some) ==> recorded is None && (
        bytes is Some ==> models::text_view(in_use) == models::text_view(in_settings)) && (
        bytes is None ==> in_use is None),
{
}

/// The places of the launcher's files below its folders.
pub proof fn law_places(
    root: LocalPath,
    dll: Vec<String>,
    preferences: LocalPath,
    state: LocalPath,
    module: LocalPath,
    settings_file: LocalPath,
    scripts: LocalPath,
    git: LocalPath,
)
    requires
        call_ensures(storage::preferences_path, (&root,), preferences),
        call_ensures(storage::state_path, (&root,), state),
        call_ensures(storage::mod_path, (&root, &dll), module),
        call_ensures(storage::settings_path, (&root,), settings_file),
        call_ensures(missions::scripts_path, (&root,), scripts),
        call_ensures(missions::git_path, (&root,), git),
    ensures
        preferences@.base == root@.base && preferences@.names == root@.names
            + seq!["preferences.json"@],
        state@.base == root@.base && state@.names == root@.names
            + seq![".sunrise"@, "install-state.json"@],
        module@.base == root@.base && module@.names.len() == root@.names.len() + dll@.len(),
        forall|i: int|
            0 <= i < root@.names.len() ==> #[trigger] module@.names[i] == root@.names[i],
        forall|i: int|
            0 <= i < dll@.len() ==> module@.names[root@.names.len() + i] == #[trigger] dll@[i]@,
        settings_file@.base == root@.base && settings_file@.names == root@.names
            + seq!["bin"@, "x64"@, "Sunrise"@, "settings.json"@],
        scripts@.base == root@.base && scripts@.names == root@.names
            + seq!["bin"@, "x64"@, "Sunrise"@, "scripts"@],
        git@.base == root@.base && git@.names == root@.names
            + seq!["bin"@, "x64"@, "Sunrise"@, "scripts"@, ".git"@],
{
    assert forall|i: int| 0 <= i < dll@.len() implies module@.names[root@.names.len() + i]
        == #[trigger] dll@[i]@ by {
        assert(text::texts(dll@)[i] == dll@[i]@);
    }
}

/// A place that is joined to a folder has the folder as its parent and the name as its own; a base
/// has neither.
pub proof fn law_joining(
    base: PathBuf,
    at: LocalPath,
    folder: LocalPath,
    name: &str,
    place: LocalPath,
    parent: Option<LocalPath>,
    own: Option<String>,
    no_parent: Option<LocalPath>,
    no_name: Option<String>,
)
    requires
        call_ensures(LocalPath::at, (base,), at),
        call_ensures(LocalPath::join, (&folder, name), place),
        call_ensures(LocalPath::parent, (&place,), parent),
        call_ensures(LocalPath::file_name, (&place,), own),
        call_ensures(LocalPath::parent, (&at,), no_parent),
        call_ensures(LocalPath::file_name, (&at,), no_name),
    ensures
        at@.base == base && at@.names.len() == 0,
        place@.base == folder@.base && place@.names == folder@.names.push(name@),
        parent matches Some(found) && found@ == folder@,
        own matches Some(found) && found@ == name@,
        no_parent is None && no_name is None,
{
    assert(place@.names =~= folder@.names.push(name@));
    assert(place@.names.drop_last() =~= folder@.names);
}

/// The temporary file of a file is named after it and the process.
pub proof fn law_temporary_files(name: Option<&str>, process: u32, r: String)
    requires
        call_ensures(storage::temporary_name, (name, process), r),
    ensures
        name matches Some(name) ==> r@ == "."@ + name@ + "-"@ + text::decimal_digits(
            process as nat,
        ) + ".tmp"@,
        name is None ==> r@ == "."@ + "state"@ + "-"@ + text::decimal_digits(process as nat)
            + ".tmp"@,
{
}

/// A file in a folder is replaced: the folder is created, the new contents are written beside the
/// file, the file is removed exactly if there is anything in its place, and the new one is renamed.
pub proof fn law_replacing_a_file(
    folder: Option<LocalPath>,
    target: Presence,
    first: AppResult<WriteStep>,
    after_folder: Option<WriteStep>,
    after_write: Option<WriteStep>,
    after_removal: Option<WriteStep>,
    after_rename: Option<WriteStep>,
)
    requires
        call_ensures(WriteStep::first, (&folder,), first),
        call_ensures(WriteStep::next, (WriteStep::CreateFolder, target), after_folder),
        call_ensures(WriteStep::next, (WriteStep::WriteTemporary, target), after_write),
        call_ensures(WriteStep::next, (WriteStep::RemoveOld, target), after_removal),
        call_ensures(WriteStep::next, (WriteStep::Rename, target), after_rename),
    ensures
        folder is Some ==> (first matches Ok(step) && step == WriteStep::CreateFolder),
        folder is None ==> (first matches Err(error) && error::is_message(
            error,
            "The data file has no parent folder."@,
        )),
        after_folder == Some(WriteStep::WriteTemporary),
        target == Presence::Missing ==> after_write == Some(WriteStep::Rename),
        target != Presence::Missing ==> after_write == Some(WriteStep::RemoveOld),
        after_removal == Some(WriteStep::Rename),
        after_rename is None,
{
}

/// Each step says what could not be done.
pub proof fn law_what_could_not_be_written(step: WriteStep, r: &'static str)
    requires
        call_ensures(WriteStep::failure, (step,), r),
    ensures
        step == WriteStep::CreateFolder ==> r@ == "Could not create a data folder"@,
        step == WriteStep::WriteTemporary ==> r@ == "Could not write local installer data"@,
        step == WriteStep::RemoveOld ==> r@ == "Could not replace local installer data"@,
        step == WriteStep::Rename ==> r@ == "Could not finish writing local installer data"@,
{
}

/// A scripts folder in which anything is called .git is a checkout, which is never replaced.
pub proof fn law_checkouts(git: Presence, r: bool, first: AppResult<InstallStep>)
    requires
        call_ensures(missions::is_git_checkout, (git,), r),
        call_ensures(InstallStep::first, (git,), first),
    ensures
        r <==> git != Presence::Missing,
        !r ==> (first matches Ok(step) && step == InstallStep::FetchCommit),
        r ==> (first matches Err(error) && error::is_message(
            error,
            "The scripts folder is a git checkout. Update it with git instead."@,
        )),
{
}

/// An archive has a root exactly if it holds one thing and that is a folder.
pub proof fn law_archive_roots(entries: Vec<FolderEntry>, r: AppResult<PathBuf>)
    requires
        call_ensures(missions::archive_root, (&entries,), r),
    ensures
        entries@.len() == 1 && entries@[0].kind == Presence::Folder ==> (r matches Ok(path) && path
            == entries@[0].path),
        entries@.len() != 1 || entries@[0].kind != Presence::Folder ==> (r matches Err(error)
            && error::is_message(
            error,
            "The missions archive does not have the expected layout."@,
        )),
{
}

/// The name of an entry starts with a dot.
pub open spec fn starts_with_dot(entry: FolderEntry) -> bool {
    entry.name@.len() > 0 && entry.name@[0] as int == 46
}

/// `removal` removes `entry`, whose name starts with a dot: a folder as a folder and anything else
/// as a file.
pub open spec fn removes(removal: Removal, entry: FolderEntry) -> bool {
    starts_with_dot(entry) && removal.path == entry.path && removal.is_folder == (entry.kind
        == Presence::Folder)
}

/// `removal` removes one of `entries`.
pub open spec fn removes_one(removal: Removal, entries: Seq<FolderEntry>) -> bool {
    exists|i: int| 0 <= i < entries.len() && removes(removal, #[trigger] entries[i])
}

/// What is removed: each entry whose name starts with a dot, and nothing else.
pub proof fn law_removals(entries: Vec<FolderEntry>, r: Vec<Removal>)
    requires
        call_ensures(missions::remove_dot_entries, (&entries,), r),
    ensures
        forall|i: int|
            0 <= i < entries@.len() && #[trigger] starts_with_dot(entries@[i]) ==> exists|j: int|
                0 <= j < r@.len() && #[trigger] removes(r@[j], entries@[i]),
        forall|j: int| 0 <= j < r@.len() ==> removes_one(#[trigger] r@[j], entries@),
        r@.len() <= entries@.len(),
        (forall|i: int| 0 <= i < entries@.len() ==> starts_with_dot(#[trigger] entries@[i]))
            ==> r@.len() == entries@.len(),
{
    let dots = missions::dot_entries(entries@);
    lemma_dot_entries(entries@);
    assert(r@ == dots.map_values(|entry: FolderEntry| missions::removal_of(entry)));
    assert forall|i: int| 0 <= i < entries@.len() && #[trigger] starts_with_dot(entries@[i]) implies
        exists|j: int| 0 <= j < r@.len() && #[trigger] removes(r@[j], entries@[i]) by {
        missions::law_only_dot_entries_are_removed(entries@, entries@[i]);
        assert(entries@.contains(entries@[i]));
        let j = choose|j: int| 0 <= j < dots.len() && dots[j] == entries@[i];
        assert(r@[j] == missions::removal_of(dots[j]));
        assert(removes(r@[j], entries@[i]));
    }
    assert forall|j: int| 0 <= j < r@.len() implies removes_one(#[trigger] r@[j], entries@) by {
        assert(r@[j] == missions::removal_of(dots[j]));
        missions::law_only_dot_entries_are_removed(entries@, dots[j]);
        assert(dots.contains(dots[j]));
        let i = choose|i: int| 0 <= i < entries@.len() && entries@[i] == dots[j];
        assert(removes(r@[j], entries@[i]));
    }
}

/// Entries are removed in the order in which they come: a list that is cut in two gives the
/// removals of its two parts.
pub proof fn law_removals_are_in_order(a: Seq<FolderEntry>, b: Seq<FolderEntry>)
    ensures
        missions::dot_entries(a + b) == missions::dot_entries(a) + missions::dot_entries(b),
    decreases b.len(),
{
    if b.len() == 0 {
        assert(a + b =~= a);
        assert(missions::dot_entries(a) + missions::dot_entries(b) =~= missions::dot_entries(a));
    } else {
        assert((a + b).drop_last() =~= a + b.drop_last());
        assert((a + b).last() == b.last());
        law_removals_are_in_order(a, b.drop_last());
        assert((missions::dot_entries(a) + missions::dot_entries(b.drop_last())).push(b.last())
            =~= missions::dot_entries(a) + missions::dot_entries(b.drop_last()).push(b.last()));
    }
}

/// How many entries start with a dot.
proof fn lemma_dot_entries(entries: Seq<FolderEntry>)
    ensures
        missions::dot_entries(entries).len() <= entries.len(),
        (forall|i: int| 0 <= i < entries.len() ==> starts_with_dot(#[trigger] entries[i]))
            ==> missions::dot_entries(entries).len() == entries.len(),
    decreases entries.len(),
{
    if entries.len() > 0 {
        let start = entries.drop_last();
        lemma_dot_entries(start);
        if forall|i: int| 0 <= i < entries.len() ==> starts_with_dot(#[trigger] entries[i]) {
            assert forall|i: int| 0 <= i < start.len() implies starts_with_dot(
                #[trigger] start[i],
            ) by {
                assert(start[i] == entries[i]);
            }
            assert(starts_with_dot(entries[entries.len() - 1]));
        }
    }
}

/// The step that follows `step` where it succeeds, but for what depends on the folders.
pub open spec fn successor(step: InstallStep) -> InstallNext {
    match step {
        InstallStep::FetchCommit => InstallNext::Run(InstallStep::CreateFolder),
        InstallStep::CreateFolder => InstallNext::Run(InstallStep::CreateStaging),
        InstallStep::CreateStaging => InstallNext::Run(InstallStep::DownloadArchive),
        InstallStep::DownloadArchive => InstallNext::Run(InstallStep::ExtractArchive),
        InstallStep::ExtractArchive => InstallNext::Run(InstallStep::FindRoot),
        InstallStep::FindRoot => InstallNext::Run(InstallStep::RemoveDotEntries),
        _ => InstallNext::Run(InstallStep::MoveIn),
    }
}

/// The steps of an installation follow each other as they must: the scripts are moved aside exactly
/// if anything is in their place, put back exactly if the new ones cannot be moved in and something
/// was moved aside, and the staging folder is removed at the end if there is one. Only scripts that
/// were moved in are installed.
pub proof fn law_installing(
    step: InstallStep,
    occupied: Presence,
    good: InstallNext,
    bad: InstallNext,
)
    requires
        call_ensures(InstallStep::next, (step, true, occupied), good),
        call_ensures(InstallStep::next, (step, false, occupied), bad),
    ensures
        ({
            let undone = InstallNext::Run(InstallStep::RemoveStaging { installed: false });
            let is_early = step is FetchCommit || step is CreateFolder || step is CreateStaging;
            &&& is_early || step is DownloadArchive || step is ExtractArchive || step is FindRoot
                || step is MoveAside ==> good == successor(step)
            &&& step is RemoveDotEntries && occupied == Presence::Missing ==> good
                == InstallNext::Run(InstallStep::MoveIn)
            &&& step is RemoveDotEntries && occupied != Presence::Missing ==> good
                == InstallNext::Run(InstallStep::MoveAside)
            &&& step is MoveIn ==> good == InstallNext::Run(
                InstallStep::RemoveStaging { installed: true },
            )
            &&& step is Restore ==> good == undone && bad == undone
            &&& is_early ==> bad == InstallNext::Failed
            &&& step is DownloadArchive || step is ExtractArchive || step is FindRoot || step
                is RemoveDotEntries || step is MoveAside ==> bad == undone
            &&& step is MoveIn && occupied != Presence::Missing ==> bad == InstallNext::Run(
                InstallStep::Restore,
            )
            &&& step is MoveIn && occupied == Presence::Missing ==> bad == undone
            &&& step matches InstallStep::RemoveStaging { installed } ==> good == bad && (
            if installed {
                good == InstallNext::Installed
            } else {
                good == InstallNext::Failed
            })
        }),
{
}

/// Each step that works on files says what could not be done.
pub proof fn law_what_could_not_be_installed(step: InstallStep, r: Option<&'static str>)
    requires
        call_ensures(InstallStep::failure, (step,), r),
    ensures
        step is CreateFolder ==> (r matches Some(words) && words@
            == "Could not create the Sunrise folder"@),
        step is CreateStaging ==> (r matches Some(words) && words@
            == "Could not create a temporary missions folder"@),
        step is FindRoot ==> (r matches Some(words) && words@
            == "Could not read the missions archive"@),
        step is RemoveDotEntries ==> (r matches Some(words) && words@
            == "Could not prepare the mission scripts"@),
        step is MoveAside ==> (r matches Some(words) && words@
            == "Could not replace the scripts folder; close Destiny 2 and any program using it"@),
        step is MoveIn ==> (r matches Some(words) && words@
            == "Could not install the mission scripts"@),
        step is FetchCommit || step is DownloadArchive || step is ExtractArchive || step is Restore
            || step is RemoveStaging ==> r is None,
{
}

/// The launcher's folders are below those that the environment names for data and for what can be
/// fetched again, or below the home folder; without any of them there is an error.
pub proof fn law_the_environment(
    data: Option<PathBuf>,
    cache: Option<PathBuf>,
    home: Option<PathBuf>,
    r: AppResult<RuntimeContext>,
)
    requires
        call_ensures(RuntimeContext::from_environment, (data, cache, home), r),
    ensures
        r is Ok <==> home is Some || data is Some && cache is Some,
        r matches Ok(context) ==> {
            &&& data matches Some(folder) ==> context.data_dir@.base == folder
                && context.data_dir@.names == seq!["project-sunrise-launcher"@]
            &&& data is None ==> context.data_dir@.base == home->0 && context.data_dir@.names
                == seq![".local/share"@, "project-sunrise-launcher"@]
            &&& cache matches Some(folder) ==> context.cache_dir@.base == folder
                && context.cache_dir@.names == seq!["project-sunrise-launcher"@]
            &&& cache is None ==> context.cache_dir@.base == home->0 && context.cache_dir@.names
                == seq![".cache"@, "project-sunrise-launcher"@]
        },
        r matches Err(error) ==> error::is_message(
            error,
            if data is None {
                "Could not determine the application data folder."@
            } else {
                "Could not determine the application cache folder."@
            },
        ),
{
}

/// An error reads as its message, or as what was being done and how its source reads.
pub proof fn law_errors(error: AppError, r: String)
    requires
        call_ensures(AppError::text, (&error,), r),
    ensures
        error matches AppError::Message(message) ==> r@ == message@,
        error is Cancelled ==> r@ == "The operation was cancelled."@,
        error matches AppError::Io { context, source } ==> exists|words: String|
            vstd::string::to_string_from_display_ensures(&source, words) && r@ == context@ + ": "@
                + words@,
        error matches AppError::Network(source) ==> exists|words: String|
            vstd::string::to_string_from_display_ensures(&source, words) && r@
                == "GitHub could not be reached. Check your connection and try again: "@ + words@,
        error matches AppError::Archive(source) ==> exists|words: String|
            vstd::string::to_string_from_display_ensures(&source, words) && r@
                == "A downloaded archive could not be read: "@ + words@,
        error matches AppError::Json(source) ==> exists|words: String|
            vstd::string::to_string_from_display_ensures(&source, words) && r@
                == "Local installer data is invalid: "@ + words@,
{
    let words = choose|words: String|
        #[trigger] error::is_source_text(error, words) && r@ == error::error_text(error, words@);
    assert(error::is_source_text(error, words));
}

/// The view of a place is its base and its names.
pub proof fn law_views_of_places(place: LocalPath, i: int)
    requires
        0 <= i < place.names@.len(),
    ensures
        place@.base == place.base,
        place@.names.len() == place.names@.len(),
        place@.names[i] == place.names@[i]@,
{
}

/// The folders of a context are those that it was made with.
pub proof fn law_contexts(
    data: LocalPath,
    cache: LocalPath,
    context: RuntimeContext,
    data_dir: AppResult<LocalPath>,
    cache_dir: AppResult<LocalPath>,
)
    requires
        call_ensures(RuntimeContext::new, (data, cache), context),
        call_ensures(<RuntimeContext as AppPaths>::data_dir, (&context,), data_dir),
        call_ensures(<RuntimeContext as AppPaths>::cache_dir, (&context,), cache_dir),
    ensures
        data_dir matches Ok(folder) && folder@ == data@,
        cache_dir matches Ok(folder) && folder@ == cache@,
{
}

/// What stands at a place is one of these, and each is told from the others.
pub proof fn law_presence(presence: Presence, is_present: bool, is_file: bool, is_dir: bool)
    requires
        call_ensures(Presence::is_present, (presence,), is_present),
        call_ensures(Presence::is_file, (presence,), is_file),
        call_ensures(Presence::is_dir, (presence,), is_dir),
    ensures
        is_file <==> presence is File,
        is_dir <==> presence is Folder,
        is_present <==> presence is File || presence is Folder || presence is Other,
{
}

/// An error that is made of a text is a message with that text, and of no other; an error of the
/// file system keeps what was being done and its source.
pub proof fn law_making_errors(
    value: String,
    message: AppError,
    context: &'static str,
    source: std::io::Error,
    io: AppError,
    text: Seq<char>,
)
    requires
        call_ensures(AppError::message, (value,), message),
        call_ensures(AppError::io, (context, source), io),
    ensures
        error::is_message(message, text) <==> value@ == text,
        io == (AppError::Io { context, source }),
        !error::is_message(io, text),
{
}

/// An error that is a message reads as the message.
pub proof fn law_messages_read_as_written(error: AppError, text: Seq<char>, r: String)
    requires
        error::is_message(error, text),
        call_ensures(AppError::text, (&error,), r),
    ensures
        r@ == text,
{
    law_errors(error, r);
}

} // verus!
