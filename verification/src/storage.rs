//! The files that the launcher keeps, and what it finds in an installation folder.
use vstd::prelude::*;
use vstd::string::StringExecFns;
use crate::error;
use crate::error::{AppError, AppResult};
use crate::models;
use crate::models::{InstallationSnapshot, InstallerState, Presence};
use crate::paths;
use crate::paths::LocalPath;
use crate::runtime::RuntimeContext;
use crate::settings;
use crate::text;

verus! {

/// Tells where the launcher keeps its data.
pub trait AppPaths {
    fn data_dir(&self) -> AppResult<LocalPath>;

    fn cache_dir(&self) -> AppResult<LocalPath>;
}

impl AppPaths for RuntimeContext {
    fn data_dir(&self) -> (r: AppResult<LocalPath>)
        ensures
            r matches Ok(folder) && folder@ == self.data_dir@,
    {
        Ok(self.data_dir.clone())
    }

    fn cache_dir(&self) -> (r: AppResult<LocalPath>)
        ensures
            r matches Ok(folder) && folder@ == self.cache_dir@,
    {
        Ok(self.cache_dir.clone())
    }
}

/// The folder in which the launcher keeps its data.
pub fn app_data_dir<C: AppPaths>(context: &C) -> (r: AppResult<LocalPath>)
    ensures
        call_ensures(C::data_dir, (context,), r),
{
    context.data_dir()
}

/// The folder in which the launcher keeps what it can fetch again.
pub fn app_cache_dir<C: AppPaths>(context: &C) -> (r: AppResult<LocalPath>)
    ensures
        call_ensures(C::cache_dir, (context,), r),
{
    context.cache_dir()
}

/// The folder to install to unless another is chosen: the one that the launcher's executable is
/// in, where it is in one.
pub fn default_install_directory(executable_folder: Option<String>) -> (r: AppResult<String>)
    ensures
        match executable_folder {
            Some(folder) => r == AppResult::<String>::Ok(folder),
            None => r matches Err(error) && error::is_message(
                error,
                "The launcher executable has no parent folder."@,
            ),
        },
{
    match executable_folder {
        Some(folder) => Ok(folder),
        None => Err(AppError::message("The launcher executable has no parent folder.".to_owned())),
    }
}

/// Whether a folder holds an installation: the game, or the record of an installation. `game` is
/// what stands at the place of the game's executable and `state` what stands at [`state_path`].
pub fn is_existing_installation_directory(game: Presence, state: Presence) -> (r: bool)
    ensures
        r == (game == Presence::File || state == Presence::File),
{
    game.is_file() || state.is_file()
}

/// Where the user's preferences are kept.
pub fn preferences_path(data_dir: &LocalPath) -> (r: LocalPath)
    ensures
        r@ == paths::below(data_dir@, seq!["preferences.json"@]),
{
    data_dir.join("preferences.json")
}

/// Where an installation is recorded.
pub fn state_path(install_root: &LocalPath) -> (r: LocalPath)
    ensures
        r@ == paths::below(install_root@, seq![".sunrise"@, "install-state.json"@]),
{
    let r = install_root.join(".sunrise").join("install-state.json");
    assert(r@.names =~= install_root@.names + seq![".sunrise"@, "install-state.json"@]);
    r
}

/// Where the Sunrise DLL is installed; `relative_path` are the names that lead to it from the
/// installation folder.
pub fn mod_path(install_root: &LocalPath, relative_path: &Vec<String>) -> (r: LocalPath)
    ensures
        r@ == paths::below(install_root@, text::texts(relative_path@)),
{
    let mut r = install_root.clone();
    let mut i: usize = 0;
    assert(r@.names =~= install_root@.names + text::texts(relative_path@).take(0));
    while i < relative_path.len()
        invariant
            i <= relative_path.len(),
            r@ == paths::below(install_root@, text::texts(relative_path@).take(i as int)),
        decreases relative_path.len() - i,
    {
        let ghost names = text::texts(relative_path@);
        assert(names.take(i + 1) =~= names.take(i as int).push(relative_path@[i as int]@));
        r = r.join(relative_path[i].as_str());
        assert(r@.names =~= install_root@.names + names.take(i + 1));
        i = i + 1;
    }
    assert(text::texts(relative_path@).take(relative_path@.len() as int) =~= text::texts(
        relative_path@,
    ));
    r
}

/// Where Sunrise keeps its settings.
pub fn settings_path(install_root: &LocalPath) -> (r: LocalPath)
    ensures
        r@ == paths::below(install_root@, seq!["bin"@, "x64"@, "Sunrise"@, "settings.json"@]),
{
    let r = install_root.join("bin").join("x64").join("Sunrise").join("settings.json");
    assert(r@.names =~= install_root@.names + seq!["bin"@, "x64"@, "Sunrise"@, "settings.json"@]);
    r
}

/// The language that the record of an installation names, if it names one.
pub open spec fn recorded_language_of(state: Option<InstallerState>) -> Option<Seq<char>> {
    match state {
        Some(state) => models::text_view(state.steam_language),
        None => None,
    }
}

/// The recorded install language, then the settings.json language, else none.
pub open spec fn language_in_use(
    state: Option<InstallerState>,
    settings: Option<Seq<u8>>,
) -> Option<Seq<char>> {
    if recorded_language_of(state) is Some {
        recorded_language_of(state)
    } else {
        match settings {
            Some(bytes) => settings::file_language(bytes),
            None => None,
        }
    }
}

/// The recorded install language, if there is one.
pub fn recorded_language(state: &Option<InstallerState>) -> (r: Option<String>)
    ensures
        models::text_view(r) == recorded_language_of(*state),
{
    match state {
        Some(state) => match &state.steam_language {
            Some(language) => Some(language.clone()),
            None => None,
        },
        None => None,
    }
}

/// The recorded install language, then the settings.json language, else none. `settings` is what
/// the settings file holds, where it can be read.
pub fn installed_language(state: &Option<InstallerState>, settings: Option<&[u8]>) -> (r: Option<
    String,
>)
    ensures
        models::text_view(r) == language_in_use(*state, settings::bytes_view(settings)),
{
    match recorded_language(state) {
        Some(language) => Some(language),
        None => match settings {
            Some(bytes) => settings::settings_language(bytes),
            None => None,
        },
    }
}

/// What was found in an installation folder.
pub struct FolderFacts {
    /// What stands at the place of the game's executable.
    pub game: Presence,
    /// The record of the installation, if there is one.
    pub state: Option<InstallerState>,
    /// The language that the installation uses, if one is known.
    pub steam_language: Option<String>,
    /// The digest of the installed DLL, if there is a file at its place.
    pub dll_sha256: Option<String>,
}

/// What an inspection comes to.
pub enum Inspection {
    /// No folder was chosen; the message asks for one.
    NoFolder(String),
    /// What the launcher shows of the folder.
    Snapshot(InstallationSnapshot),
}

/// How an installation folder is: what the launcher calls it and what it says.
pub struct FolderStatus {
    pub status: Seq<char>,
    pub message: Seq<char>,
    pub changed: bool,
}

/// How an installation folder with these facts is.
pub open spec fn folder_status(facts: FolderFacts) -> FolderStatus {
    match facts.state {
        None => if facts.game == Presence::File {
            FolderStatus {
                status: "unmanaged"@,
                message: "Destiny 2 was found, but this launcher has not installed Sunrise here."@,
                changed: false,
            }
        } else {
            FolderStatus {
                status: "notInstalled"@,
                message: "No managed Sunrise installation was found in this folder."@,
                changed: false,
            }
        },
        Some(state) => match facts.dll_sha256 {
            None => FolderStatus {
                status: "needsRepair"@,
                message: "The Sunrise DLL is missing. Run Repair."@,
                changed: true,
            },
            Some(actual) => if text::same_ignoring_ascii_case(
                state.installed_dll_sha256@,
                actual@,
            ) {
                FolderStatus {
                    status: "installed"@,
                    message: "Sunrise is installed and ready."@,
                    changed: false,
                }
            } else {
                FolderStatus {
                    status: "modified"@,
                    message:
                        "The installed DLL differs from the recorded release. Run Repair or Update."@,
                    changed: true,
                }
            },
        },
    }
}

/// `snapshot` shows a folder with these facts.
pub open spec fn shows(snapshot: InstallationSnapshot, facts: FolderFacts) -> bool {
    let folder = folder_status(facts);
    &&& snapshot.status@ == folder.status
    &&& snapshot.message@ == folder.message
    &&& snapshot.local_file_changed == folder.changed
    &&& snapshot.game_found == (facts.game == Presence::File)
    &&& snapshot.steam_language == facts.steam_language
    &&& match facts.state {
        Some(state) => {
            &&& snapshot.installed_release == Some(state.release_tag)
            &&& snapshot.installed_release_digest == state.release_asset_digest
            &&& snapshot.installed_at == Some(state.installed_at_utc)
            &&& snapshot.missions_commit == state.missions_commit
        },
        None => {
            &&& snapshot.installed_release is None
            &&& snapshot.installed_release_digest is None
            &&& snapshot.installed_at is None
            &&& snapshot.missions_commit is None
        },
    }
}

/// The folder to inspect, if one was chosen: the text without white space around it.
pub fn inspected_folder(path: &str) -> (r: Option<String>)
    ensures
        match r {
            Some(folder) => folder@ == text::trimmed(path@) && folder@.len() > 0,
            None => text::trimmed(path@).len() == 0,
        },
{
    let folder = text::trim(path);
    if folder.is_empty() {
        None
    } else {
        Some(folder.to_owned())
    }
}

/// Whether the installed DLL has to be read: only a recorded installation has one.
pub fn needs_dll_digest(state: &Option<InstallerState>) -> (r: bool)
    ensures
        r == (state is Some),
{
    state.is_some()
}

/// What the launcher shows of the folder that `path` names, given what was found in it. Where no
/// folder was chosen, nothing is looked at.
pub fn inspect_installation(path: &str, facts: FolderFacts) -> (r: Inspection)
    ensures
        match r {
            Inspection::NoFolder(message) => {
                &&& text::trimmed(path@).len() == 0
                &&& message@ == "Choose an installation folder to get started."@
            },
            Inspection::Snapshot(snapshot) => {
                &&& text::trimmed(path@).len() > 0
                &&& shows(snapshot, facts)
            },
        },
{
    if inspected_folder(path).is_none() {
        return Inspection::NoFolder("Choose an installation folder to get started.".to_owned());
    }
    let game_found = facts.game.is_file();
    let state = match facts.state {
        Some(state) => state,
        None => return Inspection::Snapshot(
            InstallationSnapshot {
                status: if game_found {
                    "unmanaged".to_owned()
                } else {
                    "notInstalled".to_owned()
                },
                message: if game_found {
                    "Destiny 2 was found, but this launcher has not installed Sunrise here.".to_owned()
                } else {
                    "No managed Sunrise installation was found in this folder.".to_owned()
                },
                game_found,
                installed_release: None,
                installed_release_digest: None,
                installed_at: None,
                local_file_changed: false,
                steam_language: facts.steam_language,
                missions_commit: None,
            },
        ),
    };
    let (status, message, changed) = match facts.dll_sha256 {
        None => ("needsRepair", "The Sunrise DLL is missing. Run Repair.", true),
        Some(actual) => if text::eq_ignore_ascii_case(
            state.installed_dll_sha256.as_str(),
            actual.as_str(),
        ) {
            ("installed", "Sunrise is installed and ready.", false)
        } else {
            (
                "modified",
                "The installed DLL differs from the recorded release. Run Repair or Update.",
                true,
            )
        },
    };
    Inspection::Snapshot(
        InstallationSnapshot {
            status: status.to_owned(),
            message: message.to_owned(),
            game_found,
            installed_release: Some(state.release_tag),
            installed_release_digest: state.release_asset_digest,
            installed_at: Some(state.installed_at_utc),
            local_file_changed: changed,
            steam_language: facts.steam_language,
            missions_commit: state.missions_commit,
        },
    )
}

/// The name of the file that new contents are written to before they replace a file of this
/// name.
pub open spec fn temporary_file_name(file_name: Option<Seq<char>>, process_id: u32) -> Seq<char> {
    "."@ + (match file_name {
        Some(name) => name,
        None => "state"@,
    }) + "-"@ + text::decimal_digits(process_id as nat) + ".tmp"@
}

/// The name of the file that new contents are written to first. `process_id` keeps two launchers
/// apart.
pub fn temporary_name(file_name: Option<&str>, process_id: u32) -> (r: String)
    ensures
        r@ == temporary_file_name(text::str_view(file_name), process_id),
{
    let mut name = ".".to_owned();
    match file_name {
        Some(file_name) => {
            name.append(file_name);
        },
        None => {
            name.append("state");
        },
    }
    name.append("-");
    name.append(text::decimal(process_id as u64).as_str());
    name.append(".tmp");
    name
}

/// The steps in which a file is replaced, each after the one before it has succeeded.
#[derive(Clone, Copy, Debug, PartialEq, Eq, Structural)]
pub enum WriteStep {
    CreateFolder,
    WriteTemporary,
    RemoveOld,
    Rename,
}

/// The step after `step`, if there is one; `target` is what stands at the file's place.
pub open spec fn write_step_after(step: WriteStep, target: Presence) -> Option<WriteStep> {
    match step {
        WriteStep::CreateFolder => Some(WriteStep::WriteTemporary),
        WriteStep::WriteTemporary => if target == Presence::Missing {
            Some(WriteStep::Rename)
        } else {
            Some(WriteStep::RemoveOld)
        },
        WriteStep::RemoveOld => Some(WriteStep::Rename),
        WriteStep::Rename => None,
    }
}

/// What is said of a step that failed.
pub open spec fn write_step_words(step: WriteStep) -> Seq<char> {
    match step {
        WriteStep::CreateFolder => "Could not create a data folder"@,
        WriteStep::WriteTemporary => "Could not write local installer data"@,
        WriteStep::RemoveOld => "Could not replace local installer data"@,
        WriteStep::Rename => "Could not finish writing local installer data"@,
    }
}

impl WriteStep {
    /// The first step, where the file is in a folder.
    pub fn first(folder: &Option<LocalPath>) -> (r: AppResult<WriteStep>)
        ensures
            match folder {
                Some(_) => r == AppResult::<WriteStep>::Ok(WriteStep::CreateFolder),
                None => r matches Err(error) && error::is_message(
                    error,
                    "The data file has no parent folder."@,
                ),
            },
    {
        match folder {
            Some(_) => Ok(WriteStep::CreateFolder),
            None => Err(AppError::message("The data file has no parent folder.".to_owned())),
        }
    }

    /// The step after this one, if there is one; `target` is what stands at the file's place.
    pub fn next(self, target: Presence) -> (r: Option<WriteStep>)
        ensures
            r == write_step_after(self, target),
    {
        match self {
            WriteStep::CreateFolder => Some(WriteStep::WriteTemporary),
            WriteStep::WriteTemporary => if target.is_present() {
                Some(WriteStep::RemoveOld)
            } else {
                Some(WriteStep::Rename)
            },
            WriteStep::RemoveOld => Some(WriteStep::Rename),
            WriteStep::Rename => None,
        }
    }

    /// What is said when this step fails.
    pub fn failure(self) -> (r: &'static str)
        ensures
            r@ == write_step_words(self),
    {
        match self {
            WriteStep::CreateFolder => "Could not create a data folder",
            WriteStep::WriteTemporary => "Could not write local installer data",
            WriteStep::RemoveOld => "Could not replace local installer data",
            WriteStep::Rename => "Could not finish writing local installer data",
        }
    }
}

/// The contents of a file that is being replaced and of the temporary file beside it.
pub struct FileModel {
    pub target: Option<Seq<u8>>,
    pub temporary: Option<Seq<u8>>,
}

/// What a step that succeeds does to the two files.
pub open spec fn after_write_step(step: WriteStep, files: FileModel, contents: Seq<u8>) -> FileModel {
    match step {
        WriteStep::CreateFolder => files,
        WriteStep::WriteTemporary => FileModel { temporary: Some(contents), ..files },
        WriteStep::RemoveOld => FileModel { target: None, ..files },
        WriteStep::Rename => FileModel { target: files.temporary, temporary: None },
    }
}

/// The two files after `count` more steps that succeed, and the step that follows.
pub open spec fn run_write_steps(
    step: Option<WriteStep>,
    files: FileModel,
    contents: Seq<u8>,
    count: nat,
) -> (Option<WriteStep>, FileModel)
    decreases count,
{
    if count == 0 {
        (step, files)
    } else {
        match step {
            None => (step, files),
            Some(step) => {
                let after = after_write_step(step, files, contents);
                let target = if after.target is Some {
                    Presence::File
                } else {
                    Presence::Missing
                };
                run_write_steps(
                    write_step_after(step, target),
                    after,
                    contents,
                    (count - 1) as nat,
                )
            },
        }
    }
}

/// Wherever the replacement of a file stops, either the old file or all of the new contents are
/// there; when no step is left, the file holds the new contents and nothing is left beside it.
pub proof fn law_replacing_a_file_loses_nothing(files: FileModel, contents: Seq<u8>, count: nat)
    ensures
        ({
            let (next, after) = run_write_steps(
                Some(WriteStep::CreateFolder),
                files,
                contents,
                count,
            );
            &&& after.target == files.target || after.target == Some(contents) || after.temporary
                == Some(contents)
            &&& next is None ==> after.target == Some(contents) && after.temporary is None
            &&& count >= 4 ==> next is None
        }),
{
    reveal_with_fuel(run_write_steps, 6);
}

/// Digits are what they were of: different numbers have different decimal texts.
proof fn lemma_decimal_tells_numbers_apart(a: nat, b: nat)
    requires
        text::decimal_digits(a) == text::decimal_digits(b),
    ensures
        a == b,
    decreases a,
{
    let x = text::decimal_digits(a);
    let y = text::decimal_digits(b);
    lemma_decimal_is_not_empty(a / 10);
    lemma_decimal_is_not_empty(b / 10);
    assert(x.last() == text::digit(a % 10));
    assert(y.last() == text::digit(b % 10));
    if a >= 10 && b >= 10 {
        assert(x.drop_last() =~= text::decimal_digits(a / 10));
        assert(y.drop_last() =~= text::decimal_digits(b / 10));
        lemma_decimal_tells_numbers_apart(a / 10, b / 10);
    }
}

/// A number has at least one digit.
proof fn lemma_decimal_is_not_empty(n: nat)
    ensures
        text::decimal_digits(n).len() > 0,
{
}

/// The temporary file is never the file that it replaces.
pub proof fn law_the_temporary_file_is_another_file(file_name: Seq<char>, process_id: u32)
    ensures
        temporary_file_name(Some(file_name), process_id) != file_name,
{
    reveal_strlit(".");
    assert(temporary_file_name(Some(file_name), process_id).len() > file_name.len());
}

/// Two processes never share a temporary file for the same file.
pub proof fn law_processes_have_their_own_temporary_files(
    file_name: Option<Seq<char>>,
    one: u32,
    other: u32,
)
    requires
        temporary_file_name(file_name, one) == temporary_file_name(file_name, other),
    ensures
        one == other,
{
    let name = match file_name {
        Some(name) => name,
        None => "state"@,
    };
    let start = "."@ + name + "-"@;
    let end = ".tmp"@;
    let a = text::decimal_digits(one as nat);
    let b = text::decimal_digits(other as nat);
    assert((start + a + end).len() == (start + b + end).len());
    assert(a.len() == b.len());
    assert(a =~= (start + a + end).subrange(start.len() as int, (start.len() + a.len()) as int));
    assert(b =~= (start + b + end).subrange(start.len() as int, (start.len() + b.len()) as int));
    lemma_decimal_tells_numbers_apart(one as nat, other as nat);
}

/// A recorded language is used whatever the settings name; without one the language of the
/// settings is used.
pub proof fn law_the_recorded_language_comes_first(
    state: Option<InstallerState>,
    settings: Option<Seq<u8>>,
)
    ensures
        recorded_language_of(state) is Some ==> language_in_use(state, settings)
            == recorded_language_of(state),
        recorded_language_of(state) is None ==> language_in_use(state, settings) == (
        match settings {
            Some(bytes) => settings::file_language(bytes),
            None => None,
        }),
{
}

/// The launcher says that the local file changed where it asks for a repair, and nowhere else.
pub proof fn law_changed_files_ask_for_repair(facts: FolderFacts)
    ensures
        folder_status(facts).changed <==> folder_status(facts).status == "needsRepair"@
            || folder_status(facts).status == "modified"@,
        folder_status(facts).status == "installed"@ ==> facts.state is Some && facts.dll_sha256
            is Some && text::same_ignoring_ascii_case(
            facts.state->0.installed_dll_sha256@,
            facts.dll_sha256->0@,
        ),
        facts.state is None <==> folder_status(facts).status == "unmanaged"@ || folder_status(
            facts,
        ).status == "notInstalled"@,
{
    reveal_strlit("needsRepair");
    reveal_strlit("modified");
    reveal_strlit("installed");
    reveal_strlit("unmanaged");
    reveal_strlit("notInstalled");
    assert("installed"@[0] == 'i' && "unmanaged"@[0] == 'u' && "modified"@[0] == 'm');
    assert("needsRepair"@[1] == 'e' && "notInstalled"@[1] == 'o');
    assert("needsRepair"@.len() == 11 && "notInstalled"@.len() == 12);
}

} // verus!
