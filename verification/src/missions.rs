//! Installing the mission scripts.
use std::path::PathBuf;
use vstd::prelude::*;
use crate::error;
use crate::error::{AppError, AppResult};
use crate::models::Presence;
use crate::paths;
use crate::paths::LocalPath;
use crate::text;

verus! {

/// The repository of the mission scripts.
pub const OWNER: &'static str = "stanuwu";

pub const REPOSITORY: &'static str = "SunriseMissions";

pub const BRANCH: &'static str = "main";

/// Where Sunrise keeps the mission scripts.
pub fn scripts_path(install_root: &LocalPath) -> (r: LocalPath)
    ensures
        r@ == paths::below(install_root@, seq!["bin"@, "x64"@, "Sunrise"@, "scripts"@]),
{
    let r = install_root.join("bin").join("x64").join("Sunrise").join("scripts");
    assert(r@.names =~= install_root@.names + seq!["bin"@, "x64"@, "Sunrise"@, "scripts"@]);
    r
}

/// Where git keeps its own data, if the scripts folder is a checkout.
pub fn git_path(install_root: &LocalPath) -> (r: LocalPath)
    ensures
        r@ == paths::below(install_root@, seq!["bin"@, "x64"@, "Sunrise"@, "scripts"@, ".git"@]),
{
    let r = scripts_path(install_root).join(".git");
    assert(r@.names =~= install_root@.names + seq![
        "bin"@,
        "x64"@,
        "Sunrise"@,
        "scripts"@,
        ".git"@,
    ]);
    r
}

/// Whether the scripts folder is a git checkout; `git` is what stands at [`git_path`].
/// A git checkout is managed by git; replacing it would drop its history and local work.
pub fn is_git_checkout(git: Presence) -> (r: bool)
    ensures
        r == (git != Presence::Missing),
{
    git.is_present()
}

/// Something in a folder: where it is, what it is called and what it is.
pub struct FolderEntry {
    pub path: PathBuf,
    pub name: String,
    pub kind: Presence,
}

/// Something to be removed: a folder with all that is in it, or a file.
pub struct Removal {
    pub path: PathBuf,
    pub is_folder: bool,
}

/// The folder that an archive holds, given what is at the top of the archive. GitHub source
/// archives hold one top-level folder named after the repository and commit.
pub fn archive_root(entries: &Vec<FolderEntry>) -> (r: AppResult<PathBuf>)
    ensures
        if entries@.len() == 1 && entries@[0].kind == Presence::Folder {
            r == AppResult::<PathBuf>::Ok(entries@[0].path)
        } else {
            r matches Err(error) && error::is_message(
                error,
                "The missions archive does not have the expected layout."@,
            )
        },
{
    if entries.len() == 1 && entries[0].kind.is_dir() {
        return Ok(entries[0].path.clone());
    }
    Err(AppError::message("The missions archive does not have the expected layout.".to_owned()))
}

/// An entry whose name starts with a dot.
pub open spec fn is_dot_entry(entry: FolderEntry) -> bool {
    entry.name@.len() > 0 && entry.name@[0] == '.'
}

/// The entries whose names start with a dot, in order.
pub open spec fn dot_entries(entries: Seq<FolderEntry>) -> Seq<FolderEntry>
    decreases entries.len(),
{
    if entries.len() == 0 {
        seq![]
    } else if is_dot_entry(entries.last()) {
        dot_entries(entries.drop_last()).push(entries.last())
    } else {
        dot_entries(entries.drop_last())
    }
}

/// How an entry is removed.
pub open spec fn removal_of(entry: FolderEntry) -> Removal {
    Removal { path: entry.path, is_folder: entry.kind == Presence::Folder }
}

/// What is to be removed from the scripts before they are installed: repository files such as
/// .gitattributes are not scripts.
pub fn remove_dot_entries(entries: &Vec<FolderEntry>) -> (r: Vec<Removal>)
    ensures
        r@ == dot_entries(entries@).map_values(|entry: FolderEntry| removal_of(entry)),
{
    proof {
        reveal_strlit(".");
        assert("."@ =~= seq!['.']);
    }
    let mut r: Vec<Removal> = Vec::new();
    let mut i: usize = 0;
    assert(r@ =~= dot_entries(entries@.take(0)).map_values(|entry: FolderEntry| removal_of(entry)));
    while i < entries.len()
        invariant
            i <= entries.len(),
            "."@ == seq!['.'],
            r@ == dot_entries(entries@.take(i as int)).map_values(
                |entry: FolderEntry| removal_of(entry),
            ),
        decreases entries.len() - i,
    {
        let ghost start = entries@.take(i + 1);
        assert(start.drop_last() =~= entries@.take(i as int));
        assert(start.last() == entries@[i as int]);
        let entry = &entries[i];
        if text::starts_with(entry.name.as_str(), ".") {
            assert(entry.name@.subrange(0, 1)[0] == '.');
            r.push(Removal { path: entry.path.clone(), is_folder: entry.kind.is_dir() });
        } else {
            assert(!is_dot_entry(*entry)) by {
                if is_dot_entry(*entry) {
                    assert(entry.name@.subrange(0, 1) =~= seq!['.']);
                }
            }
        }
        assert(r@ =~= dot_entries(start).map_values(|entry: FolderEntry| removal_of(entry)));
        i = i + 1;
    }
    assert(entries@.take(entries@.len() as int) =~= entries@);
    r
}

/// The steps in which the scripts folder is replaced.
#[derive(Clone, Copy, Debug, PartialEq, Eq, Structural)]
pub enum InstallStep {
    /// Ask GitHub for the latest commit.
    FetchCommit,
    /// Create the folder that the scripts folder is in.
    CreateFolder,
    /// Create a folder beside the scripts folder, so that the final swap is a rename on one
    /// volume.
    CreateStaging,
    /// Download the archive of the commit.
    DownloadArchive,
    /// Extract the archive.
    ExtractArchive,
    /// Find the folder that the archive holds.
    FindRoot,
    /// Remove the repository's own files from it.
    RemoveDotEntries,
    /// Rename the present scripts folder into the staging folder.
    MoveAside,
    /// Rename the new folder to the scripts folder.
    MoveIn,
    /// Rename the scripts folder that was moved aside back to where it was.
    Restore,
    /// Remove the staging folder with all that is left in it. `installed` tells whether the scripts
    /// are installed.
    RemoveStaging { installed: bool },
}

/// What follows a step.
#[derive(Clone, Copy, Debug, PartialEq, Eq, Structural)]
pub enum InstallNext {
    Run(InstallStep),
    /// The scripts are installed.
    Installed,
    /// The scripts are not installed; the error is that of the first step that failed.
    Failed,
}

/// What follows a step. `occupied` is what stands at the scripts folder's place after
/// `RemoveDotEntries`, and at the place that it was moved aside to after `MoveIn` failed. Once
/// there is a staging folder, it is removed before the end; that it can be removed does not matter
/// to what the replacement comes to.
pub open spec fn install_step_after(
    step: InstallStep,
    succeeded: bool,
    occupied: Presence,
) -> InstallNext {
    if let InstallStep::RemoveStaging { installed } = step {
        if installed {
            InstallNext::Installed
        } else {
            InstallNext::Failed
        }
    } else if succeeded {
        match step {
            InstallStep::FetchCommit => InstallNext::Run(InstallStep::CreateFolder),
            InstallStep::CreateFolder => InstallNext::Run(InstallStep::CreateStaging),
            InstallStep::CreateStaging => InstallNext::Run(InstallStep::DownloadArchive),
            InstallStep::DownloadArchive => InstallNext::Run(InstallStep::ExtractArchive),
            InstallStep::ExtractArchive => InstallNext::Run(InstallStep::FindRoot),
            InstallStep::FindRoot => InstallNext::Run(InstallStep::RemoveDotEntries),
            InstallStep::RemoveDotEntries => if occupied == Presence::Missing {
                InstallNext::Run(InstallStep::MoveIn)
            } else {
                InstallNext::Run(InstallStep::MoveAside)
            },
            InstallStep::MoveAside => InstallNext::Run(InstallStep::MoveIn),
            InstallStep::MoveIn => InstallNext::Run(
                InstallStep::RemoveStaging { installed: true },
            ),
            _ => InstallNext::Run(InstallStep::RemoveStaging { installed: false }),
        }
    } else if step == InstallStep::FetchCommit || step == InstallStep::CreateFolder || step
        == InstallStep::CreateStaging {
        InstallNext::Failed
    } else if step == InstallStep::MoveIn && occupied != Presence::Missing {
        InstallNext::Run(InstallStep::Restore)
    } else {
        InstallNext::Run(InstallStep::RemoveStaging { installed: false })
    }
}

/// What is said of a file system step that failed, if the step is one.
pub open spec fn install_step_words(step: InstallStep) -> Option<Seq<char>> {
    match step {
        InstallStep::CreateFolder => Some("Could not create the Sunrise folder"@),
        InstallStep::CreateStaging => Some("Could not create a temporary missions folder"@),
        InstallStep::FindRoot => Some("Could not read the missions archive"@),
        InstallStep::RemoveDotEntries => Some("Could not prepare the mission scripts"@),
        InstallStep::MoveAside => Some(
            "Could not replace the scripts folder; close Destiny 2 and any program using it"@,
        ),
        InstallStep::MoveIn => Some("Could not install the mission scripts"@),
        _ => None,
    }
}

impl InstallStep {
    /// The first step, unless the scripts folder is a git checkout.
    pub fn first(git: Presence) -> (r: AppResult<InstallStep>)
        ensures
            if git == Presence::Missing {
                r == AppResult::<InstallStep>::Ok(InstallStep::FetchCommit)
            } else {
                r matches Err(error) && error::is_message(
                    error,
                    "The scripts folder is a git checkout. Update it with git instead."@,
                )
            },
    {
        if is_git_checkout(git) {
            return Err(
                AppError::message(
                    "The scripts folder is a git checkout. Update it with git instead.".to_owned(),
                ),
            );
        }
        Ok(InstallStep::FetchCommit)
    }

    /// What follows this step.
    pub fn next(self, succeeded: bool, occupied: Presence) -> (r: InstallNext)
        ensures
            r == install_step_after(self, succeeded, occupied),
    {
        if let InstallStep::RemoveStaging { installed } = self {
            return if installed {
                InstallNext::Installed
            } else {
                InstallNext::Failed
            };
        }
        if !succeeded {
            return match self {
                InstallStep::FetchCommit
                | InstallStep::CreateFolder
                | InstallStep::CreateStaging => InstallNext::Failed,
                InstallStep::MoveIn => if occupied.is_present() {
                    InstallNext::Run(InstallStep::Restore)
                } else {
                    InstallNext::Run(InstallStep::RemoveStaging { installed: false })
                },
                _ => InstallNext::Run(InstallStep::RemoveStaging { installed: false }),
            };
        }
        match self {
            InstallStep::FetchCommit => InstallNext::Run(InstallStep::CreateFolder),
            InstallStep::CreateFolder => InstallNext::Run(InstallStep::CreateStaging),
            InstallStep::CreateStaging => InstallNext::Run(InstallStep::DownloadArchive),
            InstallStep::DownloadArchive => InstallNext::Run(InstallStep::ExtractArchive),
            InstallStep::ExtractArchive => InstallNext::Run(InstallStep::FindRoot),
            InstallStep::FindRoot => InstallNext::Run(InstallStep::RemoveDotEntries),
            InstallStep::RemoveDotEntries => if occupied.is_present() {
                InstallNext::Run(InstallStep::MoveAside)
            } else {
                InstallNext::Run(InstallStep::MoveIn)
            },
            InstallStep::MoveAside => InstallNext::Run(InstallStep::MoveIn),
            InstallStep::MoveIn => InstallNext::Run(
                InstallStep::RemoveStaging { installed: true },
            ),
            _ => InstallNext::Run(InstallStep::RemoveStaging { installed: false }),
        }
    }

    /// What is said when this step fails in the file system, if it works there.
    pub fn failure(self) -> (r: Option<&'static str>)
        ensures
            text::str_view(r) == install_step_words(self),
    {
        match self {
            InstallStep::CreateFolder => Some("Could not create the Sunrise folder"),
            InstallStep::CreateStaging => Some("Could not create a temporary missions folder"),
            InstallStep::FindRoot => Some("Could not read the missions archive"),
            InstallStep::RemoveDotEntries => Some("Could not prepare the mission scripts"),
            InstallStep::MoveAside => Some(
                "Could not replace the scripts folder; close Destiny 2 and any program using it",
            ),
            InstallStep::MoveIn => Some("Could not install the mission scripts"),
            _ => None,
        }
    }
}

/// The folders that a replacement of the scripts moves, each by what it holds: the scripts
/// folder, and in the staging folder the place that it is moved aside to and the new folder.
pub struct Folders<T> {
    pub scripts: Option<T>,
    pub aside: Option<T>,
    pub new: Option<T>,
}

/// The folders before a replacement: nothing is staged yet.
pub open spec fn before_install<T>(old_scripts: Option<T>) -> Folders<T> {
    Folders { scripts: old_scripts, aside: None, new: None }
}

/// The folders once the staging folder is gone.
pub open spec fn without_staging<T>(folders: Folders<T>) -> Folders<T> {
    Folders { scripts: folders.scripts, aside: None, new: None }
}

/// What a step that succeeds does to the folders; `new_scripts` is what the archive's folder holds
/// once the repository's own files are removed from it.
pub open spec fn after_install_step<T>(
    step: InstallStep,
    folders: Folders<T>,
    new_scripts: T,
) -> Folders<T> {
    match step {
        InstallStep::RemoveDotEntries => Folders { new: Some(new_scripts), ..folders },
        InstallStep::MoveAside => Folders { scripts: None, aside: folders.scripts, ..folders },
        InstallStep::MoveIn => Folders { scripts: folders.new, new: None, ..folders },
        InstallStep::Restore => Folders { scripts: folders.aside, aside: None, ..folders },
        InstallStep::RemoveStaging { .. } => without_staging(folders),
        _ => folders,
    }
}

/// What stands at the place that a step's successor depends on.
pub open spec fn occupied_after<T>(step: InstallStep, folders: Folders<T>) -> Presence {
    let place = if step == InstallStep::MoveIn {
        folders.aside
    } else {
        folders.scripts
    };
    if place is Some {
        Presence::Folder
    } else {
        Presence::Missing
    }
}

/// Where a replacement is, and the folders, after one more step.
pub open spec fn run_install_step<T>(
    step: InstallStep,
    folders: Folders<T>,
    new_scripts: T,
    succeeded: bool,
) -> (InstallNext, Folders<T>) {
    let after = if succeeded {
        after_install_step(step, folders, new_scripts)
    } else {
        folders
    };
    (install_step_after(step, succeeded, occupied_after(step, after)), after)
}

/// Where a replacement is, and the folders, after steps with these outcomes.
pub open spec fn run_install_steps<T>(
    next: InstallNext,
    folders: Folders<T>,
    new_scripts: T,
    outcomes: Seq<bool>,
) -> (InstallNext, Folders<T>)
    decreases outcomes.len(),
{
    if outcomes.len() == 0 {
        (next, folders)
    } else {
        match next {
            InstallNext::Run(step) => {
                let (then, after) = run_install_step(
                    step,
                    folders,
                    new_scripts,
                    outcomes.first(),
                );
                run_install_steps(then, after, new_scripts, outcomes.drop_first())
            },
            _ => (next, folders),
        }
    }
}

/// Wherever steps with these outcomes put the old scripts back, that succeeds.
pub open spec fn restores_succeed<T>(
    next: InstallNext,
    folders: Folders<T>,
    new_scripts: T,
    outcomes: Seq<bool>,
) -> bool
    decreases outcomes.len(),
{
    if outcomes.len() == 0 {
        true
    } else {
        match next {
            InstallNext::Run(step) => {
                let (then, after) = run_install_step(
                    step,
                    folders,
                    new_scripts,
                    outcomes.first(),
                );
                &&& step == InstallStep::Restore ==> outcomes.first()
                &&& restores_succeed(then, after, new_scripts, outcomes.drop_first())
            },
            _ => true,
        }
    }
}

/// Wherever steps with these outcomes remove the staging folder, that succeeds.
pub open spec fn removals_succeed<T>(
    next: InstallNext,
    folders: Folders<T>,
    new_scripts: T,
    outcomes: Seq<bool>,
) -> bool
    decreases outcomes.len(),
{
    if outcomes.len() == 0 {
        true
    } else {
        match next {
            InstallNext::Run(step) => {
                let (then, after) = run_install_step(
                    step,
                    folders,
                    new_scripts,
                    outcomes.first(),
                );
                &&& step is RemoveStaging ==> outcomes.first()
                &&& removals_succeed(then, after, new_scripts, outcomes.drop_first())
            },
            _ => true,
        }
    }
}

/// Where the old and the new scripts are before each step and at the end.
pub open spec fn is_safe<T>(
    next: InstallNext,
    folders: Folders<T>,
    old_scripts: Option<T>,
    new_scripts: T,
) -> bool {
    match next {
        InstallNext::Installed => folders.scripts == Some(new_scripts),
        InstallNext::Failed => folders.scripts == old_scripts || folders.scripts is None,
        InstallNext::Run(InstallStep::MoveAside) => folders.scripts == old_scripts && old_scripts
            is Some && folders.aside is None && folders.new == Some(new_scripts),
        InstallNext::Run(InstallStep::MoveIn) => folders.scripts is None && folders.aside
            == old_scripts && folders.new == Some(new_scripts),
        InstallNext::Run(InstallStep::Restore) => folders.scripts is None && folders.aside
            == old_scripts,
        InstallNext::Run(InstallStep::RemoveStaging { installed }) => if installed {
            folders.scripts == Some(new_scripts) && folders.aside == old_scripts
        } else {
            ||| folders.scripts == old_scripts && folders.aside is None
            ||| folders.scripts is None && folders.aside == old_scripts
        },
        InstallNext::Run(_) => folders.scripts == old_scripts && folders.aside is None,
    }
}

/// Whatever steps fail, the old scripts are in their place or aside until the staging folder is
/// removed, and what is in their place is never anything but the old or the new scripts. Where the
/// replacement ends with success, the new ones are there. Where the new scripts can neither be
/// moved in nor the old ones back, the old ones go with the staging folder.
pub proof fn law_old_scripts_are_kept_until_the_end<T>(
    next: InstallNext,
    folders: Folders<T>,
    old_scripts: Option<T>,
    new_scripts: T,
    outcomes: Seq<bool>,
)
    requires
        is_safe(next, folders, old_scripts, new_scripts),
    ensures
        ({
            let (last, after) = run_install_steps(next, folders, new_scripts, outcomes);
            is_safe(last, after, old_scripts, new_scripts)
        }),
    decreases outcomes.len(),
{
    if outcomes.len() > 0 {
        if let InstallNext::Run(step) = next {
            let (then, after) = run_install_step(step, folders, new_scripts, outcomes.first());
            law_old_scripts_are_kept_until_the_end(
                then,
                after,
                old_scripts,
                new_scripts,
                outcomes.drop_first(),
            );
        }
    }
}

/// A replacement that has failed, or is about to end so, has the old scripts in their place.
spec fn is_undone<T>(next: InstallNext, folders: Folders<T>, old_scripts: Option<T>) -> bool {
    next == InstallNext::Failed || next == InstallNext::Run(
        InstallStep::RemoveStaging { installed: false },
    ) ==> folders.scripts == old_scripts
}

/// The old scripts stay in their place, or come back to it, as long as putting them back succeeds.
proof fn lemma_failures_are_undone<T>(
    next: InstallNext,
    folders: Folders<T>,
    old_scripts: Option<T>,
    new_scripts: T,
    outcomes: Seq<bool>,
)
    requires
        is_safe(next, folders, old_scripts, new_scripts),
        is_undone(next, folders, old_scripts),
        restores_succeed(next, folders, new_scripts, outcomes),
    ensures
        ({
            let (last, after) = run_install_steps(next, folders, new_scripts, outcomes);
            is_undone(last, after, old_scripts)
        }),
    decreases outcomes.len(),
{
    if outcomes.len() > 0 {
        if let InstallNext::Run(step) = next {
            let (then, after) = run_install_step(step, folders, new_scripts, outcomes.first());
            lemma_failures_are_undone(
                then,
                after,
                old_scripts,
                new_scripts,
                outcomes.drop_first(),
            );
        }
    }
}

/// A replacement that fails leaves the old scripts in their place, unless they were moved aside and
/// cannot be moved back.
pub proof fn law_failed_replacements_are_undone<T>(
    old_scripts: Option<T>,
    new_scripts: T,
    outcomes: Seq<bool>,
)
    requires
        restores_succeed(
            InstallNext::Run(InstallStep::FetchCommit),
            before_install(old_scripts),
            new_scripts,
            outcomes,
        ),
    ensures
        ({
            let (last, after) = run_install_steps(
                InstallNext::Run(InstallStep::FetchCommit),
                before_install(old_scripts),
                new_scripts,
                outcomes,
            );
            last == InstallNext::Failed ==> after.scripts == old_scripts
        }),
{
    lemma_failures_are_undone(
        InstallNext::Run(InstallStep::FetchCommit),
        before_install(old_scripts),
        old_scripts,
        new_scripts,
        outcomes,
    );
}

/// Before there is a staging folder, and at the end, nothing is staged.
spec fn is_clean<T>(next: InstallNext, folders: Folders<T>) -> bool {
    match next {
        InstallNext::Run(InstallStep::FetchCommit)
        | InstallNext::Run(InstallStep::CreateFolder)
        | InstallNext::Run(InstallStep::CreateStaging)
        | InstallNext::Installed
        | InstallNext::Failed => folders.aside is None && folders.new is None,
        _ => true,
    }
}

/// Nothing is staged at the end, as long as the staging folder can be removed.
proof fn lemma_nothing_is_left_over<T>(
    next: InstallNext,
    folders: Folders<T>,
    new_scripts: T,
    outcomes: Seq<bool>,
)
    requires
        is_clean(next, folders),
        removals_succeed(next, folders, new_scripts, outcomes),
    ensures
        ({
            let (last, after) = run_install_steps(next, folders, new_scripts, outcomes);
            is_clean(last, after)
        }),
    decreases outcomes.len(),
{
    if outcomes.len() > 0 {
        if let InstallNext::Run(step) = next {
            let (then, after) = run_install_step(step, folders, new_scripts, outcomes.first());
            lemma_nothing_is_left_over(then, after, new_scripts, outcomes.drop_first());
        }
    }
}

/// At the end of a replacement, however it ends, the staging folder is gone with all that was in
/// it, unless it cannot be removed: after a success nothing of the former scripts remains.
pub proof fn law_nothing_is_left_over<T>(
    old_scripts: Option<T>,
    new_scripts: T,
    outcomes: Seq<bool>,
)
    requires
        removals_succeed(
            InstallNext::Run(InstallStep::FetchCommit),
            before_install(old_scripts),
            new_scripts,
            outcomes,
        ),
    ensures
        ({
            let (last, after) = run_install_steps(
                InstallNext::Run(InstallStep::FetchCommit),
                before_install(old_scripts),
                new_scripts,
                outcomes,
            );
            &&& last !is Run ==> after.aside is None && after.new is None
            &&& last == InstallNext::Installed ==> after.scripts == Some(new_scripts)
        }),
{
    lemma_nothing_is_left_over(
        InstallNext::Run(InstallStep::FetchCommit),
        before_install(old_scripts),
        new_scripts,
        outcomes,
    );
    law_old_scripts_are_kept_until_the_end(
        InstallNext::Run(InstallStep::FetchCommit),
        before_install(old_scripts),
        old_scripts,
        new_scripts,
        outcomes,
    );
}

/// A replacement whose steps all succeed installs the new scripts and leaves nothing else.
pub proof fn law_successful_steps_install_the_scripts<T>(
    old_scripts: Option<T>,
    new_scripts: T,
    outcomes: Seq<bool>,
)
    requires
        outcomes.len() >= 10,
        forall|i: int| 0 <= i < outcomes.len() ==> #[trigger] outcomes[i],
    ensures
        run_install_steps(
            InstallNext::Run(InstallStep::FetchCommit),
            before_install(old_scripts),
            new_scripts,
            outcomes,
        ) == (InstallNext::Installed, before_install(Some(new_scripts))),
{
    reveal_with_fuel(run_install_steps, 12);
}

/// A replacement ends after eleven steps at most.
pub proof fn law_replacing_scripts_ends<T>(
    folders: Folders<T>,
    new_scripts: T,
    outcomes: Seq<bool>,
)
    requires
        outcomes.len() >= 11,
    ensures
        run_install_steps(
            InstallNext::Run(InstallStep::FetchCommit),
            folders,
            new_scripts,
            outcomes,
        ).0 !is Run,
{
    reveal_with_fuel(run_install_steps, 13);
}

/// The scripts and the settings are at different places in the same folder.
pub proof fn law_sunrise_files_are_together(install_root: paths::LocalPathView)
    ensures
        ({
            let scripts = paths::below(
                install_root,
                seq!["bin"@, "x64"@, "Sunrise"@, "scripts"@],
            );
            let settings = paths::below(
                install_root,
                seq!["bin"@, "x64"@, "Sunrise"@, "settings.json"@],
            );
            &&& paths::folder_of(scripts) == paths::folder_of(settings)
            &&& paths::folder_of(scripts) == Some(
                paths::below(install_root, seq!["bin"@, "x64"@, "Sunrise"@]),
            )
            &&& scripts != settings
        }),
{
    let scripts = paths::below(install_root, seq!["bin"@, "x64"@, "Sunrise"@, "scripts"@]);
    let settings = paths::below(install_root, seq!["bin"@, "x64"@, "Sunrise"@, "settings.json"@]);
    let folder = paths::below(install_root, seq!["bin"@, "x64"@, "Sunrise"@]);
    assert(scripts.names.drop_last() =~= folder.names);
    assert(settings.names.drop_last() =~= folder.names);
    reveal_strlit("scripts");
    reveal_strlit("settings.json");
    assert(scripts.names.last().len() != settings.names.last().len());
}

/// Exactly the entries whose names start with a dot are removed.
pub proof fn law_only_dot_entries_are_removed(entries: Seq<FolderEntry>, entry: FolderEntry)
    ensures
        dot_entries(entries).contains(entry) <==> entries.contains(entry) && is_dot_entry(entry),
    decreases entries.len(),
{
    if entries.len() > 0 {
        let start = entries.drop_last();
        let last = entries.last();
        law_only_dot_entries_are_removed(start, entry);
        assert(entries =~= start.push(last));
        text::lemma_push_contains(start, last, entry);
        if is_dot_entry(last) {
            text::lemma_push_contains(dot_entries(start), last, entry);
        }
    }
}

} // verus!
