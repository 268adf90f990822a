//! Where the launcher runs and to whom it reports.
use std::path::PathBuf;
use vstd::prelude::*;
use crate::error;
use crate::error::{AppError, AppResult};
use crate::models::OperationEvent;
use crate::paths::{LocalPath, LocalPathView};

verus! {

/// Takes the events of an operation.
pub trait EventSink: Send + Sync {
    fn send(&self, event: OperationEvent);
}

impl<T: EventSink + ?Sized> EventSink for std::sync::Arc<T> {
    fn send(&self, event: OperationEvent) {
        (**self).send(event);
    }
}

/// The folders in which the launcher keeps its data.
pub struct RuntimeContext {
    pub data_dir: LocalPath,
    pub cache_dir: LocalPath,
}

impl Clone for RuntimeContext {
    fn clone(&self) -> (r: Self)
        ensures
            r.data_dir@ == self.data_dir@,
            r.cache_dir@ == self.cache_dir@,
    {
        RuntimeContext { data_dir: self.data_dir.clone(), cache_dir: self.cache_dir.clone() }
    }
}

/// The launcher's folder in the one that the environment names for the purpose, or else in
/// `fallback` below the user's home folder.
pub open spec fn launcher_folder(
    named: Option<PathBuf>,
    home: Option<PathBuf>,
    fallback: Seq<char>,
) -> Option<LocalPathView> {
    match (named, home) {
        (Some(folder), _) => Some(
            LocalPathView { base: folder, names: seq!["project-sunrise-launcher"@] },
        ),
        (None, Some(home)) => Some(
            LocalPathView { base: home, names: seq![fallback, "project-sunrise-launcher"@] },
        ),
        (None, None) => None,
    }
}

/// The launcher's folder, if the environment tells where it is.
fn find_launcher_folder(
    named: Option<PathBuf>,
    home: Option<PathBuf>,
    fallback: &str,
) -> (r: Option<LocalPath>)
    ensures
        match r {
            Some(folder) => launcher_folder(named, home, fallback@) == Some(folder@),
            None => launcher_folder(named, home, fallback@) is None,
        },
{
    let folder = match named {
        Some(folder) => LocalPath::at(folder),
        None => match home {
            Some(home) => LocalPath::at(home).join(fallback),
            None => return None,
        },
    };
    let r = folder.join("project-sunrise-launcher");
    assert(r@.names =~= launcher_folder(named, home, fallback@)->0.names);
    Some(r)
}

impl RuntimeContext {
    /// The launcher keeps its data in these folders.
    pub fn new(data_dir: LocalPath, cache_dir: LocalPath) -> (r: Self)
        ensures
            r.data_dir == data_dir,
            r.cache_dir == cache_dir,
    {
        RuntimeContext { data_dir, cache_dir }
    }

    /// The folders that the environment names: `data_home` is its `XDG_DATA_HOME`, `cache_home`
    /// its `XDG_CACHE_HOME` and `home` its `HOME`.
    pub fn from_environment(
        data_home: Option<PathBuf>,
        cache_home: Option<PathBuf>,
        home: Option<PathBuf>,
    ) -> (r: AppResult<Self>)
        ensures
            ({
                let data = launcher_folder(data_home, home, ".local/share"@);
                let cache = launcher_folder(cache_home, home, ".cache"@);
                match r {
                    Ok(context) => data == Some(context.data_dir@) && cache == Some(
                        context.cache_dir@,
                    ),
                    Err(error) => if data is None {
                        error::is_message(
                            error,
                            "Could not determine the application data folder."@,
                        )
                    } else {
                        &&& cache is None
                        &&& error::is_message(
                            error,
                            "Could not determine the application cache folder."@,
                        )
                    },
                }
            }),
    {
        let home_again = match &home {
            Some(home) => Some(home.clone()),
            None => None,
        };
        let data_dir = match find_launcher_folder(data_home, home, ".local/share") {
            Some(folder) => folder,
            None => return Err(
                AppError::message("Could not determine the application data folder.".to_owned()),
            ),
        };
        let cache_dir = match find_launcher_folder(cache_home, home_again, ".cache") {
            Some(folder) => folder,
            None => return Err(
                AppError::message("Could not determine the application cache folder.".to_owned()),
            ),
        };
        Ok(RuntimeContext::new(data_dir, cache_dir))
    }
}

} // verus!
