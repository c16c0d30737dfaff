//! The directories that the program works in.

use crate::paths::{join_path, joined_path};
use vstd::prelude::*;

verus! {

/// The directories and files of the program.
pub struct Env {
    pub cache_dir: String,
    pub data_dir: String,
    pub config_path: String,
    pub mumba_dir: String,
    pub ffnx_dir: String,
    pub log_path: String,
}

/// An environment with its paths as sequences of characters.
pub struct EnvView {
    pub cache_dir: Seq<char>,
    pub data_dir: Seq<char>,
    pub config_path: Seq<char>,
    pub mumba_dir: Seq<char>,
    pub ffnx_dir: Seq<char>,
    pub log_path: Seq<char>,
}

impl View for Env {
    type V = EnvView;

    open spec fn view(&self) -> EnvView {
        EnvView {
            cache_dir: self.cache_dir@,
            data_dir: self.data_dir@,
            config_path: self.config_path@,
            mumba_dir: self.mumba_dir@,
            ffnx_dir: self.ffnx_dir@,
            log_path: self.log_path@,
        }
    }
}

/// Three directories of a user: for what can be fetched again, for what is
/// kept, and for settings.
pub struct BaseDirs {
    pub cache_dir: String,
    pub data_dir: String,
    pub config_dir: String,
}

/// The name of the log file of a program.
pub open spec fn log_name(program_name: Seq<char>) -> Seq<char> {
    program_name + ".log"@
}

/// The environment of a program that keeps everything beside itself.
pub open spec fn local_env(exe_dir: Seq<char>, program_name: Seq<char>) -> EnvView {
    EnvView {
        cache_dir: exe_dir,
        data_dir: exe_dir,
        config_path: joined_path(exe_dir, "mumba.toml"@),
        mumba_dir: exe_dir,
        ffnx_dir: exe_dir,
        log_path: joined_path(exe_dir, log_name(program_name)),
    }
}

/// The environment that is spread over the directories of a user.
pub open spec fn user_env(exe_dir: Seq<char>, program_name: Seq<char>, cache_dir: Seq<char>, data_dir: Seq<
    char,
>, config_dir: Seq<char>) -> EnvView {
    EnvView {
        cache_dir,
        data_dir,
        config_path: joined_path(config_dir, "mumba.toml"@),
        mumba_dir: exe_dir,
        ffnx_dir: joined_path(data_dir, "game"@),
        log_path: joined_path(data_dir, log_name(program_name)),
    }
}

impl Env {
    /// The program's own directory inside a directory of the user.
    pub fn add_app_dir(path: &str) -> (dir: String)
        ensures
            dir@ == joined_path(path@, "mumba"@),
    {
        join_path(path, "mumba")
    }

    /// The directories that the program prefers: its own directory inside
    /// each of the user's where the system reports them, else the directory
    /// of the executable.
    pub fn preferred_dirs(exe_dir: &str, base_dirs: Option<&BaseDirs>) -> (dirs: BaseDirs)
        ensures
            match base_dirs {
                Some(base) => {
                    &&& dirs.cache_dir@ == joined_path(base.cache_dir@, "mumba"@)
                    &&& dirs.data_dir@ == joined_path(base.data_dir@, "mumba"@)
                    &&& dirs.config_dir@ == joined_path(base.config_dir@, "mumba"@)
                },
                None => {
                    &&& dirs.cache_dir@ == exe_dir@
                    &&& dirs.data_dir@ == exe_dir@
                    &&& dirs.config_dir@ == exe_dir@
                },
            },
    {
        match base_dirs {
            Some(base) => BaseDirs {
                cache_dir: Self::add_app_dir(base.cache_dir.as_str()),
                data_dir: Self::add_app_dir(base.data_dir.as_str()),
                config_dir: Self::add_app_dir(base.config_dir.as_str()),
            },
            None => BaseDirs {
                cache_dir: exe_dir.to_string(),
                data_dir: exe_dir.to_string(),
                config_dir: exe_dir.to_string(),
            },
        }
    }

    /// The directory that serves where one is wanted and another stands
    /// by: the preferred one where it could be created; else the fallback
    /// where that could be; else there is none, for the reason that the
    /// fallback could not be created.
    ///
    /// `created` says how creating the preferred directory went. Only where
    /// it failed is the fallback created, and only then is `fallback_created`
    /// read.
    pub fn create_or<E>(
        preferred: String,
        created: Result<(), E>,
        fallback: &str,
        fallback_created: Result<(), E>,
    ) -> (dir: Result<String, E>)
        ensures
            match created {
                Ok(_) => dir matches Ok(d) && d@ == preferred@,
                Err(_) => match fallback_created {
                    Ok(_) => dir matches Ok(d) && d@ == fallback@,
                    Err(e) => dir matches Err(f) && f == e,
                },
            },
    {
        match created {
            Ok(_) => Ok(preferred),
            Err(_) => match fallback_created {
                Ok(_) => Ok(fallback.to_string()),
                Err(e) => Err(e),
            },
        }
    }

    /// The environment of a program.
    ///
    /// Where a settings file lies beside the executable, everything is kept
    /// there. Else the environment is spread over `dirs`, the directories
    /// that could be created for it.
    pub fn new(program_name: &str, exe_dir: &str, local_config: bool, dirs: &BaseDirs) -> (env: Env)
        ensures
            env@ == if local_config {
                local_env(exe_dir@, program_name@)
            } else {
                user_env(exe_dir@, program_name@, dirs.cache_dir@, dirs.data_dir@, dirs.config_dir@)
            },
    {
        let mut log_name = program_name.to_string();
        log_name.append(".log");
        if local_config {
            Env {
                cache_dir: exe_dir.to_string(),
                data_dir: exe_dir.to_string(),
                config_path: join_path(exe_dir, "mumba.toml"),
                mumba_dir: exe_dir.to_string(),
                ffnx_dir: exe_dir.to_string(),
                log_path: join_path(exe_dir, log_name.as_str()),
            }
        } else {
            Env {
                cache_dir: dirs.cache_dir.clone(),
                data_dir: dirs.data_dir.clone(),
                config_path: join_path(dirs.config_dir.as_str(), "mumba.toml"),
                mumba_dir: exe_dir.to_string(),
                ffnx_dir: join_path(dirs.data_dir.as_str(), "game"),
                log_path: join_path(dirs.data_dir.as_str(), log_name.as_str()),
            }
        }
    }

    /// The launcher that takes the place of the game's own: the one beside
    /// the program where `bundled` says it is there, else the one that the
    /// system keeps.
    pub fn get_resource_launcher_path(&self, bundled: bool) -> (path: String)
        ensures
            path@ == if bundled {
                joined_path(self.mumba_dir@, "ff8_launcher.exe"@)
            } else {
                "/var/lib/mumba/ff8_launcher.exe"@
            },
    {
        if bundled {
            join_path(self.mumba_dir.as_str(), "ff8_launcher.exe")
        } else {
            "/var/lib/mumba/ff8_launcher.exe".to_string()
        }
    }
}

} // verus!
