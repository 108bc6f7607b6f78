//! Verified core of synctr: named rclone profiles, gitignore-style filters,
//! rclone discovery, the sync argv, schedule unit files, status and progress
//! text, and the decisions of the watch and the interactive view.

pub mod calendar;
pub mod cli;
pub mod doctor;
pub mod error;
pub mod ignore;
pub mod paths;
pub mod profile;
pub mod progress;
pub mod rclone;
pub mod runner;
pub mod schedule;
pub mod status;
pub mod text;
pub mod tui;
pub mod watch;

pub use doctor::{
    doctor_profile, doctor_report, first_line, probe_remote, version_from, DoctorProfile,
    DoctorRclone, DoctorReport, RemoteProbe, TimedRun,
};
pub use error::Error;
pub use ignore::{FilterRule, FilterSet};
pub use paths::{expand_tilde, make_absolute, DirEnv, Paths};
pub use profile::{validate_name, Mode, Profile, ProfileEdit, ProfileStore};
pub use progress::{
    apply_log_line, display_rclone_line, format_bytes, format_eta, LogLine, RcloneStats,
    RcloneTransferring, TransferProgress,
};
pub use rclone::{
    pick_rclone, probe_list, resolve_rclone, well_known, FsProbe, ResolveRequest, ResolveSource,
    ResolvedRclone,
};
pub use runner::{build_sync_argv, exit_code_of, SyncArgv, SyncOutcome};
pub use schedule::{
    default_install_dir, enable_hint, generate_schedule, install_dir_from, schedule_filenames,
    ScheduleFile, ScheduleKind, ScheduleSpec,
};
pub use status::{
    age_label, age_label_at, last_run_short, unix_now, unix_to_rfc3339, LastRun, ProfileStatus,
    RcloneJson, StatusSnapshot,
};
pub use watch::{path_should_wake, relative_to_root, Debouncer};
