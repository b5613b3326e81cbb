//! The configuration as authored, and the policy resolved from it.

use crate::name_map::NameMap;
use vstd::prelude::*;

verus! {

/// The kind of place that hosts a repository.
#[derive(Debug, Clone, Copy, PartialEq, Eq, Structural)]
pub enum DestinationType {
    Sftp,
    Local,
    S3,
    B2,
}

/// The kinds of event that can be reported.
#[derive(Debug, Clone, Copy, PartialEq, Eq, Structural)]
pub enum NotifyEvent {
    Failure,
    Warning,
    LongRunning,
    Success,
}

/// Keep-counts for pruning snapshots.
#[derive(Debug, Clone, Copy, PartialEq, Eq, Structural)]
pub struct RetentionPolicy {
    pub daily: u32,
    pub weekly: u32,
    pub monthly: u32,
    pub yearly: u32,
}

/// Process-wide defaults.
#[derive(Debug)]
pub struct GlobalConfig {
    /// Path to the file that holds the repository password.
    pub restic_password_file: String,
    /// Directory under which relative backup paths are resolved.
    pub docker_base: String,
    pub retention_daily: u32,
    pub retention_weekly: u32,
    pub retention_monthly: u32,
    pub retention_yearly: u32,
    pub default_timeout_seconds: u64,
    pub long_running_threshold_minutes: u64,
    pub log_directory: String,
    pub log_level: String,
    pub log_max_files: u32,
    pub log_max_size_mb: u64,
    /// Exclusion patterns that apply to every service.
    pub default_excludes: Vec<String>,
    /// Use the backup tool found on the search path instead of the managed one.
    pub use_system_restic: bool,
}

/// What a [`GlobalConfig`] holds, as a value of specifications.
pub struct GlobalConfigView {
    pub restic_password_file: Seq<char>,
    pub docker_base: Seq<char>,
    pub retention_daily: u32,
    pub retention_weekly: u32,
    pub retention_monthly: u32,
    pub retention_yearly: u32,
    pub default_timeout_seconds: u64,
    pub long_running_threshold_minutes: u64,
    pub log_directory: Seq<char>,
    pub log_level: Seq<char>,
    pub log_max_files: u32,
    pub log_max_size_mb: u64,
    pub default_excludes: Seq<Seq<char>>,
    pub use_system_restic: bool,
}

/// A named place that hosts repositories.
#[derive(Debug)]
pub struct Destination {
    pub dest_type: DestinationType,
    pub url: String,
    pub description: String,
}

/// What a [`Destination`] holds, as a value of specifications.
pub struct DestinationView {
    pub dest_type: DestinationType,
    pub url: Seq<char>,
    pub description: Seq<char>,
}

/// How and when alerts are sent.
#[derive(Debug)]
pub struct NotificationConfig {
    /// Where alerts are delivered; empty when nothing is configured.
    pub discord_webhook_url: String,
    /// The kinds of event that are reported.
    pub notify_on: Vec<NotifyEvent>,
    /// The cooldown between two alerts that share a key.
    pub rate_limit_minutes: u64,
    pub cache_file: String,
}

/// What a [`NotificationConfig`] holds, as a value of specifications.
pub struct NotificationConfigView {
    pub discord_webhook_url: Seq<char>,
    pub notify_on: Seq<NotifyEvent>,
    pub rate_limit_minutes: u64,
    pub cache_file: Seq<char>,
}

/// A named bundle of overrides that a service may opt into.
#[derive(Debug)]
pub struct Profile {
    pub targets: Vec<String>,
    pub retention_daily: Option<u32>,
    pub retention_weekly: Option<u32>,
    pub retention_monthly: Option<u32>,
    pub retention_yearly: Option<u32>,
    pub timeout_seconds: Option<u64>,
    pub notify_on: Vec<NotifyEvent>,
}

/// What a [`Profile`] holds, as a value of specifications.
pub struct ProfileView {
    pub targets: Seq<Seq<char>>,
    pub retention_daily: Option<u32>,
    pub retention_weekly: Option<u32>,
    pub retention_monthly: Option<u32>,
    pub retention_yearly: Option<u32>,
    pub timeout_seconds: Option<u64>,
    pub notify_on: Seq<NotifyEvent>,
}

/// A command run before or after the transfer.
#[derive(Debug)]
pub struct Hook {
    pub name: String,
    pub command: String,
    pub working_dir: Option<String>,
    /// Overrides the service's timeout for this hook.
    pub timeout_seconds: Option<u64>,
    /// Whether a failure of this hook is only a warning.
    pub continue_on_error: bool,
}

/// What a [`Hook`] holds, as a value of specifications.
pub struct HookView {
    pub name: Seq<char>,
    pub command: Seq<char>,
    pub working_dir: Option<Seq<char>>,
    pub timeout_seconds: Option<u64>,
    pub continue_on_error: bool,
}

/// What a service backs up, and the hooks around it.
#[derive(Debug)]
pub struct BackupConfig {
    /// Paths, absolute or relative to the base directory.
    pub paths: Vec<String>,
    /// Container volumes, archived before the transfer.
    pub volumes: Vec<String>,
    pub excludes: Vec<String>,
    pub pre_backup_hooks: Vec<Hook>,
    pub post_backup_hooks: Vec<Hook>,
}

/// What a [`BackupConfig`] holds, as a value of specifications.
pub struct BackupConfigView {
    pub paths: Seq<Seq<char>>,
    pub volumes: Seq<Seq<char>>,
    pub excludes: Seq<Seq<char>>,
    pub pre_backup_hooks: Seq<HookView>,
    pub post_backup_hooks: Seq<HookView>,
}

/// A service as authored, before a profile and the defaults are merged in.
#[derive(Debug)]
pub struct ServiceConfig {
    pub enabled: bool,
    pub profile: Option<String>,
    pub description: String,
    pub schedule: String,
    pub targets: Vec<String>,
    pub timeout_seconds: Option<u64>,
    pub retention_daily: Option<u32>,
    pub retention_weekly: Option<u32>,
    pub retention_monthly: Option<u32>,
    pub retention_yearly: Option<u32>,
    pub notify_on: Vec<NotifyEvent>,
    pub config: Option<BackupConfig>,
}

/// What a [`ServiceConfig`] holds, as a value of specifications.
pub struct ServiceConfigView {
    pub enabled: bool,
    pub profile: Option<Seq<char>>,
    pub description: Seq<char>,
    pub schedule: Seq<char>,
    pub targets: Seq<Seq<char>>,
    pub timeout_seconds: Option<u64>,
    pub retention_daily: Option<u32>,
    pub retention_weekly: Option<u32>,
    pub retention_monthly: Option<u32>,
    pub retention_yearly: Option<u32>,
    pub notify_on: Seq<NotifyEvent>,
    pub config: Option<BackupConfigView>,
}

/// The policy of one service after the profile and the defaults are merged in.
#[derive(Debug)]
pub struct ResolvedServiceConfig {
    pub name: String,
    pub enabled: bool,
    pub description: String,
    pub schedule: String,
    pub targets: Vec<String>,
    pub timeout_seconds: u64,
    pub retention: RetentionPolicy,
    pub notify_on: Vec<NotifyEvent>,
    pub config: Option<BackupConfig>,
}

/// What a [`ResolvedServiceConfig`] holds, as a value of specifications.
pub struct ResolvedServiceConfigView {
    pub name: Seq<char>,
    pub enabled: bool,
    pub description: Seq<char>,
    pub schedule: Seq<char>,
    pub targets: Seq<Seq<char>>,
    pub timeout_seconds: u64,
    pub retention: RetentionPolicy,
    pub notify_on: Seq<NotifyEvent>,
    pub config: Option<BackupConfigView>,
}

/// The whole configuration document.
pub struct Config {
    pub global: GlobalConfig,
    pub destinations: NameMap<Destination>,
    pub notifications: NotificationConfig,
    pub profiles: NameMap<Profile>,
    pub services: NameMap<ServiceConfig>,
}

/// What a [`Config`] holds, as a value of specifications.
pub struct ConfigView {
    pub global: GlobalConfigView,
    pub destinations: Seq<(Seq<char>, DestinationView)>,
    pub notifications: NotificationConfigView,
    pub profiles: Seq<(Seq<char>, ProfileView)>,
    pub services: Seq<(Seq<char>, ServiceConfigView)>,
}

impl View for GlobalConfig {
    type V = GlobalConfigView;

    open spec fn view(&self) -> GlobalConfigView {
        GlobalConfigView {
            restic_password_file: self.restic_password_file@,
            docker_base: self.docker_base@,
            retention_daily: self.retention_daily,
            retention_weekly: self.retention_weekly,
            retention_monthly: self.retention_monthly,
            retention_yearly: self.retention_yearly,
            default_timeout_seconds: self.default_timeout_seconds,
            long_running_threshold_minutes: self.long_running_threshold_minutes,
            log_directory: self.log_directory@,
            log_level: self.log_level@,
            log_max_files: self.log_max_files,
            log_max_size_mb: self.log_max_size_mb,
            default_excludes: self.default_excludes.deep_view(),
            use_system_restic: self.use_system_restic,
        }
    }
}

impl DeepView for GlobalConfig {
    type V = GlobalConfigView;

    open spec fn deep_view(&self) -> GlobalConfigView {
        self@
    }
}

impl View for Destination {
    type V = DestinationView;

    open spec fn view(&self) -> DestinationView {
        DestinationView { dest_type: self.dest_type, url: self.url@, description: self.description@ }
    }
}

impl DeepView for Destination {
    type V = DestinationView;

    open spec fn deep_view(&self) -> DestinationView {
        self@
    }
}

impl View for NotificationConfig {
    type V = NotificationConfigView;

    open spec fn view(&self) -> NotificationConfigView {
        NotificationConfigView {
            discord_webhook_url: self.discord_webhook_url@,
            notify_on: self.notify_on@,
            rate_limit_minutes: self.rate_limit_minutes,
            cache_file: self.cache_file@,
        }
    }
}

impl DeepView for NotificationConfig {
    type V = NotificationConfigView;

    open spec fn deep_view(&self) -> NotificationConfigView {
        self@
    }
}

impl View for Profile {
    type V = ProfileView;

    open spec fn view(&self) -> ProfileView {
        ProfileView {
            targets: self.targets.deep_view(),
            retention_daily: self.retention_daily,
            retention_weekly: self.retention_weekly,
            retention_monthly: self.retention_monthly,
            retention_yearly: self.retention_yearly,
            timeout_seconds: self.timeout_seconds,
            notify_on: self.notify_on@,
        }
    }
}

impl DeepView for Profile {
    type V = ProfileView;

    open spec fn deep_view(&self) -> ProfileView {
        self@
    }
}

impl View for Hook {
    type V = HookView;

    open spec fn view(&self) -> HookView {
        HookView {
            name: self.name@,
            command: self.command@,
            working_dir: self.working_dir.deep_view(),
            timeout_seconds: self.timeout_seconds,
            continue_on_error: self.continue_on_error,
        }
    }
}

impl DeepView for Hook {
    type V = HookView;

    open spec fn deep_view(&self) -> HookView {
        self@
    }
}

impl View for BackupConfig {
    type V = BackupConfigView;

    open spec fn view(&self) -> BackupConfigView {
        BackupConfigView {
            paths: self.paths.deep_view(),
            volumes: self.volumes.deep_view(),
            excludes: self.excludes.deep_view(),
            pre_backup_hooks: self.pre_backup_hooks.deep_view(),
            post_backup_hooks: self.post_backup_hooks.deep_view(),
        }
    }
}

impl DeepView for BackupConfig {
    type V = BackupConfigView;

    open spec fn deep_view(&self) -> BackupConfigView {
        self@
    }
}

impl View for ServiceConfig {
    type V = ServiceConfigView;

    open spec fn view(&self) -> ServiceConfigView {
        ServiceConfigView {
            enabled: self.enabled,
            profile: self.profile.deep_view(),
            description: self.description@,
            schedule: self.schedule@,
            targets: self.targets.deep_view(),
            timeout_seconds: self.timeout_seconds,
            retention_daily: self.retention_daily,
            retention_weekly: self.retention_weekly,
            retention_monthly: self.retention_monthly,
            retention_yearly: self.retention_yearly,
            notify_on: self.notify_on@,
            config: self.config.deep_view(),
        }
    }
}

impl DeepView for ServiceConfig {
    type V = ServiceConfigView;

    open spec fn deep_view(&self) -> ServiceConfigView {
        self@
    }
}

impl View for ResolvedServiceConfig {
    type V = ResolvedServiceConfigView;

    open spec fn view(&self) -> ResolvedServiceConfigView {
        ResolvedServiceConfigView {
            name: self.name@,
            enabled: self.enabled,
            description: self.description@,
            schedule: self.schedule@,
            targets: self.targets.deep_view(),
            timeout_seconds: self.timeout_seconds,
            retention: self.retention,
            notify_on: self.notify_on@,
            config: self.config.deep_view(),
        }
    }
}

impl DeepView for ResolvedServiceConfig {
    type V = ResolvedServiceConfigView;

    open spec fn deep_view(&self) -> ResolvedServiceConfigView {
        self@
    }
}

impl View for Config {
    type V = ConfigView;

    open spec fn view(&self) -> ConfigView {
        ConfigView {
            global: self.global@,
            destinations: self.destinations.deep_view(),
            notifications: self.notifications@,
            profiles: self.profiles.deep_view(),
            services: self.services.deep_view(),
        }
    }
}

impl DeepView for Config {
    type V = ConfigView;

    open spec fn deep_view(&self) -> ConfigView {
        self@
    }
}

/// A copy of `v`.
pub fn clone_strings(v: &Vec<String>) -> (r: Vec<String>)
    ensures
        r.deep_view() == v.deep_view(),
{
    let r = v.clone();
    assert(r.deep_view() =~= v.deep_view());
    r
}

/// A copy of `v`.
pub fn clone_events(v: &Vec<NotifyEvent>) -> (r: Vec<NotifyEvent>)
    ensures
        r@ == v@,
{
    let r = v.clone();
    assert(r@ =~= v@);
    r
}

/// A copy of `v`.
pub fn clone_text(v: &Option<String>) -> (r: Option<String>)
    ensures
        r.deep_view() == v.deep_view(),
{
    match v {
        Some(s) => Some(s.clone()),
        None => None,
    }
}

impl Clone for Hook {
    fn clone(&self) -> (r: Self)
        ensures
            r@ == self@,
    {
        Hook {
            name: self.name.clone(),
            command: self.command.clone(),
            working_dir: clone_text(&self.working_dir),
            timeout_seconds: self.timeout_seconds,
            continue_on_error: self.continue_on_error,
        }
    }
}

/// A copy of `v`.
pub fn clone_hooks(v: &Vec<Hook>) -> (r: Vec<Hook>)
    ensures
        r.deep_view() == v.deep_view(),
{
    let r = v.clone();
    assert(r.deep_view() =~= v.deep_view());
    r
}

impl Clone for BackupConfig {
    fn clone(&self) -> (r: Self)
        ensures
            r@ == self@,
    {
        BackupConfig {
            paths: clone_strings(&self.paths),
            volumes: clone_strings(&self.volumes),
            excludes: clone_strings(&self.excludes),
            pre_backup_hooks: clone_hooks(&self.pre_backup_hooks),
            post_backup_hooks: clone_hooks(&self.post_backup_hooks),
        }
    }
}

/// A copy of `v`.
pub fn clone_backup(v: &Option<BackupConfig>) -> (r: Option<BackupConfig>)
    ensures
        r.deep_view() == v.deep_view(),
{
    match v {
        Some(c) => Some(c.clone()),
        None => None,
    }
}

impl Clone for GlobalConfig {
    fn clone(&self) -> (r: Self)
        ensures
            r@ == self@,
    {
        GlobalConfig {
            restic_password_file: self.restic_password_file.clone(),
            docker_base: self.docker_base.clone(),
            retention_daily: self.retention_daily,
            retention_weekly: self.retention_weekly,
            retention_monthly: self.retention_monthly,
            retention_yearly: self.retention_yearly,
            default_timeout_seconds: self.default_timeout_seconds,
            long_running_threshold_minutes: self.long_running_threshold_minutes,
            log_directory: self.log_directory.clone(),
            log_level: self.log_level.clone(),
            log_max_files: self.log_max_files,
            log_max_size_mb: self.log_max_size_mb,
            default_excludes: clone_strings(&self.default_excludes),
            use_system_restic: self.use_system_restic,
        }
    }
}

impl Clone for Destination {
    fn clone(&self) -> (r: Self)
        ensures
            r@ == self@,
    {
        Destination {
            dest_type: self.dest_type,
            url: self.url.clone(),
            description: self.description.clone(),
        }
    }
}

impl Clone for NotificationConfig {
    fn clone(&self) -> (r: Self)
        ensures
            r@ == self@,
    {
        NotificationConfig {
            discord_webhook_url: self.discord_webhook_url.clone(),
            notify_on: clone_events(&self.notify_on),
            rate_limit_minutes: self.rate_limit_minutes,
            cache_file: self.cache_file.clone(),
        }
    }
}

impl Clone for Profile {
    fn clone(&self) -> (r: Self)
        ensures
            r@ == self@,
    {
        Profile {
            targets: clone_strings(&self.targets),
            retention_daily: self.retention_daily,
            retention_weekly: self.retention_weekly,
            retention_monthly: self.retention_monthly,
            retention_yearly: self.retention_yearly,
            timeout_seconds: self.timeout_seconds,
            notify_on: clone_events(&self.notify_on),
        }
    }
}

impl Clone for ServiceConfig {
    fn clone(&self) -> (r: Self)
        ensures
            r@ == self@,
    {
        ServiceConfig {
            enabled: self.enabled,
            profile: clone_text(&self.profile),
            description: self.description.clone(),
            schedule: self.schedule.clone(),
            targets: clone_strings(&self.targets),
            timeout_seconds: self.timeout_seconds,
            retention_daily: self.retention_daily,
            retention_weekly: self.retention_weekly,
            retention_monthly: self.retention_monthly,
            retention_yearly: self.retention_yearly,
            notify_on: clone_events(&self.notify_on),
            config: clone_backup(&self.config),
        }
    }
}

impl Clone for ResolvedServiceConfig {
    fn clone(&self) -> (r: Self)
        ensures
            r@ == self@,
    {
        ResolvedServiceConfig {
            name: self.name.clone(),
            enabled: self.enabled,
            description: self.description.clone(),
            schedule: self.schedule.clone(),
            targets: clone_strings(&self.targets),
            timeout_seconds: self.timeout_seconds,
            retention: self.retention,
            notify_on: clone_events(&self.notify_on),
            config: clone_backup(&self.config),
        }
    }
}

/// The daily keep-count where the document names none.
pub fn default_retention_daily() -> (r: u32)
    ensures
        r == 7,
{
    7
}

/// The weekly keep-count where the document names none.
pub fn default_retention_weekly() -> (r: u32)
    ensures
        r == 4,
{
    4
}

/// The monthly keep-count where the document names none.
pub fn default_retention_monthly() -> (r: u32)
    ensures
        r == 6,
{
    6
}

/// The timeout in seconds where the document names none.
pub fn default_timeout() -> (r: u64)
    ensures
        r == 3600,
{
    3600
}

/// The long-running threshold in minutes where the document names none.
pub fn default_long_running_threshold() -> (r: u64)
    ensures
        r == 120,
{
    120
}

/// The log directory where the document names none.
pub fn default_log_directory() -> (r: String)
    ensures
        r@ == "~/logs"@,
{
    "~/logs".to_owned()
}

/// The log level where the document names none.
pub fn default_log_level() -> (r: String)
    ensures
        r@ == "info"@,
{
    "info".to_owned()
}

/// The number of log files kept where the document names none.
pub fn default_log_max_files() -> (r: u32)
    ensures
        r == 10,
{
    10
}

/// The size of a log file in MB where the document names none.
pub fn default_log_max_size_mb() -> (r: u64)
    ensures
        r == 10,
{
    10
}

/// A service is enabled unless the document says otherwise.
pub fn default_enabled() -> (r: bool)
    ensures
        r,
{
    true
}

/// A hook's failure aborts unless the document says otherwise.
pub fn default_continue_on_error() -> (r: bool)
    ensures
        !r,
{
    false
}

/// The kinds of event reported where the document names none.
pub fn default_notify_on() -> (r: Vec<NotifyEvent>)
    ensures
        r@ == seq![NotifyEvent::Failure, NotifyEvent::Warning],
{
    let mut r: Vec<NotifyEvent> = Vec::new();
    r.push(NotifyEvent::Failure);
    r.push(NotifyEvent::Warning);
    assert(r@ =~= seq![NotifyEvent::Failure, NotifyEvent::Warning]);
    r
}

/// The cooldown in minutes where the document names none.
pub fn default_rate_limit() -> (r: u64)
    ensures
        r == 60,
{
    60
}

/// The cache file where the document names none.
pub fn default_cache_file() -> (r: String)
    ensures
        r@ == "~/.cache/restic-manager-notifications.json"@,
{
    "~/.cache/restic-manager-notifications.json".to_owned()
}

impl Default for NotificationConfig {
    fn default() -> (r: Self)
        ensures
            r@.discord_webhook_url.len() == 0,
            r@.notify_on == seq![NotifyEvent::Failure, NotifyEvent::Warning],
            r@.rate_limit_minutes == 60,
            r@.cache_file == "~/.cache/restic-manager-notifications.json"@,
    {
        NotificationConfig {
            discord_webhook_url: String::new(),
            notify_on: default_notify_on(),
            rate_limit_minutes: default_rate_limit(),
            cache_file: default_cache_file(),
        }
    }
}

impl Default for Profile {
    fn default() -> (r: Self)
        ensures
            r@ == (ProfileView {
                targets: Seq::empty(),
                retention_daily: None,
                retention_weekly: None,
                retention_monthly: None,
                retention_yearly: None,
                timeout_seconds: None,
                notify_on: Seq::empty(),
            }),
    {
        let r = Profile {
            targets: Vec::new(),
            retention_daily: None,
            retention_weekly: None,
            retention_monthly: None,
            retention_yearly: None,
            timeout_seconds: None,
            notify_on: Vec::new(),
        };
        assert(r@.targets =~= Seq::empty());
        r
    }
}

} // verus!
