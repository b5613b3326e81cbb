//! Validation of the services and resolution of their policies.
//!
//! Each setting of a service is resolved on its own: the service's value
//! where it is set, else the profile's, else the global default.

use crate::config::types::{
    clone_backup, clone_events, clone_strings, Config, ConfigView, DestinationView, Profile,
    ProfileView, ResolvedServiceConfig, ResolvedServiceConfigView, RetentionPolicy, ServiceConfig,
    ServiceConfigView,
};
use crate::name_map::{
    distinct_names, has_name, lemma_position_from, lookup, position_of, with_entry, NameMap,
};
use crate::text::{concat2, concat3, count_fields, field_count};
use crate::utils::host::path_exists;
use vstd::prelude::*;

verus! {

/// Why a configuration is refused.
#[derive(Debug)]
pub enum ConfigError {
    /// The document could not be read.
    ReadError(String),
    /// The document is not well-formed.
    ParseError(String),
    /// The document breaks a rule that has no variant of its own.
    ValidationError(String),
    /// A service names a profile that does not exist.
    ProfileNotFound(String),
    /// A service targets a destination that does not exist.
    DestinationNotFound(String),
    /// Neither the service nor its profile names a target.
    NoTargetsDefined(String),
    /// The schedule of the named service does not have five fields.
    InvalidSchedule(String, String),
}

/// What a [`ConfigError`] holds, as a value of specifications.
pub enum ConfigErrorView {
    ReadError(Seq<char>),
    ParseError(Seq<char>),
    ValidationError(Seq<char>),
    ProfileNotFound(Seq<char>),
    DestinationNotFound(Seq<char>),
    NoTargetsDefined(Seq<char>),
    InvalidSchedule(Seq<char>, Seq<char>),
}

impl View for ConfigError {
    type V = ConfigErrorView;

    open spec fn view(&self) -> ConfigErrorView {
        match self {
            ConfigError::ReadError(m) => ConfigErrorView::ReadError(m@),
            ConfigError::ParseError(m) => ConfigErrorView::ParseError(m@),
            ConfigError::ValidationError(m) => ConfigErrorView::ValidationError(m@),
            ConfigError::ProfileNotFound(p) => ConfigErrorView::ProfileNotFound(p@),
            ConfigError::DestinationNotFound(d) => ConfigErrorView::DestinationNotFound(d@),
            ConfigError::NoTargetsDefined(s) => ConfigErrorView::NoTargetsDefined(s@),
            ConfigError::InvalidSchedule(s, c) => ConfigErrorView::InvalidSchedule(s@, c@),
        }
    }
}

/// The text of an error, as shown to the user.
pub open spec fn error_text(e: ConfigErrorView) -> Seq<char> {
    match e {
        ConfigErrorView::ReadError(m) => "Failed to read config file: "@ + m,
        ConfigErrorView::ParseError(m) => "Failed to parse config file: "@ + m,
        ConfigErrorView::ValidationError(m) => "Validation error: "@ + m,
        ConfigErrorView::ProfileNotFound(p) => "Profile '"@ + p + "' not found"@,
        ConfigErrorView::DestinationNotFound(d) => "Destination '"@ + d + "' not found"@,
        ConfigErrorView::NoTargetsDefined(s) => "Service '"@ + s
            + "' has no targets defined and no profile that defines any"@,
        ConfigErrorView::InvalidSchedule(s, c) => "Service '"@ + s
            + "': invalid cron schedule format (expected 5 fields): "@ + c,
    }
}

impl ConfigError {
    /// The text of the error, as shown to the user.
    pub fn message(&self) -> (r: String)
        ensures
            r@ == error_text(self@),
    {
        match self {
            ConfigError::ReadError(m) => concat2("Failed to read config file: ", m.as_str()),
            ConfigError::ParseError(m) => concat2("Failed to parse config file: ", m.as_str()),
            ConfigError::ValidationError(m) => concat2("Validation error: ", m.as_str()),
            ConfigError::ProfileNotFound(p) => concat3("Profile '", p.as_str(), "' not found"),
            ConfigError::DestinationNotFound(d) => concat3(
                "Destination '",
                d.as_str(),
                "' not found",
            ),
            ConfigError::NoTargetsDefined(s) => concat3(
                "Service '",
                s.as_str(),
                "' has no targets defined and no profile that defines any",
            ),
            ConfigError::InvalidSchedule(s, c) => {
                let mut r = concat3(
                    "Service '",
                    s.as_str(),
                    "': invalid cron schedule format (expected 5 fields): ",
                );
                r.append(c.as_str());
                r
            },
        }
    }
}

/// The number of fields that a schedule must have.
pub const SCHEDULE_FIELDS: usize = 5;

/// A schedule is well-formed when it has exactly five white-space separated
/// fields.
pub open spec fn schedule_is_valid(schedule: Seq<char>) -> bool {
    field_count(schedule) == SCHEDULE_FIELDS
}

/// The profile that a service opts into, where it names one that exists.
pub open spec fn profile_of(
    service: ServiceConfigView,
    profiles: Seq<(Seq<char>, ProfileView)>,
) -> Option<ProfileView> {
    match service.profile {
        Some(p) => lookup(profiles, p),
        None => None,
    }
}

/// The targets of a service: its own where it names any, else its profile's.
pub open spec fn effective_targets(
    service: ServiceConfigView,
    profile: Option<ProfileView>,
) -> Seq<Seq<char>> {
    if service.targets.len() > 0 {
        service.targets
    } else {
        match profile {
            Some(p) => p.targets,
            None => Seq::empty(),
        }
    }
}

/// The first of `targets`, from position `from` on, that is no destination.
pub open spec fn first_unknown(
    targets: Seq<Seq<char>>,
    destinations: Seq<(Seq<char>, DestinationView)>,
    from: int,
) -> Option<Seq<char>>
    decreases targets.len() - from,
{
    if from < 0 || from >= targets.len() {
        None
    } else if !has_name(destinations, targets[from]) {
        Some(targets[from])
    } else {
        first_unknown(targets, destinations, from + 1)
    }
}

/// The first value that is set, in the order service, profile, default.
pub open spec fn pick<T>(service: Option<T>, profile: Option<T>, global: T) -> T {
    match service {
        Some(v) => v,
        None => match profile {
            Some(v) => v,
            None => global,
        },
    }
}

/// The first list that is not empty, in the order service, profile, default.
pub open spec fn pick_list<T>(service: Seq<T>, profile: Option<Seq<T>>, global: Seq<T>) -> Seq<T> {
    if service.len() > 0 {
        service
    } else {
        match profile {
            Some(p) => if p.len() > 0 {
                p
            } else {
                global
            },
            None => global,
        }
    }
}

/// Why a service is refused, if it is: an unknown profile, no target, an
/// unknown destination, a malformed schedule, looked for in this order.
pub open spec fn service_error(
    name: Seq<char>,
    service: ServiceConfigView,
    config: ConfigView,
) -> Option<ConfigErrorView> {
    let profile = profile_of(service, config.profiles);
    let targets = effective_targets(service, profile);
    if service.profile is Some && profile is None {
        Some(ConfigErrorView::ProfileNotFound(service.profile->0))
    } else if targets.len() == 0 {
        Some(ConfigErrorView::NoTargetsDefined(name))
    } else if first_unknown(targets, config.destinations, 0) is Some {
        Some(ConfigErrorView::DestinationNotFound(first_unknown(targets, config.destinations, 0)->0))
    } else if !schedule_is_valid(service.schedule) {
        Some(ConfigErrorView::InvalidSchedule(name, service.schedule))
    } else {
        None
    }
}

/// The policy of a service: each setting taken from the service, else from
/// its profile, else from the defaults; the notify-on list taken whole.
pub open spec fn merged(
    name: Seq<char>,
    service: ServiceConfigView,
    config: ConfigView,
) -> ResolvedServiceConfigView {
    let profile = profile_of(service, config.profiles);
    ResolvedServiceConfigView {
        name: name,
        enabled: service.enabled,
        description: service.description,
        schedule: service.schedule,
        targets: effective_targets(service, profile),
        timeout_seconds: pick(
            service.timeout_seconds,
            match profile {
                Some(p) => p.timeout_seconds,
                None => None,
            },
            config.global.default_timeout_seconds,
        ),
        retention: RetentionPolicy {
            daily: pick(
                service.retention_daily,
                match profile {
                    Some(p) => p.retention_daily,
                    None => None,
                },
                config.global.retention_daily,
            ),
            weekly: pick(
                service.retention_weekly,
                match profile {
                    Some(p) => p.retention_weekly,
                    None => None,
                },
                config.global.retention_weekly,
            ),
            monthly: pick(
                service.retention_monthly,
                match profile {
                    Some(p) => p.retention_monthly,
                    None => None,
                },
                config.global.retention_monthly,
            ),
            yearly: pick(
                service.retention_yearly,
                match profile {
                    Some(p) => p.retention_yearly,
                    None => None,
                },
                config.global.retention_yearly,
            ),
        },
        notify_on: pick_list(
            service.notify_on,
            match profile {
                Some(p) => Some(p.notify_on),
                None => None,
            },
            config.notifications.notify_on,
        ),
        config: service.config,
    }
}

/// What resolving a service gives: the error that refuses it, or its policy.
pub open spec fn resolve_spec(
    name: Seq<char>,
    service: ServiceConfigView,
    config: ConfigView,
) -> Result<ResolvedServiceConfigView, ConfigErrorView> {
    match service_error(name, service, config) {
        Some(e) => Err(e),
        None => Ok(merged(name, service, config)),
    }
}

/// What resolving the first `n` services gives: the first error, or the
/// policies under the services' names.
pub open spec fn resolve_first(config: ConfigView, n: int) -> Result<
    Seq<(Seq<char>, ResolvedServiceConfigView)>,
    ConfigErrorView,
>
    decreases n,
{
    if n <= 0 || n > config.services.len() {
        Ok(Seq::empty())
    } else {
        match resolve_first(config, n - 1) {
            Err(e) => Err(e),
            Ok(done) => match resolve_spec(
                config.services[n - 1].0,
                config.services[n - 1].1,
                config,
            ) {
                Err(e) => Err(e),
                Ok(r) => Ok(with_entry(done, config.services[n - 1].0, r)),
            },
        }
    }
}

/// What resolving every service gives.
pub open spec fn resolve_all_spec(config: ConfigView) -> Result<
    Seq<(Seq<char>, ResolvedServiceConfigView)>,
    ConfigErrorView,
> {
    resolve_first(config, config.services.len() as int)
}

/// Whether a schedule has exactly five fields.
pub fn schedule_has_five_fields(schedule: &str) -> (b: bool)
    ensures
        b == schedule_is_valid(schedule@),
{
    count_fields(schedule) == SCHEDULE_FIELDS
}

/// The profile that `service` opts into, where it names one that exists.
pub fn find_profile<'a>(service: &ServiceConfig, config: &'a Config) -> (r: Option<&'a Profile>)
    ensures
        r.deep_view() == profile_of(service@, config@.profiles),
{
    match &service.profile {
        Some(p) => config.profiles.find(p.as_str()),
        None => None,
    }
}

/// The targets of a service, considering its profile.
pub fn get_effective_targets(service: &ServiceConfig, config: &Config) -> (r: Vec<String>)
    ensures
        r.deep_view() == effective_targets(service@, profile_of(service@, config@.profiles)),
{
    if service.targets.len() > 0 {
        return clone_strings(&service.targets);
    }
    match find_profile(service, config) {
        Some(p) => clone_strings(&p.targets),
        None => {
            let r: Vec<String> = Vec::new();
            assert(r.deep_view() =~= Seq::<Seq<char>>::empty());
            r
        },
    }
}

/// The first of `targets` that is no destination of `config`.
pub fn find_unknown_target(targets: &Vec<String>, config: &Config) -> (r: Option<String>)
    ensures
        r.deep_view() == first_unknown(targets.deep_view(), config@.destinations, 0),
{
    let mut i: usize = 0;
    while i < targets.len()
        invariant
            i <= targets.len(),
            first_unknown(targets.deep_view(), config@.destinations, 0) == first_unknown(
                targets.deep_view(),
                config@.destinations,
                i as int,
            ),
        decreases targets.len() - i,
    {
        if !config.destinations.has(targets[i].as_str()) {
            return Some(targets[i].clone());
        }
        i = i + 1;
    }
    None
}

/// Checks one service: its profile exists, it has a target, each target is a
/// destination, and its schedule has five fields.
pub fn validate_service(name: &str, service: &ServiceConfig, config: &Config) -> (r: Result<
    (),
    ConfigError,
>)
    ensures
        match r {
            Ok(_) => service_error(name@, service@, config@) is None,
            Err(e) => service_error(name@, service@, config@) == Some(e@),
        },
{
    let profile = find_profile(service, config);
    if let Some(p) = &service.profile {
        if profile.is_none() {
            return Err(ConfigError::ProfileNotFound(p.clone()));
        }
    }
    let targets = get_effective_targets(service, config);
    if targets.len() == 0 {
        return Err(ConfigError::NoTargetsDefined(name.to_owned()));
    }
    if let Some(missing) = find_unknown_target(&targets, config) {
        return Err(ConfigError::DestinationNotFound(missing));
    }
    if !schedule_has_five_fields(service.schedule.as_str()) {
        return Err(ConfigError::InvalidSchedule(name.to_owned(), service.schedule.clone()));
    }
    Ok(())
}

/// The first of the first `n` services that is refused, with its error.
pub open spec fn first_service_error(config: ConfigView, n: int) -> Option<ConfigErrorView>
    decreases n,
{
    if n <= 0 || n > config.services.len() {
        None
    } else {
        match first_service_error(config, n - 1) {
            Some(e) => Some(e),
            None => service_error(config.services[n - 1].0, config.services[n - 1].1, config),
        }
    }
}

/// Why a configuration is refused, if it is, given whether the password
/// file and the base directory are there: a missing password file, a
/// missing base directory, no destination, a service that is refused,
/// looked for in this order.
pub open spec fn config_error(
    config: ConfigView,
    password_file_exists: bool,
    docker_base_exists: bool,
) -> Option<ConfigErrorView> {
    if !password_file_exists {
        Some(
            ConfigErrorView::ValidationError(
                "Restic password file does not exist: "@ + config.global.restic_password_file,
            ),
        )
    } else if !docker_base_exists {
        Some(
            ConfigErrorView::ValidationError(
                "Docker base directory does not exist: "@ + config.global.docker_base,
            ),
        )
    } else if config.destinations.len() == 0 {
        Some(ConfigErrorView::ValidationError("No destinations defined"@))
    } else {
        first_service_error(config, config.services.len() as int)
    }
}

/// Checks a configuration, the password file and the base directory being
/// there or not as the arguments say.
pub fn validate_config_given(config: &Config, password_file_exists: bool, docker_base_exists: bool) -> (r:
    Result<(), ConfigError>)
    ensures
        match r {
            Ok(_) => config_error(config@, password_file_exists, docker_base_exists) is None,
            Err(e) => config_error(config@, password_file_exists, docker_base_exists) == Some(e@),
        },
{
    if !password_file_exists {
        return Err(
            ConfigError::ValidationError(
                concat2(
                    "Restic password file does not exist: ",
                    config.global.restic_password_file.as_str(),
                ),
            ),
        );
    }
    if !docker_base_exists {
        return Err(
            ConfigError::ValidationError(
                concat2(
                    "Docker base directory does not exist: ",
                    config.global.docker_base.as_str(),
                ),
            ),
        );
    }
    if config.destinations.is_empty() {
        return Err(ConfigError::ValidationError("No destinations defined".to_owned()));
    }
    let mut i: usize = 0;
    while i < config.services.len()
        invariant
            i <= config.services@.len(),
            config@.services.len() == config.services@.len(),
            password_file_exists,
            docker_base_exists,
            config@.destinations.len() > 0,
            first_service_error(config@, i as int) is None,
        decreases config.services@.len() - i,
    {
        let name = config.services.name_at(i);
        let service = config.services.value_at(i);
        assert(config@.services[i as int] == (name@, service@));
        match validate_service(name.as_str(), service, config) {
            Err(e) => {
                proof {
                    lemma_first_service_error(config@, i + 1, config@.services.len() as int);
                }
                return Err(e);
            },
            Ok(_) => {},
        }
        i = i + 1;
    }
    Ok(())
}

/// Checks a configuration, after looking whether the password file and the
/// base directory are there.
pub fn validate_config(config: &Config) -> (r: Result<(), ConfigError>)
    ensures
        match r {
            Ok(_) => config_error(config@, true, true) is None,
            Err(e) => exists|password: bool, base: bool|
                config_error(config@, password, base) == Some(e@),
        },
{
    let password = path_exists(config.global.restic_password_file.as_str());
    let base = path_exists(config.global.docker_base.as_str());
    validate_config_given(config, password, base)
}

/// Once a service is refused, the services after it change nothing.
pub proof fn lemma_first_service_error(config: ConfigView, n: int, m: int)
    requires
        0 <= n <= m <= config.services.len(),
        first_service_error(config, n) is Some,
    ensures
        first_service_error(config, m) == first_service_error(config, n),
    decreases m - n,
{
    if n < m {
        lemma_first_service_error(config, n, m - 1);
    }
}

/// The first value that is set, in the order service, profile, default.
fn pick_u64(service: Option<u64>, profile: Option<u64>, global: u64) -> (r: u64)
    ensures
        r == pick(service, profile, global),
{
    match service {
        Some(v) => v,
        None => match profile {
            Some(v) => v,
            None => global,
        },
    }
}

/// The first value that is set, in the order service, profile, default.
fn pick_u32(service: Option<u32>, profile: Option<u32>, global: u32) -> (r: u32)
    ensures
        r == pick(service, profile, global),
{
    match service {
        Some(v) => v,
        None => match profile {
            Some(v) => v,
            None => global,
        },
    }
}

/// Resolves the policy of one service from its own settings, its profile and
/// the defaults, after checking it as [`validate_service`] does.
pub fn resolve_service(name: &str, service: &ServiceConfig, config: &Config) -> (r: Result<
    ResolvedServiceConfig,
    ConfigError,
>)
    ensures
        match r {
            Ok(v) => resolve_spec(name@, service@, config@) == Ok::<
                ResolvedServiceConfigView,
                ConfigErrorView,
            >(v@),
            Err(e) => resolve_spec(name@, service@, config@) == Err::<
                ResolvedServiceConfigView,
                ConfigErrorView,
            >(e@),
        },
{
    match validate_service(name, service, config) {
        Err(e) => {
            return Err(e);
        },
        Ok(_) => {},
    }
    let profile = find_profile(service, config);
    let targets = get_effective_targets(service, config);
    let (p_timeout, p_daily, p_weekly, p_monthly, p_yearly) = match profile {
        Some(p) => (
            p.timeout_seconds,
            p.retention_daily,
            p.retention_weekly,
            p.retention_monthly,
            p.retention_yearly,
        ),
        None => (None, None, None, None, None),
    };
    let retention = RetentionPolicy {
        daily: pick_u32(service.retention_daily, p_daily, config.global.retention_daily),
        weekly: pick_u32(service.retention_weekly, p_weekly, config.global.retention_weekly),
        monthly: pick_u32(service.retention_monthly, p_monthly, config.global.retention_monthly),
        yearly: pick_u32(service.retention_yearly, p_yearly, config.global.retention_yearly),
    };
    let notify_on = if service.notify_on.len() > 0 {
        clone_events(&service.notify_on)
    } else {
        match profile {
            Some(p) => if p.notify_on.len() > 0 {
                clone_events(&p.notify_on)
            } else {
                clone_events(&config.notifications.notify_on)
            },
            None => clone_events(&config.notifications.notify_on),
        }
    };
    Ok(
        ResolvedServiceConfig {
            name: name.to_owned(),
            enabled: service.enabled,
            description: service.description.clone(),
            schedule: service.schedule.clone(),
            targets,
            timeout_seconds: pick_u64(
                service.timeout_seconds,
                p_timeout,
                config.global.default_timeout_seconds,
            ),
            retention,
            notify_on,
            config: clone_backup(&service.config),
        },
    )
}

/// Resolves every service, in the order of the document. The first service
/// that is refused ends the resolution with its error.
pub fn resolve_all_services(config: &Config) -> (r: Result<
    NameMap<ResolvedServiceConfig>,
    ConfigError,
>)
    ensures
        match r {
            Ok(m) => resolve_all_spec(config@) == Ok::<
                Seq<(Seq<char>, ResolvedServiceConfigView)>,
                ConfigErrorView,
            >(m.deep_view()),
            Err(e) => resolve_all_spec(config@) == Err::<
                Seq<(Seq<char>, ResolvedServiceConfigView)>,
                ConfigErrorView,
            >(e@),
        },
{
    let mut resolved: NameMap<ResolvedServiceConfig> = NameMap::new();
    let mut i: usize = 0;
    assert(resolved.deep_view() =~= Seq::empty());
    while i < config.services.len()
        invariant
            i <= config.services@.len(),
            config@.services.len() == config.services@.len(),
            resolve_first(config@, i as int) == Ok::<
                Seq<(Seq<char>, ResolvedServiceConfigView)>,
                ConfigErrorView,
            >(resolved.deep_view()),
        decreases config.services@.len() - i,
    {
        let name = config.services.name_at(i);
        let service = config.services.value_at(i);
        assert(config@.services[i as int] == (name@, service@));
        match resolve_service(name.as_str(), service, config) {
            Err(e) => {
                proof {
                    lemma_resolve_first_error(config@, i + 1, config@.services.len() as int);
                }
                return Err(e);
            },
            Ok(r) => {
                resolved.put(name.clone(), r);
            },
        }
        i = i + 1;
    }
    Ok(resolved)
}

/// Once a service is refused, the services after it change nothing.
pub proof fn lemma_resolve_first_error(config: ConfigView, n: int, m: int)
    requires
        0 <= n <= m <= config.services.len(),
        resolve_first(config, n) is Err,
    ensures
        resolve_first(config, m) == resolve_first(config, n),
    decreases m - n,
{
    if n < m {
        lemma_resolve_first_error(config, n, m - 1);
    }
}

/// Resolution is a function of what the configuration holds: two services
/// and configurations with the same contents resolve to the same policy or
/// to the same error.
pub proof fn lemma_resolve_deterministic(
    name1: Seq<char>,
    service1: ServiceConfig,
    config1: Config,
    name2: Seq<char>,
    service2: ServiceConfig,
    config2: Config,
)
    requires
        name1 == name2,
        service1@ == service2@,
        config1@ == config2@,
    ensures
        resolve_spec(name1, service1@, config1@) == resolve_spec(name2, service2@, config2@),
{
}

/// A policy always has a target, each target is a destination, and its
/// schedule has five fields.
pub proof fn lemma_resolved_is_valid(name: Seq<char>, service: ServiceConfigView, config: ConfigView)
    requires
        resolve_spec(name, service, config) is Ok,
    ensures
        resolve_spec(name, service, config)->Ok_0.targets.len() >= 1,
        forall|i: int|
            0 <= i < resolve_spec(name, service, config)->Ok_0.targets.len() ==> has_name(
                config.destinations,
                #[trigger] resolve_spec(name, service, config)->Ok_0.targets[i],
            ),
        schedule_is_valid(resolve_spec(name, service, config)->Ok_0.schedule),
        service.profile is Some ==> has_name(config.profiles, service.profile->0),
{
    let targets = effective_targets(service, profile_of(service, config.profiles));
    lemma_first_unknown(targets, config.destinations, 0);
}

/// What `first_unknown` finds is no destination, and every target before it
/// is one.
pub proof fn lemma_first_unknown(
    targets: Seq<Seq<char>>,
    destinations: Seq<(Seq<char>, DestinationView)>,
    from: int,
)
    requires
        0 <= from,
    ensures
        match first_unknown(targets, destinations, from) {
            Some(t) => !has_name(destinations, t) && targets.contains(t),
            None => forall|i: int|
                from <= i < targets.len() ==> has_name(destinations, #[trigger] targets[i]),
        },
    decreases targets.len() - from,
{
    if from < targets.len() && has_name(destinations, targets[from]) {
        lemma_first_unknown(targets, destinations, from + 1);
    }
}

/// Precedence, setting by setting: the service's value wins where it is
/// set; else the profile's where the service opts into one that sets it;
/// else the global default.
pub proof fn lemma_precedence(name: Seq<char>, service: ServiceConfigView, config: ConfigView)
    ensures
        service.retention_daily is Some ==> merged(name, service, config).retention.daily
            == service.retention_daily->0,
        service.retention_daily is None && profile_of(service, config.profiles) is Some
            && profile_of(service, config.profiles)->0.retention_daily is Some ==> merged(
            name,
            service,
            config,
        ).retention.daily == profile_of(service, config.profiles)->0.retention_daily->0,
        service.retention_daily is None && (profile_of(service, config.profiles) is None
            || profile_of(service, config.profiles)->0.retention_daily is None) ==> merged(
            name,
            service,
            config,
        ).retention.daily == config.global.retention_daily,
        service.timeout_seconds is Some ==> merged(name, service, config).timeout_seconds
            == service.timeout_seconds->0,
        service.notify_on.len() > 0 ==> merged(name, service, config).notify_on
            == service.notify_on,
        service.targets.len() > 0 ==> merged(name, service, config).targets == service.targets,
{
}

/// A service that names no target and opts into no profile is refused for
/// its missing targets.
pub proof fn lemma_missing_targets(name: Seq<char>, service: ServiceConfigView, config: ConfigView)
    requires
        service.targets.len() == 0,
        service.profile is None,
    ensures
        resolve_spec(name, service, config) == Err::<ResolvedServiceConfigView, ConfigErrorView>(
            ConfigErrorView::NoTargetsDefined(name),
        ),
{
}

/// A service that opts into a profile that does not exist is refused for
/// that, whatever else it holds.
pub proof fn lemma_unknown_profile(name: Seq<char>, service: ServiceConfigView, config: ConfigView)
    requires
        service.profile is Some,
        !has_name(config.profiles, service.profile->0),
    ensures
        resolve_spec(name, service, config) == Err::<ResolvedServiceConfigView, ConfigErrorView>(
            ConfigErrorView::ProfileNotFound(service.profile->0),
        ),
{
}

/// A service whose schedule does not have five fields is never resolved;
/// where nothing else is wrong with it, it is refused for its schedule.
pub proof fn lemma_invalid_schedule(name: Seq<char>, service: ServiceConfigView, config: ConfigView)
    requires
        !schedule_is_valid(service.schedule),
    ensures
        resolve_spec(name, service, config) is Err,
        (service.profile is Some ==> has_name(config.profiles, service.profile->0))
            && effective_targets(service, profile_of(service, config.profiles)).len() > 0
            && first_unknown(
            effective_targets(service, profile_of(service, config.profiles)),
            config.destinations,
            0,
        ) is None ==> resolve_spec(name, service, config) == Err::<
            ResolvedServiceConfigView,
            ConfigErrorView,
        >(ConfigErrorView::InvalidSchedule(name, service.schedule)),
{
}

/// Where no two services share a name, resolving the first `n` services
/// gives one policy for each of them, under its name and in the order of
/// the document.
pub proof fn lemma_one_policy_for_each_service(config: ConfigView, n: int)
    requires
        0 <= n <= config.services.len(),
        distinct_names(config.services),
        resolve_first(config, n) is Ok,
    ensures
        resolve_first(config, n)->Ok_0.len() == n,
        forall|i: int|
            0 <= i < n ==> (#[trigger] resolve_first(config, n)->Ok_0[i]).0
                == config.services[i].0 && resolve_spec(
                config.services[i].0,
                config.services[i].1,
                config,
            ) == Ok::<ResolvedServiceConfigView, ConfigErrorView>(
                resolve_first(config, n)->Ok_0[i].1,
            ),
    decreases n,
{
    if n > 0 {
        lemma_one_policy_for_each_service(config, n - 1);
        let done = resolve_first(config, n - 1)->Ok_0;
        let name = config.services[n - 1].0;
        lemma_position_from(done, name, 0);
        if position_of(done, name) is Some {
            let i = position_of(done, name)->0;
            assert(done[i].0 == config.services[i].0);
            assert(config.services[i].0 != config.services[n - 1].0);
        }
        let now = resolve_first(config, n)->Ok_0;
        assert forall|i: int| 0 <= i < n implies (#[trigger] now[i]).0 == config.services[i].0
            && resolve_spec(config.services[i].0, config.services[i].1, config) == Ok::<
            ResolvedServiceConfigView,
            ConfigErrorView,
        >(now[i].1) by {
            if i < n - 1 {
                assert(now[i] == done[i]);
            }
        }
    }
}

} // verus!
