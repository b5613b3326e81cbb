//! Configuration: the authored document, its validation and the resolution
//! of each service's policy.

pub mod loader;
pub mod types;

pub use crate::config::loader::{
    resolve_all_services, resolve_service, validate_config, validate_service, ConfigError,
};
pub use crate::config::types::{
    BackupConfig, Config, Destination, DestinationType, GlobalConfig, Hook, NotificationConfig,
    NotifyEvent, Profile, ResolvedServiceConfig, RetentionPolicy, ServiceConfig,
};

use crate::config::types::{GlobalConfigView, ResolvedServiceConfigView};
use crate::utils::host::home_dir;
use crate::utils::paths::{join, join_spec};
use vstd::prelude::*;

verus! {

/// The exclusion patterns in force for a service: the global ones, followed
/// by the service's own.
pub open spec fn effective_excludes(
    service: ResolvedServiceConfigView,
    global: GlobalConfigView,
) -> Seq<Seq<char>> {
    global.default_excludes + match service.config {
        Some(c) => c.excludes,
        None => Seq::empty(),
    }
}

/// The exclusion patterns in force for a service.
pub fn get_effective_excludes(service: &ResolvedServiceConfig, global: &GlobalConfig) -> (r: Vec<
    String,
>)
    ensures
        r.deep_view() == effective_excludes(service@, global@),
{
    let mut r: Vec<String> = Vec::new();
    let mut i: usize = 0;
    while i < global.default_excludes.len()
        invariant
            i <= global.default_excludes@.len(),
            r.deep_view() == global.default_excludes.deep_view().subrange(0, i as int),
        decreases global.default_excludes@.len() - i,
    {
        let ghost before = r.deep_view();
        r.push(global.default_excludes[i].clone());
        assert(r.deep_view() =~= before.push(global.default_excludes@[i as int]@));
        assert(r.deep_view() =~= global.default_excludes.deep_view().subrange(0, i + 1));
        i = i + 1;
    }
    assert(r.deep_view() =~= global.default_excludes.deep_view());
    match &service.config {
        Some(c) => {
            let mut j: usize = 0;
            while j < c.excludes.len()
                invariant
                    j <= c.excludes@.len(),
                    r.deep_view() == global.default_excludes.deep_view()
                        + c.excludes.deep_view().subrange(0, j as int),
                decreases c.excludes@.len() - j,
            {
                let ghost before = r.deep_view();
                r.push(c.excludes[j].clone());
                assert(r.deep_view() =~= before.push(c.excludes@[j as int]@));
                assert(r.deep_view() =~= global.default_excludes.deep_view()
                    + c.excludes.deep_view().subrange(0, j + 1));
                j = j + 1;
            }
            assert(c.excludes.deep_view().subrange(0, c.excludes@.len() as int)
                =~= c.excludes.deep_view());
        },
        None => {
            assert(r.deep_view() =~= global.default_excludes.deep_view() + Seq::<
                Seq<char>,
            >::empty());
        },
    }
    r
}

/// The position of the first character of `path`, from `from` on, that is
/// no separator.
pub open spec fn skip_separators(path: Seq<char>, from: int) -> int
    decreases path.len() - from,
{
    if from < 0 || from >= path.len() || path[from] != '/' {
        from
    } else {
        skip_separators(path, from + 1)
    }
}

/// `path` with a leading `~` replaced by the home directory: `~` alone is
/// the home directory, `~/rest` is `rest` under it. Any other path, and any
/// path where no home directory is known, stays as it is.
pub open spec fn expand_tilde_spec(path: Seq<char>, home: Option<Seq<char>>) -> Seq<char> {
    match home {
        Some(h) => if path.len() >= 1 && path[0] == '~' && (path.len() == 1 || path[1] == '/') {
            let rest = path.subrange(skip_separators(path, 1), path.len() as int);
            if rest.len() == 0 {
                h
            } else {
                join_spec(h, rest)
            }
        } else {
            path
        },
        None => path,
    }
}

/// `path` with a leading `~` replaced by `home`.
pub fn expand_tilde_in(path: &str, home: Option<&str>) -> (r: String)
    ensures
        r@ == expand_tilde_spec(path@, home.deep_view()),
{
    let h = match home {
        Some(h) => h,
        None => {
            return path.to_owned();
        },
    };
    let n = path.unicode_len();
    if n >= 1 && path.get_char(0) == '~' && (n == 1 || path.get_char(1) == '/') {
        let mut from: usize = 1;
        while from < n && path.get_char(from) == '/'
            invariant
                1 <= from <= n,
                n == path@.len(),
                skip_separators(path@, 1) == skip_separators(path@, from as int),
            decreases n - from,
        {
            from = from + 1;
        }
        if from == n {
            assert(path@.subrange(from as int, n as int).len() == 0);
            h.to_owned()
        } else {
            join(h, path.substring_char(from, n))
        }
    } else {
        path.to_owned()
    }
}

/// `path` with a leading `~` replaced by the home directory that the
/// machine reports.
pub fn expand_tilde(path: &str) -> (r: String)
    ensures
        exists|home: Option<Seq<char>>| r@ == expand_tilde_spec(path@, home),
{
    let home = home_dir();
    let r = match &home {
        Some(h) => expand_tilde_in(path, Some(h.as_str())),
        None => expand_tilde_in(path, None),
    };
    assert(r@ == expand_tilde_spec(path@, home.deep_view()));
    r
}

} // verus!
