//! The lock of a service: at most one backup of a service runs at a time.
//!
//! A [`LockManager`] keeps count of the services that are locked by this
//! process, and never waits: a service that is locked is refused at once.
//! The hold that other processes see is taken on the file that
//! [`lock_path`] names.

use crate::managers::backup::{ExecutionError, ExecutionErrorView};
use crate::text::{concat3, same_text};
use vstd::prelude::*;

verus! {

/// The file that stands for the lock of a service. It depends on the name
/// of the service alone, so that every backup of a service, however it was
/// started, meets the others there.
pub open spec fn lock_path_spec(service: Seq<char>) -> Seq<char> {
    "/tmp/restic-manager-"@ + service + ".lock"@
}

/// The file that stands for the lock of a service.
pub fn lock_path(service_name: &str) -> (r: String)
    ensures
        r@ == lock_path_spec(service_name@),
{
    concat3("/tmp/restic-manager-", service_name, ".lock")
}

/// The lock of a service, held.
#[derive(Debug)]
pub struct BackupLock {
    service: String,
    lock_path: String,
}

impl BackupLock {
    /// The service that is locked.
    pub closed spec fn service_spec(&self) -> Seq<char> {
        self.service@
    }

    /// The file that stands for the lock.
    pub closed spec fn path_spec(&self) -> Seq<char> {
        self.lock_path@
    }

    /// The service that is locked.
    pub fn service(&self) -> (r: &str)
        ensures
            r@ == self.service_spec(),
    {
        self.service.as_str()
    }

    /// The file that stands for the lock.
    pub fn path(&self) -> (r: &str)
        ensures
            r@ == self.path_spec(),
    {
        self.lock_path.as_str()
    }
}

/// No service is held twice.
pub open spec fn held_once(held: Seq<Seq<char>>) -> bool {
    forall|i: int, j: int| 0 <= i < j < held.len() ==> held[i] != held[j]
}

/// The first `n` of the held services, without `service`.
pub open spec fn without(held: Seq<Seq<char>>, service: Seq<char>, n: int) -> Seq<Seq<char>>
    decreases n,
{
    if n <= 0 || n > held.len() {
        Seq::empty()
    } else if held[n - 1] == service {
        without(held, service, n - 1)
    } else {
        without(held, service, n - 1).push(held[n - 1])
    }
}

/// The held services after the lock of `service` was given back.
pub open spec fn released(held: Seq<Seq<char>>, service: Seq<char>) -> Seq<Seq<char>> {
    without(held, service, held.len() as int)
}

/// The held services after `service` asked for its lock: the same where it
/// is held already, else with `service` added.
pub open spec fn acquired(held: Seq<Seq<char>>, service: Seq<char>) -> Seq<Seq<char>> {
    if held.contains(service) {
        held
    } else {
        held.push(service)
    }
}

/// The services whose lock is held by this process.
pub struct LockManager {
    held: Vec<String>,
}

impl View for LockManager {
    type V = Seq<Seq<char>>;

    closed spec fn view(&self) -> Seq<Seq<char>> {
        self.held.deep_view()
    }
}

impl LockManager {
    /// A manager that holds no lock.
    pub fn new() -> (r: Self)
        ensures
            r@ == Seq::<Seq<char>>::empty(),
    {
        let r = LockManager { held: Vec::new() };
        assert(r@ =~= Seq::<Seq<char>>::empty());
        r
    }

    /// Whether the lock of `service_name` is held.
    pub fn is_held(&self, service_name: &str) -> (r: bool)
        ensures
            r == self@.contains(service_name@),
    {
        let mut i: usize = 0;
        while i < self.held.len()
            invariant
                i <= self.held@.len(),
                forall|j: int| 0 <= j < i ==> self@[j] != service_name@,
            decreases self.held@.len() - i,
        {
            assert(self@[i as int] == self.held@[i as int]@);
            if same_text(self.held[i].as_str(), service_name) {
                return true;
            }
            i = i + 1;
        }
        false
    }

    /// Takes the lock of a service, without waiting. A service whose lock
    /// is held is refused as busy, and nothing changes.
    pub fn acquire(&mut self, service_name: &str) -> (r: Result<BackupLock, ExecutionError>)
        ensures
            final(self)@ == acquired(old(self)@, service_name@),
            match r {
                Ok(lock) => !old(self)@.contains(service_name@) && lock.service_spec()
                    == service_name@ && lock.path_spec() == lock_path_spec(service_name@),
                Err(e) => old(self)@.contains(service_name@) && e@
                    == ExecutionErrorView::ServiceBusy(service_name@),
            },
            held_once(old(self)@) ==> held_once(final(self)@),
    {
        if self.is_held(service_name) {
            return Err(ExecutionError::ServiceBusy(service_name.to_owned()));
        }
        let ghost before = self@;
        self.held.push(service_name.to_owned());
        assert(self@ =~= before.push(service_name@));
        Ok(BackupLock { service: service_name.to_owned(), lock_path: lock_path(service_name) })
    }

    /// Gives a lock back: its service is held no longer.
    pub fn release(&mut self, lock: BackupLock)
        ensures
            final(self)@ == released(old(self)@, lock.service_spec()),
            !final(self)@.contains(lock.service_spec()),
            held_once(old(self)@) ==> held_once(final(self)@),
    {
        let mut kept: Vec<String> = Vec::new();
        let mut i: usize = 0;
        assert(kept.deep_view() =~= Seq::<Seq<char>>::empty());
        while i < self.held.len()
            invariant
                i <= self.held@.len(),
                kept.deep_view() == without(self@, lock.service_spec(), i as int),
            decreases self.held@.len() - i,
        {
            assert(self@[i as int] == self.held@[i as int]@);
            if !same_text(self.held[i].as_str(), lock.service.as_str()) {
                let ghost before = kept.deep_view();
                kept.push(self.held[i].clone());
                assert(kept.deep_view() =~= before.push(self.held@[i as int]@));
            }
            i = i + 1;
        }
        proof {
            lemma_without(self@, lock.service_spec(), self@.len() as int);
        }
        self.held = kept;
    }
}

/// `s` is one of the first `n` of `held`.
pub open spec fn among(held: Seq<Seq<char>>, n: int, s: Seq<char>) -> bool {
    exists|m: int| 0 <= m < n && #[trigger] held[m] == s
}

/// What is left after a release: the other services, each of them, and not
/// the one that was released.
pub proof fn lemma_without(held: Seq<Seq<char>>, service: Seq<char>, n: int)
    requires
        0 <= n <= held.len(),
    ensures
        !without(held, service, n).contains(service),
        forall|k: int|
            0 <= k < without(held, service, n).len() ==> among(
                held,
                n,
                #[trigger] without(held, service, n)[k],
            ),
        forall|m: int|
            0 <= m < n && held[m] != service ==> without(held, service, n).contains(
                #[trigger] held[m],
            ),
        held_once(held) ==> held_once(without(held, service, n)),
    decreases n,
{
    if n > 0 {
        lemma_without(held, service, n - 1);
        let before = without(held, service, n - 1);
        let now = without(held, service, n);
        assert forall|k: int| 0 <= k < now.len() implies among(held, n, #[trigger] now[k]) by {
            if k < before.len() {
                assert(now[k] == before[k]);
                assert(among(held, n - 1, before[k]));
                let m = choose|m: int| 0 <= m < n - 1 && #[trigger] held[m] == before[k];
                assert(0 <= m < n && held[m] == now[k]);
            } else {
                assert(held[n - 1] == now[k]);
            }
        }
        assert forall|m: int| 0 <= m < n && held[m] != service implies now.contains(
            #[trigger] held[m],
        ) by {
            if m < n - 1 {
                assert(before.contains(held[m]));
                let k = choose|k: int| 0 <= k < before.len() && before[k] == held[m];
                assert(now[k] == held[m]);
            } else {
                assert(now[now.len() - 1] == held[m]);
            }
        }
        if now.contains(service) {
            let k = choose|k: int| 0 <= k < now.len() && now[k] == service;
            if k < before.len() {
                assert(before[k] == service);
                assert(before.contains(service));
            }
        }
        if held_once(held) {
            assert forall|i: int, j: int| 0 <= i < j < now.len() implies now[i] != now[j] by {
                if held[n - 1] != service && j == now.len() - 1 {
                    assert(now[i] == before[i]);
                    assert(among(held, n - 1, before[i]));
                    let m = choose|m: int| 0 <= m < n - 1 && #[trigger] held[m] == before[i];
                    assert(held[m] != held[n - 1]);
                } else {
                    assert(now[i] == before[i] && now[j] == before[j]);
                }
            }
        }
    }
}

/// Mutual exclusion. While the lock of a service is held, asking for it
/// again is refused and changes nothing; once it is given back, asking for
/// it succeeds.
pub proof fn lemma_mutual_exclusion(held: Seq<Seq<char>>, service: Seq<char>)
    ensures
        acquired(held, service).contains(service),
        acquired(acquired(held, service), service) == acquired(held, service),
        !released(acquired(held, service), service).contains(service),
        acquired(released(acquired(held, service), service), service) == released(
            acquired(held, service),
            service,
        ).push(service),
{
    let first = acquired(held, service);
    if !held.contains(service) {
        assert(first[held.len() as int] == service);
    }
    lemma_without(first, service, first.len() as int);
}

} // verus!
