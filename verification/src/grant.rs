//! The per-process state store.
//!
//! The host kernel keeps one driver-specific record per process inside that
//! process's grant region. This module models that store: records keyed by
//! process identifier, reachable only while the process's memory is available.
//! The kernel announces availability through [`GrantStore::add_process`] and
//! reclamation through [`GrantStore::remove_process`]; every access in between
//! is fallible and fails cleanly once the region is gone.

use vstd::prelude::*;

use std::collections::HashMap;

use crate::upcall::Upcall;

verus! {

broadcast use vstd::std_specs::hash::group_hash_axioms;

/// The driver-specific record kept in one process's grant region: exactly the
/// callback that process has registered for comparator events.
#[derive(Clone, Copy, Debug, PartialEq, Eq, Structural)]
pub struct App {
    /// The registered callback descriptor.
    pub callback: Upcall,
}

impl App {
    /// The record a process starts with: no callback registered.
    pub open spec fn inert() -> App {
        App { callback: Upcall { id: 0 } }
    }
}

impl Default for App {
    /// A fresh record with no callback registered.
    fn default() -> (r: Self)
        ensures
            r == App::inert(),
    {
        App { callback: Upcall { id: 0 } }
    }
}

/// The per-process state store, keyed by process identifier. A process is in
/// the domain of the view exactly while its grant region can be entered.
pub struct GrantStore {
    apps: HashMap<u32, App>,
}

impl View for GrantStore {
    type V = Map<u32, App>;

    closed spec fn view(&self) -> Map<u32, App> {
        self.apps@
    }
}

impl GrantStore {
    /// An empty store: no process has interacted with the driver yet.
    pub fn new() -> (r: GrantStore)
        ensures
            r@ == Map::<u32, App>::empty(),
    {
        GrantStore { apps: HashMap::new() }
    }

    /// The kernel reports that `pid`'s grant region is available: the process
    /// gains an inert record, unless it already holds one, which is kept.
    pub fn add_process(&mut self, pid: u32)
        ensures
            old(self)@.contains_key(pid) ==> final(self)@ == old(self)@,
            !old(self)@.contains_key(pid) ==> final(self)@ == old(self)@.insert(pid, App::inert()),
    {
        if !self.apps.contains_key(&pid) {
            self.apps.insert(pid, App { callback: Upcall { id: 0 } });
        }
    }

    /// The kernel reports that `pid`'s grant region was reclaimed: its record,
    /// if any, is gone and later accesses fail.
    pub fn remove_process(&mut self, pid: u32)
        ensures
            final(self)@ == old(self)@.remove(pid),
    {
        self.apps.remove(&pid);
    }

    /// Whether `pid`'s record can currently be entered.
    pub fn can_enter(&self, pid: u32) -> (r: bool)
        ensures
            r == self@.contains_key(pid),
    {
        self.apps.contains_key(&pid)
    }

    /// Read `pid`'s record, failing if its grant region is unavailable.
    pub fn get_app(&self, pid: u32) -> (r: Option<App>)
        ensures
            self@.contains_key(pid) ==> r == Some(self@[pid]),
            !self@.contains_key(pid) ==> r is None,
    {
        match self.apps.get(&pid) {
            Some(app) => Some(*app),
            None => None,
        }
    }

    /// Swap `pid`'s registered callback for `callback`, returning the one it
    /// replaces. Fails, leaving the store unchanged, if `pid`'s grant region
    /// is unavailable.
    pub fn swap_callback(&mut self, pid: u32, callback: Upcall) -> (r: Option<Upcall>)
        ensures
            old(self)@.contains_key(pid) ==> {
                &&& r == Some(old(self)@[pid].callback)
                &&& final(self)@ == old(self)@.insert(pid, (App { callback }))
            },
            !old(self)@.contains_key(pid) ==> {
                &&& r is None
                &&& final(self)@ == old(self)@
            },
    {
        let existing = match self.apps.get(&pid) {
            Some(app) => Some(*app),
            None => None,
        };
        match existing {
            Some(app) => {
                self.apps.insert(pid, App { callback });
                Some(app.callback)
            }
            None => None,
        }
    }
}

} // verus!
