//! The registry store: the snapshot in use, shared behind one reader-writer
//! lock, and the handle of its background refresh, if one was launched.
use vstd::prelude::*;

use std::sync::Arc;

use tokio::sync::RwLock;
use tokio::task::JoinHandle;

use crate::registry::DependencyRegistryData;

verus! {

/// `tokio::task::JoinHandle`, the handle of a spawned task; opaque here.
#[verifier::external_type_specification]
#[verifier::external_body]
#[verifier::reject_recursive_types(T)]
pub struct ExJoinHandle<T>(JoinHandle<T>);

/// `tokio::task::JoinError`, which awaiting a handle may give; opaque here.
#[verifier::external_type_specification]
#[verifier::external_body]
pub struct ExJoinError(tokio::task::JoinError);

/// `tokio::sync::RwLock`, which guards the snapshot; opaque here.
#[verifier::external_type_specification]
#[verifier::external_body]
#[verifier::reject_recursive_types(T)]
pub struct ExRwLock<T: ?Sized>(RwLock<T>);

/// Relies on `tokio::task::JoinHandle::is_finished`, which reports whether the
/// task has completed; nothing is stated of it, as it depends on timing.
pub assume_specification<T>[ JoinHandle::<T>::is_finished ](handle: &JoinHandle<T>) -> bool;

/// Relies on `tokio::task::JoinHandle::abort`, which asks the runtime to
/// cancel the task and returns at once.
pub assume_specification<T>[ JoinHandle::<T>::abort ](handle: &JoinHandle<T>);

/// Relies on `Arc::clone`, which makes another pointer to the same
/// allocation: the clone is the same lock.
#[verifier::external_body]
fn share_lock(data: &Arc<RwLock<DependencyRegistryData>>) -> (r: Arc<RwLock<DependencyRegistryData>>)
    ensures
        r == *data,
{
    Arc::clone(data)
}

pub struct DependencyRegistry {
    data: Arc<RwLock<DependencyRegistryData>>,
    offline: bool,
    refresh_handle: Option<JoinHandle<()>>,
}

impl DependencyRegistry {
    /// Whether the store was made for offline use.
    pub closed spec fn is_offline(&self) -> bool {
        self.offline
    }

    /// Whether this handle owns a launched refresh.
    pub closed spec fn owns_refresh(&self) -> bool {
        self.refresh() is Some
    }

    /// A store over `data`. Offline, it keeps no refresh: a handle given is
    /// cancelled and dropped.
    pub fn new_loaded(
        data: Arc<RwLock<DependencyRegistryData>>,
        offline: bool,
        refresh_handle: Option<JoinHandle<()>>,
    ) -> (r: Self)
        ensures
            r.is_offline() == offline,
            r.owns_refresh() == (!offline && refresh_handle is Some),
            r.lock() == data,
    {
        if offline {
            if let Some(handle) = &refresh_handle {
                handle.abort();
            }
            DependencyRegistry { data, offline, refresh_handle: None }
        } else {
            DependencyRegistry { data, offline, refresh_handle }
        }
    }

    /// Whether a refresh was launched by this handle and has completed, with
    /// or without success. Always false offline.
    pub fn fresh(&self) -> (r: bool)
        ensures
            !self.owns_refresh() ==> !r,
            self.is_offline() ==> !r,
    {
        if self.offline {
            return false;
        }
        match &self.refresh_handle {
            Some(handle) => handle.is_finished(),
            None => false,
        }
    }

    /// Whether the store was made for offline use.
    pub fn offline(&self) -> (r: bool)
        ensures
            r == self.is_offline(),
    {
        self.offline
    }

    /// The shared lock that guards the snapshot in use.
    pub closed spec fn lock(&self) -> Arc<RwLock<DependencyRegistryData>> {
        self.data
    }

    /// The handle of the refresh this store owns, if any.
    pub closed spec fn refresh(&self) -> Option<JoinHandle<()>> {
        self.refresh_handle
    }

    /// Gives up the refresh this store owns, handing its handle to the
    /// caller: a store going away passes it on to be cancelled.
    pub fn take_refresh(&mut self) -> (r: Option<JoinHandle<()>>)
        ensures
            r == old(self).refresh(),
            !final(self).owns_refresh(),
            final(self).is_offline() == old(self).is_offline(),
            final(self).lock() == old(self).lock(),
    {
        self.refresh_handle.take()
    }

    /// The lock that guards the snapshot in use.
    pub fn data(&self) -> (r: &Arc<RwLock<DependencyRegistryData>>)
        ensures
            *r == self.lock(),
    {
        &self.data
    }

    /// Another handle on the same snapshot. It shares the lock, and so every
    /// snapshot installed through either, but not the refresh, which it
    /// neither repeats nor owns.
    pub fn share(&self) -> (r: Self)
        ensures
            r.is_offline() == self.is_offline(),
            r.lock() == self.lock(),
            !r.owns_refresh(),
    {
        DependencyRegistry { data: share_lock(&self.data), offline: self.offline, refresh_handle: None }
    }
}

} // verus!
