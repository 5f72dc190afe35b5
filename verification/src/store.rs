//! Lazily filled stores of derived resources, with one slot per value type.
//!
//! The backend store lives as long as a GPU backend and may be shared by
//! several compositors. The render store belongs to one compositor.

use crate::pipeline::RenderPipelineData;
use fn_store::{AtomicFnStore, LocalFnStore};
use vstd::prelude::*;

verus! {

/// The lock-guarded store of `fn_store`, whose contents stay hidden.
#[verifier::external_type_specification]
#[verifier::external_body]
pub struct ExAtomicFnStore<'a>(AtomicFnStore<'a>);

/// The single-threaded store of `fn_store`, whose contents stay hidden.
#[verifier::external_type_specification]
#[verifier::external_body]
pub struct ExLocalFnStore<'a>(LocalFnStore<'a>);

/// `AtomicFnStore::new`: a store without values.
#[verifier::external_body]
fn atomic_store_new() -> AtomicFnStore<'static> {
    AtomicFnStore::new()
}

/// `LocalFnStore::new`: a store without values.
#[verifier::external_body]
fn local_store_new() -> LocalFnStore<'static> {
    LocalFnStore::new()
}

/// Values memoised for a GPU backend.
#[derive(Debug)]
pub struct BackendData(AtomicFnStore<'static>);

impl BackendData {
    pub fn new() -> Self {
        BackendData(atomic_store_new())
    }

    /// Access to the stored values.
    pub fn as_ref<'a>(&'a self) -> (store: BackendFnStore<'a>)
        ensures
            store.data() == self,
    {
        BackendFnStore { store: &self.0 }
    }
}

impl Default for BackendData {
    fn default() -> Self {
        Self::new()
    }
}

/// Values memoised for one compositor.
#[derive(Debug)]
pub struct RenderData(LocalFnStore<'static>);

impl RenderData {
    pub fn new() -> Self {
        RenderData(local_store_new())
    }

    /// Access to the stored values, next to the backend's values and the
    /// description of the render target.
    pub fn as_ref<'a>(
        &'a self,
        backend: BackendFnStore<'a>,
        pipeline: &'a RenderPipelineData,
    ) -> (store: RenderFnStore<'a>)
        ensures
            store.backend_spec() == backend,
            store.pipeline_spec() == pipeline,
            store.data() == self,
    {
        RenderFnStore { backend, pipeline, store: &self.0 }
    }
}

impl Default for RenderData {
    fn default() -> Self {
        Self::new()
    }
}

/// Shared handle to the values memoised for a GPU backend.
#[derive(Debug, Clone, Copy)]
pub struct BackendFnStore<'a> {
    store: &'a AtomicFnStore<'static>,
}

impl<'a> BackendFnStore<'a> {
    /// The values that this handle gives access to.
    pub closed spec fn data(&self) -> &BackendData {
        &BackendData(*self.store)
    }

    /// The stored value of type `T`. The first request for a type computes
    /// the value with `func` and keeps it; every later request for that type
    /// returns the kept value and leaves its `func` uncalled.
    ///
    /// This hands `AtomicFnStore::get` a computation whose type is fixed by
    /// `T` alone, which is what the store tells its slots apart by. Nothing
    /// is claimed of the value: the store changes behind a shared reference,
    /// which no contract here can speak of. `func` must not ask this store
    /// for `T` again, and requests from several threads for a type that is
    /// not stored yet are not ordered by the store.
    #[verifier::external_body]
    pub fn get<T: Sync + Send + 'static>(&self, func: impl FnOnce(&Self) -> T) -> (value: &'a T)
        requires
            call_requires(func, (self,)),
    {
        let compute: Box<dyn FnOnce() -> T + '_> = Box::new(|| func(self));
        self.store.get(compute)
    }
}

/// Handle to the values memoised for one compositor.
#[derive(Debug, Clone, Copy)]
pub struct RenderFnStore<'a> {
    backend: BackendFnStore<'a>,
    pipeline: &'a RenderPipelineData,
    store: &'a LocalFnStore<'static>,
}

impl<'a> RenderFnStore<'a> {
    pub closed spec fn backend_spec(&self) -> BackendFnStore<'a> {
        self.backend
    }

    pub closed spec fn pipeline_spec(&self) -> &'a RenderPipelineData {
        self.pipeline
    }

    /// The values that this handle gives access to.
    pub closed spec fn data(&self) -> &RenderData {
        &RenderData(*self.store)
    }

    /// The backend's values.
    pub fn backend(&self) -> (backend: &BackendFnStore<'a>)
        ensures
            *backend == self.backend_spec(),
    {
        &self.backend
    }

    /// The description of the render target.
    pub fn pipeline(&self) -> (pipeline: &'a RenderPipelineData)
        ensures
            pipeline == self.pipeline_spec(),
    {
        self.pipeline
    }

    /// The stored value of type `T`. The first request for a type computes
    /// the value with `func` and keeps it; every later request for that type
    /// returns the kept value and leaves its `func` uncalled.
    ///
    /// This hands `LocalFnStore::get` a computation whose type is fixed by
    /// `T` alone, which is what the store tells its slots apart by. Nothing
    /// is claimed of the value: the store changes behind a shared reference,
    /// which no contract here can speak of. `func` must not ask this store
    /// for `T` again.
    #[verifier::external_body]
    pub fn get<T: Send + 'static>(&self, func: impl FnOnce(&Self) -> T) -> (value: &'a T)
        requires
            call_requires(func, (self,)),
    {
        let compute: Box<dyn FnOnce() -> T + '_> = Box::new(|| func(self));
        self.store.get(compute)
    }
}

} // verus!
