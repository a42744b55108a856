//! Setting up the block data service.
//!
//! The service is reached through two handles: one for the pool of workers
//! that read, one for the single worker that writes. Both are made by one
//! call of [`init`], from a store that is open already, and both serve
//! that one store.

use std::sync::Arc;
use vstd::prelude::*;

verus! {

/// How the service is to be set up.
#[derive(Clone, Copy, Debug, PartialEq, Eq, Structural)]
pub struct Config {
    /// Number of workers that answer reads.
    pub reader_threads: usize,
}

/// The way to the workers that read.
pub struct DatabaseReadHandle<D> {
    store: Arc<D>,
    reader_threads: usize,
}

/// The way to the worker that writes.
pub struct DatabaseWriteHandle<D> {
    store: Arc<D>,
}

impl<D> DatabaseReadHandle<D> {
    /// The store that the readers read.
    pub closed spec fn spec_store(&self) -> &D {
        &*self.store
    }

    /// The number of readers.
    pub closed spec fn spec_reader_threads(&self) -> usize {
        self.reader_threads
    }

    /// The store that the readers read.
    #[verifier::when_used_as_spec(spec_store)]
    pub fn store(&self) -> (store: &D)
        ensures
            store == self.spec_store(),
    {
        &*self.store
    }

    /// The number of readers.
    #[verifier::when_used_as_spec(spec_reader_threads)]
    pub fn reader_threads(&self) -> (count: usize)
        ensures
            count == self.spec_reader_threads(),
    {
        self.reader_threads
    }
}

impl<D> DatabaseWriteHandle<D> {
    /// The store that the writer writes to.
    pub closed spec fn spec_store(&self) -> &D {
        &*self.store
    }

    /// The store that the writer writes to.
    #[verifier::when_used_as_spec(spec_store)]
    pub fn store(&self) -> (store: &D)
        ensures
            store == self.spec_store(),
    {
        &*self.store
    }
}

/// `Arc::clone` of std: a second pointer to the value that `store` points
/// to. The value itself is not copied.
#[verifier::external_body]
fn share<D>(store: &Arc<D>) -> (other: Arc<D>)
    ensures
        *other == **store,
{
    Arc::clone(store)
}

/// Makes the two handles of the service from the outcome of opening the
/// store. Where opening failed its error is handed on and nothing is set
/// up. Where it succeeded, the readers get as many workers as `config`
/// asks for, and readers and writer serve the store that was opened.
pub fn init<D, E>(config: Config, opened: Result<D, E>) -> (handles: Result<
    (DatabaseReadHandle<D>, DatabaseWriteHandle<D>),
    E,
>)
    ensures
        match opened {
            Ok(store) => handles matches Ok((readers, writer)) && readers.store() == store
                && readers.reader_threads() == config.reader_threads && writer.store() == store,
            Err(error) => handles == Err::<(DatabaseReadHandle<D>, DatabaseWriteHandle<D>), E>(error),
        },
{
    let reader_threads = config.reader_threads;
    match opened {
        Ok(store) => {
            let store = Arc::new(store);
            let readers = DatabaseReadHandle { store: share(&store), reader_threads };
            let writer = DatabaseWriteHandle { store };
            Ok((readers, writer))
        },
        Err(error) => Err(error),
    }
}

} // verus!
