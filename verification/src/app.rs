//! The application context that every handler call shares.

use vstd::prelude::*;
use futures_cpupool::CpuPool;
use crate::config::ZirconConfig;

verus! {

/// `futures_cpupool::CpuPool`: the pool of worker threads, carried as it is.
#[verifier::external_type_specification]
#[verifier::external_body]
pub struct ExCpuPool(CpuPool);

/// What the server asks of the value that all handler calls share.
pub trait ZirconApp: Send + Sync + 'static {
    /// Returns the number of accept threads.
    fn num_accept_threads(&self) -> usize;

    /// Returns the number of cpu threads.
    fn num_cpu_threads(&self) -> usize;

    /// Returns the internal cpu pool (not for accept threads).
    fn cpu_pool(&self) -> &CpuPool;
}

/// The context most applications use: the configuration, a pool for
/// blocking work, and data of the application's own.
pub struct ZirconDefaultApp<D: Send + Sync + 'static> {
    pub config: ZirconConfig,
    pub cpu_pool: CpuPool,
    pub server_data: D,
}

impl<D: Send + Sync + 'static> ZirconDefaultApp<D> {
    /// The context of a configuration and a pool made for it, without data.
    pub fn from_config(config: ZirconConfig, cpu_pool: CpuPool) -> (app: ZirconDefaultApp<()>)
        ensures
            app.config == config,
            app.cpu_pool == cpu_pool,
    {
        ZirconDefaultApp { config: config, cpu_pool: cpu_pool, server_data: () }
    }

    /// The same context with other data.
    pub fn with_server_data<D2: Send + Sync + 'static>(self, data: D2) -> (app: ZirconDefaultApp<D2>)
        ensures
            app.config == self.config,
            app.cpu_pool == self.cpu_pool,
            app.server_data == data,
    {
        ZirconDefaultApp { config: self.config, cpu_pool: self.cpu_pool, server_data: data }
    }
}

impl<D: Send + Sync + 'static> ZirconApp for ZirconDefaultApp<D> {
    fn num_accept_threads(&self) -> (n: usize)
        ensures
            n == self.config.num_accept_threads(),
    {
        self.config.num_accept_threads()
    }

    fn num_cpu_threads(&self) -> (n: usize)
        ensures
            n == self.config.num_cpu_threads(),
    {
        self.config.num_cpu_threads()
    }

    fn cpu_pool(&self) -> (pool: &CpuPool)
        ensures
            *pool == self.cpu_pool,
    {
        &self.cpu_pool
    }
}

} // verus!
