//! The host descriptor: owned copies of the host-provided initialization
//! table and metadata, and the registration entry points built on them.
//!
//! The host hands its tables over at module load; the embedding program
//! validates and dereferences the raw memory once and converts it into the
//! owned types here, so everything below this boundary is plain values.

use vstd::prelude::*;

use crate::engine::EngineCallbacks;
use crate::errors::{LoggerError, SqFunctionError};
use crate::nslog::{LoggerBridge, LoggerInstallation};
use crate::squirrel::{is_bridge_registration, SQFuncRegistration, SqFunctionRegistry};

verus! {

/// Owned copy of the host's initialization-function table. Only the logging
/// function is read by this bridge; `L` is its payload type.
pub struct PluginInitFuncs<L> {
    /// The host's logging function.
    pub logger: L,
}

/// Owned copy of the host's plugin metadata.
pub struct PluginNorthstarData {
    /// The engine version byte, read from the host's live version pointer at
    /// conversion time.
    pub version: i8,
    /// Identity the host assigned to this plugin; fixed for the process.
    pub plugin_handle: i32,
}

/// The host descriptor: what the plugin keeps of the data the host passed at
/// module load, plus the registration operations the plugin exposes.
pub struct PluginData<L> {
    plugin_init_funcs: PluginInitFuncs<L>,
    plugin_northstar_data: PluginNorthstarData,
}

impl<L> PluginData<L> {
    /// The host's logging function, as copied at construction.
    pub closed spec fn spec_logger(&self) -> L {
        self.plugin_init_funcs.logger
    }

    /// The engine version byte, as copied at construction.
    pub closed spec fn spec_version(&self) -> i8 {
        self.plugin_northstar_data.version
    }

    /// The plugin handle, as copied at construction.
    pub closed spec fn spec_plugin_handle(&self) -> i32 {
        self.plugin_northstar_data.plugin_handle
    }

    /// Builds the descriptor from the already-converted host tables. Both
    /// structs are moved in and owned from here on; the host's original
    /// memory may be freed or reused afterwards.
    pub fn new(
        plugin_init_funcs: PluginInitFuncs<L>,
        plugin_northstar_data: PluginNorthstarData,
    ) -> (r: Self)
        ensures
            r.spec_logger() == plugin_init_funcs.logger,
            r.spec_version() == plugin_northstar_data.version,
            r.spec_plugin_handle() == plugin_northstar_data.plugin_handle,
    {
        PluginData { plugin_init_funcs, plugin_northstar_data }
    }

    /// Wires the host's logging function and this plugin's handle into the
    /// logger bridge, exactly once per process. A first call succeeds; any
    /// later call fails with [`LoggerError::LoggerAlreadyInitialized`] and
    /// leaves the earlier installation untouched.
    pub fn try_init_logger(&self, bridge: &mut LoggerBridge<L>) -> (r: Result<(), LoggerError>)
        where
            L: Copy,
        ensures
            old(bridge).spec_installation() is Some ==> {
                &&& r == Err::<(), LoggerError>(LoggerError::LoggerAlreadyInitialized)
                &&& final(bridge).spec_installation() == old(bridge).spec_installation()
            },
            old(bridge).spec_installation() is None ==> {
                &&& r == Ok::<(), LoggerError>(())
                &&& final(bridge).spec_installation() == Some(
                    LoggerInstallation {
                        logger: self.spec_logger(),
                        plugin_handle: self.spec_plugin_handle(),
                    },
                )
            },
    {
        bridge.try_init(self.plugin_init_funcs.logger, self.plugin_northstar_data.plugin_handle)
    }

    /// Like [`Self::try_init_logger`], for the single startup call site that
    /// guarantees no earlier installation: failure is ruled out up front
    /// instead of being returned.
    pub fn init_logger(&self, bridge: &mut LoggerBridge<L>)
        where
            L: Copy,
        requires
            old(bridge).spec_installation() is None,
        ensures
            final(bridge).spec_installation() == Some(
                LoggerInstallation {
                    logger: self.spec_logger(),
                    plugin_handle: self.spec_plugin_handle(),
                },
            ),
    {
        let _ = self.try_init_logger(bridge);
    }

    /// The engine version byte the host advertised.
    pub fn get_northstar_version(&self) -> (r: i8)
        ensures
            r == self.spec_version(),
    {
        self.plugin_northstar_data.version
    }

    /// The integer identity the host assigned to this plugin at construction.
    pub fn get_plugin_handle(&self) -> (r: i32)
        ensures
            r == self.spec_plugin_handle(),
    {
        self.plugin_northstar_data.plugin_handle
    }

    /// Registers a callback to run at engine load, without blocking. If the
    /// registry's lock is free the callback is appended after all earlier
    /// registrations and `true` comes back. If the lock is held by another
    /// operation the callback is dropped, the registry stays exactly as it
    /// was, and `false` comes back so the caller can log the loss: a
    /// deliberate lossy policy, not an error.
    pub fn add_engine_load_callback<C>(
        &self,
        engine_callbacks: &mut EngineCallbacks<C>,
        callback: C,
    ) -> (added: bool)
        ensures
            old(engine_callbacks).is_locked() ==> {
                &&& !added
                &&& final(engine_callbacks)@ == old(engine_callbacks)@
                &&& final(engine_callbacks).is_locked()
            },
            !old(engine_callbacks).is_locked() ==> {
                &&& added
                &&& final(engine_callbacks)@ == old(engine_callbacks)@.push(callback)
                &&& !final(engine_callbacks).is_locked()
            },
    {
        if engine_callbacks.try_lock() {
            engine_callbacks.add_callback(callback);
            engine_callbacks.unlock();
            true
        } else {
            false
        }
    }

    /// Builds the bridge's script-function descriptor around `func` and
    /// pushes it into the registry, without blocking. If the registry's lock
    /// is held by another operation the call returns
    /// [`SqFunctionError::LockedSqFunctionVec`] and mutates nothing, not even
    /// partially; otherwise the descriptor lands after all earlier entries
    /// and the call succeeds.
    pub fn register_sq_functions<F>(
        &self,
        registry: &mut SqFunctionRegistry<F>,
        func: F,
    ) -> (r: Result<(), SqFunctionError>)
        ensures
            old(registry).is_locked() ==> {
                &&& r == Err::<(), SqFunctionError>(SqFunctionError::LockedSqFunctionVec)
                &&& final(registry)@ == old(registry)@
                &&& final(registry).is_locked()
            },
            !old(registry).is_locked() ==> {
                &&& r == Ok::<(), SqFunctionError>(())
                &&& final(registry)@.len() == old(registry)@.len() + 1
                &&& final(registry)@.subrange(0, old(registry)@.len() as int) == old(
                    registry,
                )@
                &&& is_bridge_registration(
                    final(registry)@[old(registry)@.len() as int],
                    func,
                )
                &&& !final(registry).is_locked()
            },
    {
        if registry.try_lock() {
            let registration = SQFuncRegistration::bridge_registration(func);
            registry.push(registration);
            registry.unlock();
            proof {
                assert(registry@.subrange(0, old(registry)@.len() as int) =~= old(registry)@);
            }
            Ok(())
        } else {
            Err(SqFunctionError::LockedSqFunctionVec)
        }
    }
}

} // verus!
