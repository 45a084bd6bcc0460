use rrplug::engine::EngineCallbacks;
use rrplug::errors::{LoggerError, SqFunctionError};
use rrplug::nslog::LoggerBridge;
use rrplug::plugin::{PluginData, PluginInitFuncs, PluginNorthstarData};
use rrplug::squirrel::{SqFunctionRegistry, SqReturnType};

fn descriptor(logger: u64, version: i8, handle: i32) -> PluginData<u64> {
    PluginData::new(
        PluginInitFuncs { logger },
        PluginNorthstarData {
            version,
            plugin_handle: handle,
        },
    )
}

#[test]
fn plugin_handle_is_the_integer_passed_at_construction() {
    let mut host_handle: i32 = 42;
    let pd = descriptor(0, 1, host_handle);
    host_handle = 7;
    assert_eq!(pd.get_plugin_handle(), 42);
    assert_eq!(host_handle, 7);
}

#[test]
fn version_is_copied_at_construction() {
    let pd = descriptor(0, -3, 5);
    assert_eq!(pd.get_northstar_version(), -3);
}

#[test]
fn logger_installs_once_then_fails_without_altering_state() {
    let mut bridge: LoggerBridge<u64> = LoggerBridge::new();
    assert!(bridge.try_init(11, 100).is_ok());
    assert_eq!(
        bridge.try_init(22, 200),
        Err(LoggerError::LoggerAlreadyInitialized)
    );
    let inst = bridge.installation().expect("first installation must persist");
    assert_eq!(inst.logger, 11);
    assert_eq!(inst.plugin_handle, 100);
}

#[test]
fn try_init_logger_records_the_descriptor_values() {
    let pd = descriptor(77, 1, 900);
    let mut bridge: LoggerBridge<u64> = LoggerBridge::new();
    assert!(pd.try_init_logger(&mut bridge).is_ok());
    let second = descriptor(88, 1, 901);
    assert_eq!(
        second.try_init_logger(&mut bridge),
        Err(LoggerError::LoggerAlreadyInitialized)
    );
    let inst = bridge.installation().expect("installation recorded");
    assert_eq!(inst.logger, 77);
    assert_eq!(inst.plugin_handle, 900);
}

#[test]
fn init_logger_installs_on_a_fresh_bridge() {
    let pd = descriptor(5, 0, 60);
    let mut bridge: LoggerBridge<u64> = LoggerBridge::new();
    pd.init_logger(&mut bridge);
    let inst = bridge.installation().expect("installation recorded");
    assert_eq!(inst.logger, 5);
    assert_eq!(inst.plugin_handle, 60);
}

#[test]
fn callbacks_record_in_submission_order_without_contention() {
    let pd = descriptor(0, 1, 1);
    let mut registry: EngineCallbacks<i32> = EngineCallbacks::new();
    assert!(pd.add_engine_load_callback(&mut registry, 10));
    assert!(pd.add_engine_load_callback(&mut registry, 20));
    assert!(pd.add_engine_load_callback(&mut registry, 30));
    assert_eq!(registry.len(), 3);
    assert_eq!(*registry.get(0), 10);
    assert_eq!(*registry.get(1), 20);
    assert_eq!(*registry.get(2), 30);
}

#[test]
fn contended_callbacks_are_dropped_and_the_rest_survive() {
    let pd = descriptor(0, 1, 1);
    let mut registry: EngineCallbacks<i32> = EngineCallbacks::new();
    assert!(pd.add_engine_load_callback(&mut registry, 1));
    assert!(registry.try_lock());
    assert!(!pd.add_engine_load_callback(&mut registry, 2));
    assert!(!pd.add_engine_load_callback(&mut registry, 3));
    registry.unlock();
    assert!(pd.add_engine_load_callback(&mut registry, 4));
    assert_eq!(registry.len(), 2);
    assert_eq!(*registry.get(0), 1);
    assert_eq!(*registry.get(1), 4);
}

#[test]
fn register_sq_functions_fails_while_locked_and_mutates_nothing() {
    let pd = descriptor(0, 1, 1);
    let mut registry: SqFunctionRegistry<u64> = SqFunctionRegistry::new();
    assert!(registry.try_lock());
    assert_eq!(
        pd.register_sq_functions(&mut registry, 7),
        Err(SqFunctionError::LockedSqFunctionVec)
    );
    assert_eq!(registry.len(), 0);
    registry.unlock();
    assert_eq!(pd.register_sq_functions(&mut registry, 7), Ok(()));
    assert_eq!(registry.len(), 1);
}

#[test]
fn registered_descriptors_keep_their_order() {
    let pd = descriptor(0, 1, 1);
    let mut registry: SqFunctionRegistry<u64> = SqFunctionRegistry::new();
    assert_eq!(pd.register_sq_functions(&mut registry, 111), Ok(()));
    assert_eq!(pd.register_sq_functions(&mut registry, 222), Ok(()));
    assert_eq!(registry.len(), 2);
    assert_eq!(registry.get(0).func_ptr, 111);
    assert_eq!(registry.get(1).func_ptr, 222);
}

#[test]
fn built_descriptor_round_trips_its_fixed_fields() {
    let pd = descriptor(0, 1, 1);
    let mut registry: SqFunctionRegistry<u64> = SqFunctionRegistry::new();
    assert_eq!(pd.register_sq_functions(&mut registry, 9), Ok(()));
    let d = registry.get(0);
    assert_eq!(d.squirrel_func_name, "rrplug_test");
    assert_eq!(d.cpp_func_name, "rrplug_test");
    assert_eq!(d.help_text, "rrplug_test");
    assert_eq!(d.return_type_string, "void");
    assert_eq!(d.arg_types, "bool");
    assert_eq!(d.short_name_maybe, "rrplug_test");
    assert_eq!(d.unknown1, 0);
    assert_eq!(d.unknown2, 0);
    assert_eq!(d.unknown3, 0);
    assert_eq!(d.unknown4, 0);
    assert_eq!(d.dev_level, 0);
    assert_eq!(d.return_type, SqReturnType::Boolean);
    assert_eq!(d.external_buffer_size, 1000);
    assert_eq!(d.external_buffer.len(), 1000);
    assert!(d.external_buffer.iter().all(|w| *w == 0));
    assert_eq!(d.func_ptr, 9);
}
