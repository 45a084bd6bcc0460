use rrplug::context::{
    ScriptVmType, SCRIPT_CONTEXT_CLIENT, SCRIPT_CONTEXT_SERVER, SCRIPT_CONTEXT_UI,
};

#[test]
fn to_int_maps_each_context_to_its_host_constant() {
    assert_eq!(ScriptVmType::Server.to_int(), SCRIPT_CONTEXT_SERVER);
    assert_eq!(ScriptVmType::Client.to_int(), SCRIPT_CONTEXT_CLIENT);
    assert_eq!(ScriptVmType::Ui.to_int(), SCRIPT_CONTEXT_UI);
    assert_eq!(ScriptVmType::UiClient.to_int(), SCRIPT_CONTEXT_UI);
}

#[test]
fn ui_and_ui_client_share_one_constant() {
    assert_eq!(ScriptVmType::Ui.to_int(), ScriptVmType::UiClient.to_int());
}

#[test]
fn display_renders_variant_name_in_parentheses() {
    assert_eq!(ScriptVmType::Server.display_str(), "(Server)");
    assert_eq!(ScriptVmType::Client.display_str(), "(Client)");
    assert_eq!(ScriptVmType::Ui.display_str(), "(Ui)");
    assert_eq!(ScriptVmType::UiClient.display_str(), "(UiClient)");
}
