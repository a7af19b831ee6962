use raptors::system_builder::{System, SystemBuilder};
use raptors::system_config::SystemConfig;

#[test]
fn build_system_using_macro_test() {
    let system = System::new("raptor");
    assert_eq!(system.name(), "raptor");
}

#[test]
fn build_system_with_config_using_macro_test() {
    let mut sys_builder = SystemBuilder::new();
    let mut sys_config = SystemConfig::new("raptor");
    sys_config.set_ranks(4 as usize);
    let system = sys_builder.build_with_config(sys_config);
    assert_eq!(system.name(), "raptor");
}

#[test]
fn config_test() {
    let sys_config = SystemConfig::new("raptors");
    let na = sys_config.ranks().unwrap_or_default();
    assert_eq!(na, 0);
}
