use zenoh_node::builder::NodeBuilder;

#[test]
fn new_builder_has_no_options() {
    let b = NodeBuilder::new();
    assert!(b.config_path().is_none());
    assert!(b.network().is_none());
}

#[test]
fn config_path_is_kept() {
    let mut b = NodeBuilder::new();
    b.set_config_path("/etc/zenoh/config.json5");
    assert_eq!(b.config_path(), Some(String::from("/etc/zenoh/config.json5")));
    assert!(b.network().is_none());
}

#[test]
fn network_is_kept() {
    let mut b = NodeBuilder::new();
    b.set_network((String::from("224.0.0.224"), 7446));
    assert_eq!(b.network(), Some((String::from("224.0.0.224"), 7446)));
    assert!(b.config_path().is_none());
}

#[test]
fn later_setting_replaces_earlier() {
    let mut b = NodeBuilder::new();
    b.set_config_path("a.json5");
    b.set_network((String::from("10.0.0.1"), 1));
    b.set_config_path("b.json5");
    b.set_network((String::from("10.0.0.2"), 65535));
    assert_eq!(b.config_path(), Some(String::from("b.json5")));
    assert_eq!(b.network(), Some((String::from("10.0.0.2"), 65535)));
}
