use rustyrun::config::ContainerConfig;

fn text(s: &str) -> String {
    String::from(s)
}

#[test]
fn new_keeps_each_field() {
    let config = ContainerConfig::new(text("/tmp/alpine"), text("/bin/sh"), text("box"));
    assert_eq!(config.rootfs(), "/tmp/alpine");
    assert_eq!(config.command(), "/bin/sh");
    assert_eq!(config.hostname(), "box");
}

#[test]
fn new_does_not_mix_fields_up() {
    let config = ContainerConfig::new(text("a"), text("b"), text("c"));
    assert_eq!(config, ContainerConfig::new(text("a"), text("b"), text("c")));
    assert_ne!(config, ContainerConfig::new(text("b"), text("a"), text("c")));
    assert_ne!(config, ContainerConfig::new(text("a"), text("c"), text("b")));
    assert_ne!(config, ContainerConfig::new(text("c"), text("b"), text("a")));
}

#[test]
fn try_new_needs_all_three_fields() {
    assert!(ContainerConfig::try_new(text("/r"), text("/c"), text("h")).is_some());
    assert_eq!(ContainerConfig::try_new(text(""), text("/c"), text("h")), None);
    assert_eq!(ContainerConfig::try_new(text("/r"), text(""), text("h")), None);
    assert_eq!(ContainerConfig::try_new(text("/r"), text("/c"), text("")), None);
    assert_eq!(ContainerConfig::try_new(text(""), text(""), text("")), None);
}

#[test]
fn try_new_keeps_each_field() {
    assert_eq!(
        ContainerConfig::try_new(text("/tmp/alpine"), text("/bin/sh"), text("box")),
        Some(ContainerConfig::new(text("/tmp/alpine"), text("/bin/sh"), text("box")))
    );
}

#[test]
fn try_new_counts_characters_not_meaning() {
    let config = ContainerConfig::try_new(text(" "), text("-"), text("\u{e9}")).unwrap();
    assert_eq!(config.rootfs(), " ");
    assert_eq!(config.command(), "-");
    assert_eq!(config.hostname(), "\u{e9}");
}

#[test]
fn clone_is_equal() {
    let config = ContainerConfig::new(text("/tmp/alpine"), text("/bin/true"), text("test1"));
    let copy = config.clone();
    assert_eq!(copy, config);
    assert_eq!(copy.rootfs(), "/tmp/alpine");
    assert_eq!(copy.command(), "/bin/true");
    assert_eq!(copy.hostname(), "test1");
}
