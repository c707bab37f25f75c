use learn_vulkan_renderer::WindowConfig;

#[test]
fn crate_compiles() {
    // Cargo.toml names the package "learn-vulkan-renderer"; this file can only link against
    // it as `learn_vulkan_renderer`, the crate name Cargo derives from that package name.
    let linked_as = "learn_vulkan_renderer";
    assert_eq!(linked_as.replace('_', "-"), "learn-vulkan-renderer");
    assert_eq!(WindowConfig::default().width, 1280);
}

#[test]
fn default_window_config_is_desktop_sized() {
    let config = WindowConfig::default();

    assert_eq!(config.title, "Learn Vulkan Renderer - M1-S1");
    assert_eq!((config.width, config.height), (1280, 720));
}

#[test]
fn window_config_can_override_title_only() {
    let config = WindowConfig { title: "Learn Vulkan Renderer - M1-S9".to_owned(), ..WindowConfig::default() };

    assert_eq!(config.title, "Learn Vulkan Renderer - M1-S9");
    assert_eq!(config.width, 1280);
    assert_eq!(config.height, 720);
}
