use vstd::prelude::*;

verus! {

/// Window title used when no other title is given.
pub open spec fn default_window_title() -> Seq<char> {
    "Learn Vulkan Renderer - M1-S1"@
}

/// Configuration of the desktop window that hosts the renderer.
#[derive(Debug, Clone, PartialEq)]
pub struct WindowConfig {
    pub title: String,
    pub width: u32,
    pub height: u32,
}

impl Default for WindowConfig {
    /// A desktop-sized 1280x720 window with the renderer's default title.
    fn default() -> (config: Self)
        ensures
            config.title@ == default_window_title(),
            config.width == 1280,
            config.height == 720,
    {
        WindowConfig { title: "Learn Vulkan Renderer - M1-S1".to_owned(), width: 1280, height: 720 }
    }
}

} // verus!
