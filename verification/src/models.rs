use vstd::prelude::*;

verus! {

/// Configuration used when a new egui-backed window is created.
#[derive(Debug, Clone)]
pub struct EguiWindowConfig {
    pub title: String,
    pub width: u32,
    pub height: u32,
    pub resizable: bool,
    pub transparent: bool,
}

impl Default for EguiWindowConfig {
    /// An 800 by 600 resizable, opaque window titled "Egui Window".
    fn default() -> (c: EguiWindowConfig)
        ensures
            c.title@ == "Egui Window"@,
            c.width == 800,
            c.height == 600,
            c.resizable,
            !c.transparent,
    {
        EguiWindowConfig {
            title: "Egui Window".to_string(),
            width: 800,
            height: 600,
            resizable: true,
            transparent: false,
        }
    }
}

} // verus!
