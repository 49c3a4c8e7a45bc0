use vstd::prelude::*;

verus! {

/// The tabs of the application window.
#[derive(Debug, Clone, Copy, PartialEq, Eq, Structural, Default)]
pub enum Tab {
    #[default]
    Intro,
    Search,
    ConfigFile,
    Builder,
    Theme,
    DBReader,
}

/// The welcome tab; it holds no state.
#[derive(Debug, Clone, Default)]
pub struct Intro {}

} // verus!
