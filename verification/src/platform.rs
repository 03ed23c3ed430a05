//! The operating systems that the agent tells apart.

use vstd::prelude::*;

use crate::text::same_text;

verus! {

/// An operating system, as far as printing and configuration depend on it. Every
/// system that is neither Windows nor macOS is treated as Linux.
#[derive(Debug, Clone, Copy, PartialEq, Eq, Structural)]
pub enum Platform {
    Linux,
    MacOs,
    Windows,
}

impl Platform {
    /// The platform with the given name, in the spelling of
    /// `std::env::consts::OS`.
    pub fn named(os: &str) -> (platform: Platform)
        ensures
            platform == (if os@ == "windows"@ {
                Platform::Windows
            } else if os@ == "macos"@ {
                Platform::MacOs
            } else {
                Platform::Linux
            }),
    {
        if same_text(os, "windows") {
            Platform::Windows
        } else if same_text(os, "macos") {
            Platform::MacOs
        } else {
            Platform::Linux
        }
    }
}

} // verus!
