//! The commands that a roaster takes.

use vstd::prelude::*;

verus! {

/// A command for a roaster. The powers and speeds are percentages.
#[derive(Debug, Clone)]
pub enum Command {
    Start,
    Stop,
    SetHeaterPower(u8),
    SetFanSpeed(u8),
    SetDrumSpeed(u8),
    SetProfileId(String),
}

/// A request to import a roast profile from the text of an Artisan log.
#[derive(Debug)]
pub struct ImportArtisanProfileRequest {
    pub alog_content: String,
    pub name: Option<String>,
}

} // verus!
