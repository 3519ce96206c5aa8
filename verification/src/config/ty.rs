//! The types of settings that are more than a number or a text.

use vstd::prelude::*;
use vstd::string::*;

verus! {

/// The mode in which players play.
#[derive(Debug, Clone, Copy, PartialEq, Eq, Structural)]
pub enum GameMode {
    Survival,
    Creative,
    Adventure,
    Spectator,
}

/// A text with every character in lower case.
pub uninterp spec fn lowercase_of(text: Seq<char>) -> Seq<char>;

/// Lowers the case with [`str::to_lowercase`]: the outcome depends on the
/// text alone.
#[verifier::external_body]
fn to_lowercase(text: &str) -> (lower: String)
    ensures
        lower@ == lowercase_of(text@),
{
    text.to_lowercase()
}

/// The name of each mode, as it is written in the settings.
pub open spec fn mode_name(mode: GameMode) -> Seq<char> {
    match mode {
        GameMode::Survival => "survival"@,
        GameMode::Creative => "creative"@,
        GameMode::Adventure => "adventure"@,
        GameMode::Spectator => "spectator"@,
    }
}

/// The mode that a name in lower case stands for.
pub open spec fn spec_parse_mode(lower: Seq<char>) -> Option<GameMode> {
    if lower == "survival"@ {
        Some(GameMode::Survival)
    } else if lower == "creative"@ {
        Some(GameMode::Creative)
    } else if lower == "adventure"@ {
        Some(GameMode::Adventure)
    } else if lower == "spectator"@ {
        Some(GameMode::Spectator)
    } else {
        None
    }
}

/// What is said of a name that stands for no mode.
pub open spec fn unknown_mode_text(name: Seq<char>) -> Seq<char> {
    "Unknown game type name: "@ + name
}

fn same_text(a: &str, b: &str) -> (same: bool)
    ensures
        same == (a@ == b@),
{
    let a = String::from_str(a);
    let b = String::from_str(b);
    a == b
}

impl GameMode {
    /// The number of the mode in the protocol.
    pub fn to_id(&self) -> (id: u8)
        ensures
            id == (match self {
                GameMode::Survival => 0u8,
                GameMode::Creative => 1u8,
                GameMode::Adventure => 2u8,
                GameMode::Spectator => 3u8,
            }),
    {
        match self {
            GameMode::Survival => 0,
            GameMode::Creative => 1,
            GameMode::Adventure => 2,
            GameMode::Spectator => 3,
        }
    }

    /// The name of the mode, as it is written in the settings.
    pub fn name(&self) -> (name: &'static str)
        ensures
            name@ == mode_name(*self),
    {
        match self {
            GameMode::Survival => "survival",
            GameMode::Creative => "creative",
            GameMode::Adventure => "adventure",
            GameMode::Spectator => "spectator",
        }
    }

    /// The mode that a name in lower case stands for.
    pub fn parse_lowercase(lower: &str) -> (mode: Option<GameMode>)
        ensures
            mode == spec_parse_mode(lower@),
    {
        if same_text(lower, "survival") {
            Some(GameMode::Survival)
        } else if same_text(lower, "creative") {
            Some(GameMode::Creative)
        } else if same_text(lower, "adventure") {
            Some(GameMode::Adventure)
        } else if same_text(lower, "spectator") {
            Some(GameMode::Spectator)
        } else {
            None
        }
    }

    /// Reads a mode from its name, in whatever case the name is written.
    pub fn from_name(name: &str) -> (r: Result<GameMode, String>)
        ensures
            match r {
                Ok(mode) => spec_parse_mode(lowercase_of(name@)) == Some(mode),
                Err(reason) => spec_parse_mode(lowercase_of(name@)) is None && reason@
                    == unknown_mode_text(name@),
            },
    {
        let lower = to_lowercase(name);
        match GameMode::parse_lowercase(lower.as_str()) {
            Some(mode) => Ok(mode),
            None => Err(String::from_str("Unknown game type name: ").concat(name)),
        }
    }
}

} // verus!
