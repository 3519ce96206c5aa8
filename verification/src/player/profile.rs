//! A player's profile: the identity that the server tells clients about.

use vstd::prelude::*;

verus! {

/// An optional text as plain values.
pub open spec fn text_view(text: Option<String>) -> Option<Seq<char>> {
    match text {
        Some(s) => Some(s@),
        None => None,
    }
}

/// A property of a player's profile.
#[derive(Debug, PartialEq, Eq)]
pub struct Property {
    pub name: String,
    pub value: String,
    pub signature: Option<String>,
}

/// A property as plain values.
pub struct PropertyView {
    pub name: Seq<char>,
    pub value: Seq<char>,
    pub signature: Option<Seq<char>>,
}

impl View for Property {
    type V = PropertyView;

    open spec fn view(&self) -> PropertyView {
        PropertyView {
            name: self.name@,
            value: self.value@,
            signature: text_view(self.signature),
        }
    }
}

/// The identity of a player as clients see it.
#[derive(Debug, PartialEq, Eq)]
pub struct GameProfile {
    pub uuid: u128,
    pub name: String,
    pub properties: Vec<Property>,
}

/// A profile as plain values.
pub struct GameProfileView {
    pub uuid: u128,
    pub name: Seq<char>,
    pub properties: Seq<PropertyView>,
}

impl View for GameProfile {
    type V = GameProfileView;

    open spec fn view(&self) -> GameProfileView {
        GameProfileView {
            uuid: self.uuid,
            name: self.name@,
            properties: Seq::new(self.properties@.len(), |i: int| self.properties@[i]@),
        }
    }
}

} // verus!
