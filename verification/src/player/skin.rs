//! What a player looks like: the signed texture and the parts of it that show.

use vstd::prelude::*;

verus! {

/// The name of the profile property that carries a skin.
pub const TEXTURE_KEY: &'static str = "textures";

/// The parts of a skin that a client wants shown.
#[derive(Clone, Copy, Debug, PartialEq, Eq, Structural)]
pub struct SkinLayers {
    pub cape: bool,
    pub jacket: bool,
    pub left_sleeve: bool,
    pub right_sleeve: bool,
    pub left_pants: bool,
    pub right_pants: bool,
    pub hat: bool,
}

impl Default for SkinLayers {
    /// Every part shows.
    fn default() -> (layers: Self)
        ensures
            layers == all_layers(),
    {
        SkinLayers {
            cape: true,
            jacket: true,
            left_sleeve: true,
            right_sleeve: true,
            left_pants: true,
            right_pants: true,
            hat: true,
        }
    }
}

/// The layers with every part shown.
pub open spec fn all_layers() -> SkinLayers {
    SkinLayers {
        cape: true,
        jacket: true,
        left_sleeve: true,
        right_sleeve: true,
        left_pants: true,
        right_pants: true,
        hat: true,
    }
}

/// What one part adds to the bit mask: its bit if it shows.
pub open spec fn layer_bit(shown: bool, bit: nat) -> nat {
    if shown {
        bit
    } else {
        0
    }
}

/// The bit mask of the layers as it goes over the wire: the cape is bit 0, then
/// jacket, left sleeve, right sleeve, left trouser leg, right trouser leg, and
/// the hat is bit 6. Bit 7 is never set.
pub open spec fn layers_bits(layers: SkinLayers) -> u8 {
    (layer_bit(layers.cape, 0x01) + layer_bit(layers.jacket, 0x02) + layer_bit(
        layers.left_sleeve,
        0x04,
    ) + layer_bit(layers.right_sleeve, 0x08) + layer_bit(layers.left_pants, 0x10) + layer_bit(
        layers.right_pants,
        0x20,
    ) + layer_bit(layers.hat, 0x40)) as u8
}

/// The wire form of a set of layers.
pub trait SkinLayersExt {
    /// The bit mask that stands for these layers.
    spec fn bits(&self) -> u8;

    /// Packs the layers into their bit mask.
    fn to_bits(&self) -> (bits: u8)
        ensures
            bits == self.bits(),
    ;
}

impl SkinLayersExt for SkinLayers {
    open spec fn bits(&self) -> u8 {
        layers_bits(*self)
    }

    fn to_bits(&self) -> (bits: u8) {
        let mut bits: u8 = 0;
        if self.cape {
            bits = bits + 0x01;
        }
        if self.jacket {
            bits = bits + 0x02;
        }
        if self.left_sleeve {
            bits = bits + 0x04;
        }
        if self.right_sleeve {
            bits = bits + 0x08;
        }
        if self.left_pants {
            bits = bits + 0x10;
        }
        if self.right_pants {
            bits = bits + 0x20;
        }
        if self.hat {
            bits = bits + 0x40;
        }
        bits
    }
}

/// A player's skin.
#[derive(Debug, PartialEq, Eq)]
pub struct PlayerSkin {
    /// The texture, as the identity authority encoded it.
    pub texture: String,
    /// The authority's signature over the texture; empty if there is none.
    pub signature: String,
    /// The parts that show.
    pub layers: SkinLayers,
}

/// A skin as plain values.
pub struct PlayerSkinView {
    pub texture: Seq<char>,
    pub signature: Seq<char>,
    pub layers: SkinLayers,
}

impl View for PlayerSkin {
    type V = PlayerSkinView;

    open spec fn view(&self) -> PlayerSkinView {
        PlayerSkinView { texture: self.texture@, signature: self.signature@, layers: self.layers }
    }
}

impl Clone for PlayerSkin {
    fn clone(&self) -> (skin: Self)
        ensures
            skin == *self,
    {
        PlayerSkin {
            texture: self.texture.clone(),
            signature: self.signature.clone(),
            layers: self.layers,
        }
    }
}

/// An optional skin as plain values.
pub open spec fn skin_view(skin: Option<PlayerSkin>) -> Option<PlayerSkinView> {
    match skin {
        Some(s) => Some(s@),
        None => None,
    }
}

} // verus!
