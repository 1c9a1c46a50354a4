//! The four texture maps of a model: where their files lie, which texture
//! unit each is bound to, and which shader sampler reads it.

use vstd::prelude::*;
use vstd::string::StringExecFns;

verus! {

/// One of the four texture maps that a model carries.
#[derive(Clone, Copy, Debug, PartialEq, Eq, Structural)]
pub enum TextureSlot {
    Albedo,
    AmbientOcclusion,
    Metallic,
    Normal,
}

/// Number of texture maps per model.
pub const TEXTURE_SLOTS: usize = 4;

/// A sequence of characters ends with another.
pub open spec fn ends_with(text: Seq<char>, suffix: Seq<char>) -> bool {
    suffix.len() <= text.len() && text.subrange(text.len() - suffix.len(), text.len() as int)
        == suffix
}

/// A model path without its final `.obj`; meaningful where the path ends with it.
pub open spec fn model_stem(model_path: Seq<char>) -> Seq<char> {
    model_path.subrange(0, model_path.len() - 4)
}

impl TextureSlot {
    /// The texture unit that the map is bound to, fixed for the whole run.
    pub open spec fn unit_index(self) -> u32 {
        match self {
            TextureSlot::Albedo => 0,
            TextureSlot::AmbientOcclusion => 1,
            TextureSlot::Metallic => 2,
            TextureSlot::Normal => 3,
        }
    }

    /// The name of the shader sampler that reads the map.
    pub open spec fn sampler(self) -> Seq<char> {
        match self {
            TextureSlot::Albedo => "albedoMap"@,
            TextureSlot::AmbientOcclusion => "aoMap"@,
            TextureSlot::Metallic => "metallicMap"@,
            TextureSlot::Normal => "normalMap"@,
        }
    }

    /// What follows the model's stem in the path of the map's file.
    pub open spec fn suffix(self) -> Seq<char> {
        match self {
            TextureSlot::Albedo => "Textures/AlbedoTransparency.png"@,
            TextureSlot::AmbientOcclusion => "Textures/AO.png"@,
            TextureSlot::Metallic => "Textures/MetallicSmoothness.png"@,
            TextureSlot::Normal => "Textures/Normal.png"@,
        }
    }

    /// The path of the map's file for a model at `model_path`.
    pub open spec fn path_for(self, model_path: Seq<char>) -> Seq<char> {
        model_stem(model_path) + self.suffix()
    }

    pub fn unit(self) -> (index: u32)
        ensures
            index == self.unit_index(),
            index < 4,
    {
        match self {
            TextureSlot::Albedo => 0,
            TextureSlot::AmbientOcclusion => 1,
            TextureSlot::Metallic => 2,
            TextureSlot::Normal => 3,
        }
    }

    /// The slot bound to a texture unit, for the units 0 to 3.
    pub fn from_unit(index: u32) -> (slot: Option<TextureSlot>)
        ensures
            index < 4 ==> slot.is_some() && slot.unwrap().unit_index() == index,
            index >= 4 ==> slot.is_none(),
    {
        if index == 0 {
            Some(TextureSlot::Albedo)
        } else if index == 1 {
            Some(TextureSlot::AmbientOcclusion)
        } else if index == 2 {
            Some(TextureSlot::Metallic)
        } else if index == 3 {
            Some(TextureSlot::Normal)
        } else {
            None
        }
    }

    pub fn sampler_name(self) -> (name: &'static str)
        ensures
            name@ == self.sampler(),
    {
        match self {
            TextureSlot::Albedo => "albedoMap",
            TextureSlot::AmbientOcclusion => "aoMap",
            TextureSlot::Metallic => "metallicMap",
            TextureSlot::Normal => "normalMap",
        }
    }

    pub fn file_suffix(self) -> (text: &'static str)
        ensures
            text@ == self.suffix(),
    {
        match self {
            TextureSlot::Albedo => "Textures/AlbedoTransparency.png",
            TextureSlot::AmbientOcclusion => "Textures/AO.png",
            TextureSlot::Metallic => "Textures/MetallicSmoothness.png",
            TextureSlot::Normal => "Textures/Normal.png",
        }
    }
}

/// `str::strip_suffix` of the standard library: where `text` ends with
/// `suffix`, the part of `text` before it; otherwise nothing.
#[verifier::external_body]
fn strip_suffix<'a>(text: &'a str, suffix: &str) -> (rest: Option<&'a str>)
    ensures
        match rest {
            Some(stem) => ends_with(text@, suffix@) && stem@ == text@.subrange(
                0,
                text@.len() - suffix@.len(),
            ),
            None => !ends_with(text@, suffix@),
        },
{
    text.strip_suffix(suffix)
}

/// The path of one texture map of the model at `model_path`: the model's path
/// without its final `.obj`, followed by the slot's suffix. There is none
/// where the model's path does not end with `.obj`.
pub fn texture_path(model_path: &str, slot: TextureSlot) -> (path: Option<String>)
    ensures
        ends_with(model_path@, ".obj"@) ==> path.is_some() && path.unwrap()@ == slot.path_for(
            model_path@,
        ),
        !ends_with(model_path@, ".obj"@) ==> path.is_none(),
{
    proof {
        reveal_strlit(".obj");
    }
    match strip_suffix(model_path, ".obj") {
        Some(stem) => Some(String::from_str(stem).concat(slot.file_suffix())),
        None => None,
    }
}

/// The paths of the four texture maps of the model at `model_path`, in the
/// order of their texture units: albedo, ambient occlusion, metallic, normal.
pub fn texture_paths(model_path: &str) -> (paths: Option<Vec<String>>)
    ensures
        !ends_with(model_path@, ".obj"@) ==> paths.is_none(),
        ends_with(model_path@, ".obj"@) ==> paths.is_some() && paths.unwrap()@.len() == TEXTURE_SLOTS
            && forall|u: int|
            0 <= u < 4 ==> (#[trigger] paths.unwrap()@[u])@ == slot_of_unit(u).path_for(
                model_path@,
            ),
{
    let albedo = texture_path(model_path, TextureSlot::Albedo);
    let occlusion = texture_path(model_path, TextureSlot::AmbientOcclusion);
    let metallic = texture_path(model_path, TextureSlot::Metallic);
    let normal = texture_path(model_path, TextureSlot::Normal);
    match (albedo, occlusion, metallic, normal) {
        (Some(a), Some(o), Some(m), Some(n)) => {
            let mut paths: Vec<String> = Vec::new();
            paths.push(a);
            paths.push(o);
            paths.push(m);
            paths.push(n);
            Some(paths)
        },
        _ => None,
    }
}

/// The slot bound to texture unit `u`; the normal map for every unit above 2.
pub open spec fn slot_of_unit(u: int) -> TextureSlot {
    if u == 0 {
        TextureSlot::Albedo
    } else if u == 1 {
        TextureSlot::AmbientOcclusion
    } else if u == 2 {
        TextureSlot::Metallic
    } else {
        TextureSlot::Normal
    }
}

/// Each of the four slots has a texture unit of its own, and `slot_of_unit`
/// leads back from the unit to the slot.
pub proof fn lemma_units_are_distinct(a: TextureSlot, b: TextureSlot)
    ensures
        a.unit_index() < 4,
        slot_of_unit(a.unit_index() as int) == a,
        a.unit_index() == b.unit_index() <==> a == b,
{
}

} // verus!
