//! Registry payload records: the dimension type and its structured
//! metadata form. Floating-point attributes are held as their raw IEEE-754
//! bits, which is exactly what their wire form carries.

use vstd::prelude::*;
use crate::nbt::{NBTTag, TagContent};

verus! {

/// The attributes of one dimension type.
#[derive(Debug, Clone)]
pub struct DimensionType {
    /// IEEE-754 bits of the coordinate scale.
    pub coordinate_scale_bits: u64,
    pub has_skylight: bool,
    pub has_ceiling: bool,
    /// IEEE-754 bits of the ambient light level.
    pub ambient_light_bits: u32,
    pub has_fixed_time: bool,
    pub monster_spawn_block_light_limit: i32,
    pub logical_height: i32,
    pub min_y: i32,
    pub height: i32,
    pub infiniburn: String,
    pub skybox: String,
    pub cardinal_light: String,
}

/// The byte a boolean attribute takes in its metadata form.
pub open spec fn bool_tag(value: bool) -> TagContent {
    TagContent::Byte(
        if value {
            1i8
        } else {
            0i8
        },
    )
}

impl DimensionType {
    /// The overworld: scale 1.0, skylight, no ceiling, no ambient light.
    pub fn overworld() -> (r: Self)
        ensures
            r.coordinate_scale_bits == 0x3FF0_0000_0000_0000u64,
            r.has_skylight,
            !r.has_ceiling,
            r.ambient_light_bits == 0,
            !r.has_fixed_time,
            r.monster_spawn_block_light_limit == 15,
            r.logical_height == 256,
            r.min_y == 0,
            r.height == 256,
            r.infiniburn@ == ""@,
            r.skybox@ == "none"@,
            r.cardinal_light@ == "default"@,
    {
        DimensionType {
            coordinate_scale_bits: 0x3FF0_0000_0000_0000,
            has_skylight: true,
            has_ceiling: false,
            ambient_light_bits: 0,
            has_fixed_time: false,
            monster_spawn_block_light_limit: 15,
            logical_height: 256,
            min_y: 0,
            height: 256,
            infiniburn: "".to_owned(),
            skybox: "none".to_owned(),
            cardinal_light: "default".to_owned(),
        }
    }

    /// Renders the record as an unnamed compound tag, one entry per
    /// attribute in declaration order, closed by an empty attribute
    /// compound and an empty timeline list.
    pub fn to_nbt(&self) -> (r: NBTTag)
        ensures
            r.name is None,
            r.content matches TagContent::Compound(tags) && {
                &&& tags@.len() == 14
                &&& tags@[0].content == TagContent::Double(self.coordinate_scale_bits)
                &&& tags@[0].name matches Some(n) && n@ == "coordinate_scale"@
                &&& tags@[1].content == bool_tag(self.has_skylight)
                &&& tags@[2].content == bool_tag(self.has_ceiling)
                &&& tags@[3].content == TagContent::Float(self.ambient_light_bits)
                &&& tags@[4].content == bool_tag(self.has_fixed_time)
                &&& tags@[5].content == TagContent::Int(self.monster_spawn_block_light_limit)
                &&& tags@[6].content == TagContent::Int(self.logical_height)
                &&& tags@[7].content == TagContent::Int(self.min_y)
                &&& tags@[8].content == TagContent::Int(self.height)
                &&& tags@[9].content matches TagContent::String(s) && s == self.infiniburn
                &&& tags@[10].content matches TagContent::String(s) && s == self.skybox
                &&& tags@[11].content matches TagContent::String(s) && s == self.cardinal_light
                &&& tags@[12].content matches TagContent::Compound(v) && v@.len() == 0
                &&& tags@[13].content matches TagContent::List(v) && v@.len() == 0
            },
    {
        NBTTag::compound(
            None,
            vec![
                NBTTag::double_bits(Some("coordinate_scale".to_owned()), self.coordinate_scale_bits),
                NBTTag::boolean(Some("has_skylight".to_owned()), self.has_skylight),
                NBTTag::boolean(Some("has_ceiling".to_owned()), self.has_ceiling),
                NBTTag::float_bits(Some("ambient_light".to_owned()), self.ambient_light_bits),
                NBTTag::boolean(Some("has_fixed_time".to_owned()), self.has_fixed_time),
                NBTTag::int_tag(
                    Some("monster_spawn_block_light_limit".to_owned()),
                    self.monster_spawn_block_light_limit,
                ),
                NBTTag::int_tag(Some("logical_height".to_owned()), self.logical_height),
                NBTTag::int_tag(Some("min_y".to_owned()), self.min_y),
                NBTTag::int_tag(Some("height".to_owned()), self.height),
                NBTTag::string(Some("infiniburn".to_owned()), self.infiniburn.clone()),
                NBTTag::string(Some("skybox".to_owned()), self.skybox.clone()),
                NBTTag::string(Some("cardinal_light".to_owned()), self.cardinal_light.clone()),
                NBTTag::compound(Some("attributes".to_owned()), Vec::new()),
                NBTTag::list(Some("timelines".to_owned()), Vec::new()),
            ],
        )
    }
}

} // verus!
