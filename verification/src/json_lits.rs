use vstd::prelude::*;

verus! {

// The literal fragments of the document's JSON form: each member key
// carries its leading comma, and the wrapping of an object or array
// strips the first comma of its member run.

/// The text `,"copyright":`.
pub open spec fn lit_copyright() -> Seq<u8> {
    seq![44u8, 34u8, 99u8, 111u8, 112u8, 121u8, 114u8, 105u8, 103u8, 104u8, 116u8, 34u8, 58u8]
}

pub fn push_copyright(out: &mut Vec<u8>)
    ensures
        final(out)@ == old(out)@ + lit_copyright(),
{
    out.push(44u8);
    out.push(34u8);
    out.push(99u8);
    out.push(111u8);
    out.push(112u8);
    out.push(121u8);
    out.push(114u8);
    out.push(105u8);
    out.push(103u8);
    out.push(104u8);
    out.push(116u8);
    out.push(34u8);
    out.push(58u8);
    proof {
        assert(out@ =~= old(out)@ + lit_copyright());
    }
}

/// The text `,"generator":`.
pub open spec fn lit_generator() -> Seq<u8> {
    seq![44u8, 34u8, 103u8, 101u8, 110u8, 101u8, 114u8, 97u8, 116u8, 111u8, 114u8, 34u8, 58u8]
}

pub fn push_generator(out: &mut Vec<u8>)
    ensures
        final(out)@ == old(out)@ + lit_generator(),
{
    out.push(44u8);
    out.push(34u8);
    out.push(103u8);
    out.push(101u8);
    out.push(110u8);
    out.push(101u8);
    out.push(114u8);
    out.push(97u8);
    out.push(116u8);
    out.push(111u8);
    out.push(114u8);
    out.push(34u8);
    out.push(58u8);
    proof {
        assert(out@ =~= old(out)@ + lit_generator());
    }
}

/// The text `,"version":`.
pub open spec fn lit_version() -> Seq<u8> {
    seq![44u8, 34u8, 118u8, 101u8, 114u8, 115u8, 105u8, 111u8, 110u8, 34u8, 58u8]
}

pub fn push_version(out: &mut Vec<u8>)
    ensures
        final(out)@ == old(out)@ + lit_version(),
{
    out.push(44u8);
    out.push(34u8);
    out.push(118u8);
    out.push(101u8);
    out.push(114u8);
    out.push(115u8);
    out.push(105u8);
    out.push(111u8);
    out.push(110u8);
    out.push(34u8);
    out.push(58u8);
    proof {
        assert(out@ =~= old(out)@ + lit_version());
    }
}

/// The text `,"minVersion":`.
pub open spec fn lit_min_version() -> Seq<u8> {
    seq![44u8, 34u8, 109u8, 105u8, 110u8, 86u8, 101u8, 114u8, 115u8, 105u8, 111u8, 110u8, 34u8, 58u8]
}

pub fn push_min_version(out: &mut Vec<u8>)
    ensures
        final(out)@ == old(out)@ + lit_min_version(),
{
    out.push(44u8);
    out.push(34u8);
    out.push(109u8);
    out.push(105u8);
    out.push(110u8);
    out.push(86u8);
    out.push(101u8);
    out.push(114u8);
    out.push(115u8);
    out.push(105u8);
    out.push(111u8);
    out.push(110u8);
    out.push(34u8);
    out.push(58u8);
    proof {
        assert(out@ =~= old(out)@ + lit_min_version());
    }
}

/// The text `,"asset":`.
pub open spec fn lit_asset() -> Seq<u8> {
    seq![44u8, 34u8, 97u8, 115u8, 115u8, 101u8, 116u8, 34u8, 58u8]
}

pub fn push_asset(out: &mut Vec<u8>)
    ensures
        final(out)@ == old(out)@ + lit_asset(),
{
    out.push(44u8);
    out.push(34u8);
    out.push(97u8);
    out.push(115u8);
    out.push(115u8);
    out.push(101u8);
    out.push(116u8);
    out.push(34u8);
    out.push(58u8);
    proof {
        assert(out@ =~= old(out)@ + lit_asset());
    }
}

/// The text `,"scene":`.
pub open spec fn lit_scene() -> Seq<u8> {
    seq![44u8, 34u8, 115u8, 99u8, 101u8, 110u8, 101u8, 34u8, 58u8]
}

pub fn push_scene(out: &mut Vec<u8>)
    ensures
        final(out)@ == old(out)@ + lit_scene(),
{
    out.push(44u8);
    out.push(34u8);
    out.push(115u8);
    out.push(99u8);
    out.push(101u8);
    out.push(110u8);
    out.push(101u8);
    out.push(34u8);
    out.push(58u8);
    proof {
        assert(out@ =~= old(out)@ + lit_scene());
    }
}

/// The text `,"scenes":`.
pub open spec fn lit_scenes() -> Seq<u8> {
    seq![44u8, 34u8, 115u8, 99u8, 101u8, 110u8, 101u8, 115u8, 34u8, 58u8]
}

pub fn push_scenes(out: &mut Vec<u8>)
    ensures
        final(out)@ == old(out)@ + lit_scenes(),
{
    out.push(44u8);
    out.push(34u8);
    out.push(115u8);
    out.push(99u8);
    out.push(101u8);
    out.push(110u8);
    out.push(101u8);
    out.push(115u8);
    out.push(34u8);
    out.push(58u8);
    proof {
        assert(out@ =~= old(out)@ + lit_scenes());
    }
}

/// The text `,"nodes":`.
pub open spec fn lit_nodes() -> Seq<u8> {
    seq![44u8, 34u8, 110u8, 111u8, 100u8, 101u8, 115u8, 34u8, 58u8]
}

pub fn push_nodes(out: &mut Vec<u8>)
    ensures
        final(out)@ == old(out)@ + lit_nodes(),
{
    out.push(44u8);
    out.push(34u8);
    out.push(110u8);
    out.push(111u8);
    out.push(100u8);
    out.push(101u8);
    out.push(115u8);
    out.push(34u8);
    out.push(58u8);
    proof {
        assert(out@ =~= old(out)@ + lit_nodes());
    }
}

/// The text `,"materials":`.
pub open spec fn lit_materials() -> Seq<u8> {
    seq![44u8, 34u8, 109u8, 97u8, 116u8, 101u8, 114u8, 105u8, 97u8, 108u8, 115u8, 34u8, 58u8]
}

pub fn push_materials(out: &mut Vec<u8>)
    ensures
        final(out)@ == old(out)@ + lit_materials(),
{
    out.push(44u8);
    out.push(34u8);
    out.push(109u8);
    out.push(97u8);
    out.push(116u8);
    out.push(101u8);
    out.push(114u8);
    out.push(105u8);
    out.push(97u8);
    out.push(108u8);
    out.push(115u8);
    out.push(34u8);
    out.push(58u8);
    proof {
        assert(out@ =~= old(out)@ + lit_materials());
    }
}

/// The text `,"meshes":`.
pub open spec fn lit_meshes() -> Seq<u8> {
    seq![44u8, 34u8, 109u8, 101u8, 115u8, 104u8, 101u8, 115u8, 34u8, 58u8]
}

pub fn push_meshes(out: &mut Vec<u8>)
    ensures
        final(out)@ == old(out)@ + lit_meshes(),
{
    out.push(44u8);
    out.push(34u8);
    out.push(109u8);
    out.push(101u8);
    out.push(115u8);
    out.push(104u8);
    out.push(101u8);
    out.push(115u8);
    out.push(34u8);
    out.push(58u8);
    proof {
        assert(out@ =~= old(out)@ + lit_meshes());
    }
}

/// The text `,"accessors":`.
pub open spec fn lit_accessors() -> Seq<u8> {
    seq![44u8, 34u8, 97u8, 99u8, 99u8, 101u8, 115u8, 115u8, 111u8, 114u8, 115u8, 34u8, 58u8]
}

pub fn push_accessors(out: &mut Vec<u8>)
    ensures
        final(out)@ == old(out)@ + lit_accessors(),
{
    out.push(44u8);
    out.push(34u8);
    out.push(97u8);
    out.push(99u8);
    out.push(99u8);
    out.push(101u8);
    out.push(115u8);
    out.push(115u8);
    out.push(111u8);
    out.push(114u8);
    out.push(115u8);
    out.push(34u8);
    out.push(58u8);
    proof {
        assert(out@ =~= old(out)@ + lit_accessors());
    }
}

/// The text `,"bufferViews":`.
pub open spec fn lit_buffer_views() -> Seq<u8> {
    seq![44u8, 34u8, 98u8, 117u8, 102u8, 102u8, 101u8, 114u8, 86u8, 105u8, 101u8, 119u8, 115u8, 34u8, 58u8]
}

pub fn push_buffer_views(out: &mut Vec<u8>)
    ensures
        final(out)@ == old(out)@ + lit_buffer_views(),
{
    out.push(44u8);
    out.push(34u8);
    out.push(98u8);
    out.push(117u8);
    out.push(102u8);
    out.push(102u8);
    out.push(101u8);
    out.push(114u8);
    out.push(86u8);
    out.push(105u8);
    out.push(101u8);
    out.push(119u8);
    out.push(115u8);
    out.push(34u8);
    out.push(58u8);
    proof {
        assert(out@ =~= old(out)@ + lit_buffer_views());
    }
}

/// The text `,"buffers":`.
pub open spec fn lit_buffers() -> Seq<u8> {
    seq![44u8, 34u8, 98u8, 117u8, 102u8, 102u8, 101u8, 114u8, 115u8, 34u8, 58u8]
}

pub fn push_buffers(out: &mut Vec<u8>)
    ensures
        final(out)@ == old(out)@ + lit_buffers(),
{
    out.push(44u8);
    out.push(34u8);
    out.push(98u8);
    out.push(117u8);
    out.push(102u8);
    out.push(102u8);
    out.push(101u8);
    out.push(114u8);
    out.push(115u8);
    out.push(34u8);
    out.push(58u8);
    proof {
        assert(out@ =~= old(out)@ + lit_buffers());
    }
}

/// The text `,"name":`.
pub open spec fn lit_name() -> Seq<u8> {
    seq![44u8, 34u8, 110u8, 97u8, 109u8, 101u8, 34u8, 58u8]
}

pub fn push_name(out: &mut Vec<u8>)
    ensures
        final(out)@ == old(out)@ + lit_name(),
{
    out.push(44u8);
    out.push(34u8);
    out.push(110u8);
    out.push(97u8);
    out.push(109u8);
    out.push(101u8);
    out.push(34u8);
    out.push(58u8);
    proof {
        assert(out@ =~= old(out)@ + lit_name());
    }
}

/// The text `,"mesh":`.
pub open spec fn lit_mesh() -> Seq<u8> {
    seq![44u8, 34u8, 109u8, 101u8, 115u8, 104u8, 34u8, 58u8]
}

pub fn push_mesh(out: &mut Vec<u8>)
    ensures
        final(out)@ == old(out)@ + lit_mesh(),
{
    out.push(44u8);
    out.push(34u8);
    out.push(109u8);
    out.push(101u8);
    out.push(115u8);
    out.push(104u8);
    out.push(34u8);
    out.push(58u8);
    proof {
        assert(out@ =~= old(out)@ + lit_mesh());
    }
}

/// The text `,"translation":`.
pub open spec fn lit_translation() -> Seq<u8> {
    seq![44u8, 34u8, 116u8, 114u8, 97u8, 110u8, 115u8, 108u8, 97u8, 116u8, 105u8, 111u8, 110u8, 34u8, 58u8]
}

pub fn push_translation(out: &mut Vec<u8>)
    ensures
        final(out)@ == old(out)@ + lit_translation(),
{
    out.push(44u8);
    out.push(34u8);
    out.push(116u8);
    out.push(114u8);
    out.push(97u8);
    out.push(110u8);
    out.push(115u8);
    out.push(108u8);
    out.push(97u8);
    out.push(116u8);
    out.push(105u8);
    out.push(111u8);
    out.push(110u8);
    out.push(34u8);
    out.push(58u8);
    proof {
        assert(out@ =~= old(out)@ + lit_translation());
    }
}

/// The text `,"rotation":`.
pub open spec fn lit_rotation() -> Seq<u8> {
    seq![44u8, 34u8, 114u8, 111u8, 116u8, 97u8, 116u8, 105u8, 111u8, 110u8, 34u8, 58u8]
}

pub fn push_rotation(out: &mut Vec<u8>)
    ensures
        final(out)@ == old(out)@ + lit_rotation(),
{
    out.push(44u8);
    out.push(34u8);
    out.push(114u8);
    out.push(111u8);
    out.push(116u8);
    out.push(97u8);
    out.push(116u8);
    out.push(105u8);
    out.push(111u8);
    out.push(110u8);
    out.push(34u8);
    out.push(58u8);
    proof {
        assert(out@ =~= old(out)@ + lit_rotation());
    }
}

/// The text `,"scale":`.
pub open spec fn lit_scale() -> Seq<u8> {
    seq![44u8, 34u8, 115u8, 99u8, 97u8, 108u8, 101u8, 34u8, 58u8]
}

pub fn push_scale(out: &mut Vec<u8>)
    ensures
        final(out)@ == old(out)@ + lit_scale(),
{
    out.push(44u8);
    out.push(34u8);
    out.push(115u8);
    out.push(99u8);
    out.push(97u8);
    out.push(108u8);
    out.push(101u8);
    out.push(34u8);
    out.push(58u8);
    proof {
        assert(out@ =~= old(out)@ + lit_scale());
    }
}

/// The text `,"matrix":`.
pub open spec fn lit_matrix() -> Seq<u8> {
    seq![44u8, 34u8, 109u8, 97u8, 116u8, 114u8, 105u8, 120u8, 34u8, 58u8]
}

pub fn push_matrix(out: &mut Vec<u8>)
    ensures
        final(out)@ == old(out)@ + lit_matrix(),
{
    out.push(44u8);
    out.push(34u8);
    out.push(109u8);
    out.push(97u8);
    out.push(116u8);
    out.push(114u8);
    out.push(105u8);
    out.push(120u8);
    out.push(34u8);
    out.push(58u8);
    proof {
        assert(out@ =~= old(out)@ + lit_matrix());
    }
}

/// The text `,"children":`.
pub open spec fn lit_children() -> Seq<u8> {
    seq![44u8, 34u8, 99u8, 104u8, 105u8, 108u8, 100u8, 114u8, 101u8, 110u8, 34u8, 58u8]
}

pub fn push_children(out: &mut Vec<u8>)
    ensures
        final(out)@ == old(out)@ + lit_children(),
{
    out.push(44u8);
    out.push(34u8);
    out.push(99u8);
    out.push(104u8);
    out.push(105u8);
    out.push(108u8);
    out.push(100u8);
    out.push(114u8);
    out.push(101u8);
    out.push(110u8);
    out.push(34u8);
    out.push(58u8);
    proof {
        assert(out@ =~= old(out)@ + lit_children());
    }
}

/// The text `,"emissiveFactor":`.
pub open spec fn lit_emissive_factor() -> Seq<u8> {
    seq![44u8, 34u8, 101u8, 109u8, 105u8, 115u8, 115u8, 105u8, 118u8, 101u8, 70u8, 97u8, 99u8, 116u8, 111u8, 114u8, 34u8, 58u8]
}

pub fn push_emissive_factor(out: &mut Vec<u8>)
    ensures
        final(out)@ == old(out)@ + lit_emissive_factor(),
{
    out.push(44u8);
    out.push(34u8);
    out.push(101u8);
    out.push(109u8);
    out.push(105u8);
    out.push(115u8);
    out.push(115u8);
    out.push(105u8);
    out.push(118u8);
    out.push(101u8);
    out.push(70u8);
    out.push(97u8);
    out.push(99u8);
    out.push(116u8);
    out.push(111u8);
    out.push(114u8);
    out.push(34u8);
    out.push(58u8);
    proof {
        assert(out@ =~= old(out)@ + lit_emissive_factor());
    }
}

/// The text `,"alphaMode":`.
pub open spec fn lit_alpha_mode() -> Seq<u8> {
    seq![44u8, 34u8, 97u8, 108u8, 112u8, 104u8, 97u8, 77u8, 111u8, 100u8, 101u8, 34u8, 58u8]
}

pub fn push_alpha_mode(out: &mut Vec<u8>)
    ensures
        final(out)@ == old(out)@ + lit_alpha_mode(),
{
    out.push(44u8);
    out.push(34u8);
    out.push(97u8);
    out.push(108u8);
    out.push(112u8);
    out.push(104u8);
    out.push(97u8);
    out.push(77u8);
    out.push(111u8);
    out.push(100u8);
    out.push(101u8);
    out.push(34u8);
    out.push(58u8);
    proof {
        assert(out@ =~= old(out)@ + lit_alpha_mode());
    }
}

/// The text `,"alphaCutoff":`.
pub open spec fn lit_alpha_cutoff() -> Seq<u8> {
    seq![44u8, 34u8, 97u8, 108u8, 112u8, 104u8, 97u8, 67u8, 117u8, 116u8, 111u8, 102u8, 102u8, 34u8, 58u8]
}

pub fn push_alpha_cutoff(out: &mut Vec<u8>)
    ensures
        final(out)@ == old(out)@ + lit_alpha_cutoff(),
{
    out.push(44u8);
    out.push(34u8);
    out.push(97u8);
    out.push(108u8);
    out.push(112u8);
    out.push(104u8);
    out.push(97u8);
    out.push(67u8);
    out.push(117u8);
    out.push(116u8);
    out.push(111u8);
    out.push(102u8);
    out.push(102u8);
    out.push(34u8);
    out.push(58u8);
    proof {
        assert(out@ =~= old(out)@ + lit_alpha_cutoff());
    }
}

/// The text `,"doubleSided":`.
pub open spec fn lit_double_sided() -> Seq<u8> {
    seq![44u8, 34u8, 100u8, 111u8, 117u8, 98u8, 108u8, 101u8, 83u8, 105u8, 100u8, 101u8, 100u8, 34u8, 58u8]
}

pub fn push_double_sided(out: &mut Vec<u8>)
    ensures
        final(out)@ == old(out)@ + lit_double_sided(),
{
    out.push(44u8);
    out.push(34u8);
    out.push(100u8);
    out.push(111u8);
    out.push(117u8);
    out.push(98u8);
    out.push(108u8);
    out.push(101u8);
    out.push(83u8);
    out.push(105u8);
    out.push(100u8);
    out.push(101u8);
    out.push(100u8);
    out.push(34u8);
    out.push(58u8);
    proof {
        assert(out@ =~= old(out)@ + lit_double_sided());
    }
}

/// The text `,"pbrMetallicRoughness":`.
pub open spec fn lit_pbr() -> Seq<u8> {
    seq![44u8, 34u8, 112u8, 98u8, 114u8, 77u8, 101u8, 116u8, 97u8, 108u8, 108u8, 105u8, 99u8, 82u8, 111u8, 117u8, 103u8, 104u8, 110u8, 101u8, 115u8, 115u8, 34u8, 58u8]
}

pub fn push_pbr(out: &mut Vec<u8>)
    ensures
        final(out)@ == old(out)@ + lit_pbr(),
{
    out.push(44u8);
    out.push(34u8);
    out.push(112u8);
    out.push(98u8);
    out.push(114u8);
    out.push(77u8);
    out.push(101u8);
    out.push(116u8);
    out.push(97u8);
    out.push(108u8);
    out.push(108u8);
    out.push(105u8);
    out.push(99u8);
    out.push(82u8);
    out.push(111u8);
    out.push(117u8);
    out.push(103u8);
    out.push(104u8);
    out.push(110u8);
    out.push(101u8);
    out.push(115u8);
    out.push(115u8);
    out.push(34u8);
    out.push(58u8);
    proof {
        assert(out@ =~= old(out)@ + lit_pbr());
    }
}

/// The text `,"baseColorFactor":`.
pub open spec fn lit_base_color() -> Seq<u8> {
    seq![44u8, 34u8, 98u8, 97u8, 115u8, 101u8, 67u8, 111u8, 108u8, 111u8, 114u8, 70u8, 97u8, 99u8, 116u8, 111u8, 114u8, 34u8, 58u8]
}

pub fn push_base_color(out: &mut Vec<u8>)
    ensures
        final(out)@ == old(out)@ + lit_base_color(),
{
    out.push(44u8);
    out.push(34u8);
    out.push(98u8);
    out.push(97u8);
    out.push(115u8);
    out.push(101u8);
    out.push(67u8);
    out.push(111u8);
    out.push(108u8);
    out.push(111u8);
    out.push(114u8);
    out.push(70u8);
    out.push(97u8);
    out.push(99u8);
    out.push(116u8);
    out.push(111u8);
    out.push(114u8);
    out.push(34u8);
    out.push(58u8);
    proof {
        assert(out@ =~= old(out)@ + lit_base_color());
    }
}

/// The text `,"metallicFactor":`.
pub open spec fn lit_metallic() -> Seq<u8> {
    seq![44u8, 34u8, 109u8, 101u8, 116u8, 97u8, 108u8, 108u8, 105u8, 99u8, 70u8, 97u8, 99u8, 116u8, 111u8, 114u8, 34u8, 58u8]
}

pub fn push_metallic(out: &mut Vec<u8>)
    ensures
        final(out)@ == old(out)@ + lit_metallic(),
{
    out.push(44u8);
    out.push(34u8);
    out.push(109u8);
    out.push(101u8);
    out.push(116u8);
    out.push(97u8);
    out.push(108u8);
    out.push(108u8);
    out.push(105u8);
    out.push(99u8);
    out.push(70u8);
    out.push(97u8);
    out.push(99u8);
    out.push(116u8);
    out.push(111u8);
    out.push(114u8);
    out.push(34u8);
    out.push(58u8);
    proof {
        assert(out@ =~= old(out)@ + lit_metallic());
    }
}

/// The text `,"roughnessFactor":`.
pub open spec fn lit_roughness() -> Seq<u8> {
    seq![44u8, 34u8, 114u8, 111u8, 117u8, 103u8, 104u8, 110u8, 101u8, 115u8, 115u8, 70u8, 97u8, 99u8, 116u8, 111u8, 114u8, 34u8, 58u8]
}

pub fn push_roughness(out: &mut Vec<u8>)
    ensures
        final(out)@ == old(out)@ + lit_roughness(),
{
    out.push(44u8);
    out.push(34u8);
    out.push(114u8);
    out.push(111u8);
    out.push(117u8);
    out.push(103u8);
    out.push(104u8);
    out.push(110u8);
    out.push(101u8);
    out.push(115u8);
    out.push(115u8);
    out.push(70u8);
    out.push(97u8);
    out.push(99u8);
    out.push(116u8);
    out.push(111u8);
    out.push(114u8);
    out.push(34u8);
    out.push(58u8);
    proof {
        assert(out@ =~= old(out)@ + lit_roughness());
    }
}

/// The text `,"primitives":`.
pub open spec fn lit_primitives() -> Seq<u8> {
    seq![44u8, 34u8, 112u8, 114u8, 105u8, 109u8, 105u8, 116u8, 105u8, 118u8, 101u8, 115u8, 34u8, 58u8]
}

pub fn push_primitives(out: &mut Vec<u8>)
    ensures
        final(out)@ == old(out)@ + lit_primitives(),
{
    out.push(44u8);
    out.push(34u8);
    out.push(112u8);
    out.push(114u8);
    out.push(105u8);
    out.push(109u8);
    out.push(105u8);
    out.push(116u8);
    out.push(105u8);
    out.push(118u8);
    out.push(101u8);
    out.push(115u8);
    out.push(34u8);
    out.push(58u8);
    proof {
        assert(out@ =~= old(out)@ + lit_primitives());
    }
}

/// The text `,"weights":`.
pub open spec fn lit_weights() -> Seq<u8> {
    seq![44u8, 34u8, 119u8, 101u8, 105u8, 103u8, 104u8, 116u8, 115u8, 34u8, 58u8]
}

pub fn push_weights(out: &mut Vec<u8>)
    ensures
        final(out)@ == old(out)@ + lit_weights(),
{
    out.push(44u8);
    out.push(34u8);
    out.push(119u8);
    out.push(101u8);
    out.push(105u8);
    out.push(103u8);
    out.push(104u8);
    out.push(116u8);
    out.push(115u8);
    out.push(34u8);
    out.push(58u8);
    proof {
        assert(out@ =~= old(out)@ + lit_weights());
    }
}

/// The text `,"attributes":`.
pub open spec fn lit_attributes() -> Seq<u8> {
    seq![44u8, 34u8, 97u8, 116u8, 116u8, 114u8, 105u8, 98u8, 117u8, 116u8, 101u8, 115u8, 34u8, 58u8]
}

pub fn push_attributes(out: &mut Vec<u8>)
    ensures
        final(out)@ == old(out)@ + lit_attributes(),
{
    out.push(44u8);
    out.push(34u8);
    out.push(97u8);
    out.push(116u8);
    out.push(116u8);
    out.push(114u8);
    out.push(105u8);
    out.push(98u8);
    out.push(117u8);
    out.push(116u8);
    out.push(101u8);
    out.push(115u8);
    out.push(34u8);
    out.push(58u8);
    proof {
        assert(out@ =~= old(out)@ + lit_attributes());
    }
}

/// The text `,"indices":`.
pub open spec fn lit_indices() -> Seq<u8> {
    seq![44u8, 34u8, 105u8, 110u8, 100u8, 105u8, 99u8, 101u8, 115u8, 34u8, 58u8]
}

pub fn push_indices(out: &mut Vec<u8>)
    ensures
        final(out)@ == old(out)@ + lit_indices(),
{
    out.push(44u8);
    out.push(34u8);
    out.push(105u8);
    out.push(110u8);
    out.push(100u8);
    out.push(105u8);
    out.push(99u8);
    out.push(101u8);
    out.push(115u8);
    out.push(34u8);
    out.push(58u8);
    proof {
        assert(out@ =~= old(out)@ + lit_indices());
    }
}

/// The text `,"material":`.
pub open spec fn lit_material() -> Seq<u8> {
    seq![44u8, 34u8, 109u8, 97u8, 116u8, 101u8, 114u8, 105u8, 97u8, 108u8, 34u8, 58u8]
}

pub fn push_material(out: &mut Vec<u8>)
    ensures
        final(out)@ == old(out)@ + lit_material(),
{
    out.push(44u8);
    out.push(34u8);
    out.push(109u8);
    out.push(97u8);
    out.push(116u8);
    out.push(101u8);
    out.push(114u8);
    out.push(105u8);
    out.push(97u8);
    out.push(108u8);
    out.push(34u8);
    out.push(58u8);
    proof {
        assert(out@ =~= old(out)@ + lit_material());
    }
}

/// The text `,"mode":`.
pub open spec fn lit_mode() -> Seq<u8> {
    seq![44u8, 34u8, 109u8, 111u8, 100u8, 101u8, 34u8, 58u8]
}

pub fn push_mode(out: &mut Vec<u8>)
    ensures
        final(out)@ == old(out)@ + lit_mode(),
{
    out.push(44u8);
    out.push(34u8);
    out.push(109u8);
    out.push(111u8);
    out.push(100u8);
    out.push(101u8);
    out.push(34u8);
    out.push(58u8);
    proof {
        assert(out@ =~= old(out)@ + lit_mode());
    }
}

/// The text `,"bufferView":`.
pub open spec fn lit_buffer_view() -> Seq<u8> {
    seq![44u8, 34u8, 98u8, 117u8, 102u8, 102u8, 101u8, 114u8, 86u8, 105u8, 101u8, 119u8, 34u8, 58u8]
}

pub fn push_buffer_view(out: &mut Vec<u8>)
    ensures
        final(out)@ == old(out)@ + lit_buffer_view(),
{
    out.push(44u8);
    out.push(34u8);
    out.push(98u8);
    out.push(117u8);
    out.push(102u8);
    out.push(102u8);
    out.push(101u8);
    out.push(114u8);
    out.push(86u8);
    out.push(105u8);
    out.push(101u8);
    out.push(119u8);
    out.push(34u8);
    out.push(58u8);
    proof {
        assert(out@ =~= old(out)@ + lit_buffer_view());
    }
}

/// The text `,"byteOffset":`.
pub open spec fn lit_byte_offset() -> Seq<u8> {
    seq![44u8, 34u8, 98u8, 121u8, 116u8, 101u8, 79u8, 102u8, 102u8, 115u8, 101u8, 116u8, 34u8, 58u8]
}

pub fn push_byte_offset(out: &mut Vec<u8>)
    ensures
        final(out)@ == old(out)@ + lit_byte_offset(),
{
    out.push(44u8);
    out.push(34u8);
    out.push(98u8);
    out.push(121u8);
    out.push(116u8);
    out.push(101u8);
    out.push(79u8);
    out.push(102u8);
    out.push(102u8);
    out.push(115u8);
    out.push(101u8);
    out.push(116u8);
    out.push(34u8);
    out.push(58u8);
    proof {
        assert(out@ =~= old(out)@ + lit_byte_offset());
    }
}

/// The text `,"componentType":`.
pub open spec fn lit_component_type() -> Seq<u8> {
    seq![44u8, 34u8, 99u8, 111u8, 109u8, 112u8, 111u8, 110u8, 101u8, 110u8, 116u8, 84u8, 121u8, 112u8, 101u8, 34u8, 58u8]
}

pub fn push_component_type(out: &mut Vec<u8>)
    ensures
        final(out)@ == old(out)@ + lit_component_type(),
{
    out.push(44u8);
    out.push(34u8);
    out.push(99u8);
    out.push(111u8);
    out.push(109u8);
    out.push(112u8);
    out.push(111u8);
    out.push(110u8);
    out.push(101u8);
    out.push(110u8);
    out.push(116u8);
    out.push(84u8);
    out.push(121u8);
    out.push(112u8);
    out.push(101u8);
    out.push(34u8);
    out.push(58u8);
    proof {
        assert(out@ =~= old(out)@ + lit_component_type());
    }
}

/// The text `,"normalized":`.
pub open spec fn lit_normalized() -> Seq<u8> {
    seq![44u8, 34u8, 110u8, 111u8, 114u8, 109u8, 97u8, 108u8, 105u8, 122u8, 101u8, 100u8, 34u8, 58u8]
}

pub fn push_normalized(out: &mut Vec<u8>)
    ensures
        final(out)@ == old(out)@ + lit_normalized(),
{
    out.push(44u8);
    out.push(34u8);
    out.push(110u8);
    out.push(111u8);
    out.push(114u8);
    out.push(109u8);
    out.push(97u8);
    out.push(108u8);
    out.push(105u8);
    out.push(122u8);
    out.push(101u8);
    out.push(100u8);
    out.push(34u8);
    out.push(58u8);
    proof {
        assert(out@ =~= old(out)@ + lit_normalized());
    }
}

/// The text `,"count":`.
pub open spec fn lit_count() -> Seq<u8> {
    seq![44u8, 34u8, 99u8, 111u8, 117u8, 110u8, 116u8, 34u8, 58u8]
}

pub fn push_count(out: &mut Vec<u8>)
    ensures
        final(out)@ == old(out)@ + lit_count(),
{
    out.push(44u8);
    out.push(34u8);
    out.push(99u8);
    out.push(111u8);
    out.push(117u8);
    out.push(110u8);
    out.push(116u8);
    out.push(34u8);
    out.push(58u8);
    proof {
        assert(out@ =~= old(out)@ + lit_count());
    }
}

/// The text `,"type":`.
pub open spec fn lit_type_() -> Seq<u8> {
    seq![44u8, 34u8, 116u8, 121u8, 112u8, 101u8, 34u8, 58u8]
}

pub fn push_type_(out: &mut Vec<u8>)
    ensures
        final(out)@ == old(out)@ + lit_type_(),
{
    out.push(44u8);
    out.push(34u8);
    out.push(116u8);
    out.push(121u8);
    out.push(112u8);
    out.push(101u8);
    out.push(34u8);
    out.push(58u8);
    proof {
        assert(out@ =~= old(out)@ + lit_type_());
    }
}

/// The text `,"max":`.
pub open spec fn lit_max() -> Seq<u8> {
    seq![44u8, 34u8, 109u8, 97u8, 120u8, 34u8, 58u8]
}

pub fn push_max(out: &mut Vec<u8>)
    ensures
        final(out)@ == old(out)@ + lit_max(),
{
    out.push(44u8);
    out.push(34u8);
    out.push(109u8);
    out.push(97u8);
    out.push(120u8);
    out.push(34u8);
    out.push(58u8);
    proof {
        assert(out@ =~= old(out)@ + lit_max());
    }
}

/// The text `,"min":`.
pub open spec fn lit_min() -> Seq<u8> {
    seq![44u8, 34u8, 109u8, 105u8, 110u8, 34u8, 58u8]
}

pub fn push_min(out: &mut Vec<u8>)
    ensures
        final(out)@ == old(out)@ + lit_min(),
{
    out.push(44u8);
    out.push(34u8);
    out.push(109u8);
    out.push(105u8);
    out.push(110u8);
    out.push(34u8);
    out.push(58u8);
    proof {
        assert(out@ =~= old(out)@ + lit_min());
    }
}

/// The text `,"buffer":`.
pub open spec fn lit_buffer() -> Seq<u8> {
    seq![44u8, 34u8, 98u8, 117u8, 102u8, 102u8, 101u8, 114u8, 34u8, 58u8]
}

pub fn push_buffer(out: &mut Vec<u8>)
    ensures
        final(out)@ == old(out)@ + lit_buffer(),
{
    out.push(44u8);
    out.push(34u8);
    out.push(98u8);
    out.push(117u8);
    out.push(102u8);
    out.push(102u8);
    out.push(101u8);
    out.push(114u8);
    out.push(34u8);
    out.push(58u8);
    proof {
        assert(out@ =~= old(out)@ + lit_buffer());
    }
}

/// The text `,"byteLength":`.
pub open spec fn lit_byte_length() -> Seq<u8> {
    seq![44u8, 34u8, 98u8, 121u8, 116u8, 101u8, 76u8, 101u8, 110u8, 103u8, 116u8, 104u8, 34u8, 58u8]
}

pub fn push_byte_length(out: &mut Vec<u8>)
    ensures
        final(out)@ == old(out)@ + lit_byte_length(),
{
    out.push(44u8);
    out.push(34u8);
    out.push(98u8);
    out.push(121u8);
    out.push(116u8);
    out.push(101u8);
    out.push(76u8);
    out.push(101u8);
    out.push(110u8);
    out.push(103u8);
    out.push(116u8);
    out.push(104u8);
    out.push(34u8);
    out.push(58u8);
    proof {
        assert(out@ =~= old(out)@ + lit_byte_length());
    }
}

/// The text `,"byteStride":`.
pub open spec fn lit_byte_stride() -> Seq<u8> {
    seq![44u8, 34u8, 98u8, 121u8, 116u8, 101u8, 83u8, 116u8, 114u8, 105u8, 100u8, 101u8, 34u8, 58u8]
}

pub fn push_byte_stride(out: &mut Vec<u8>)
    ensures
        final(out)@ == old(out)@ + lit_byte_stride(),
{
    out.push(44u8);
    out.push(34u8);
    out.push(98u8);
    out.push(121u8);
    out.push(116u8);
    out.push(101u8);
    out.push(83u8);
    out.push(116u8);
    out.push(114u8);
    out.push(105u8);
    out.push(100u8);
    out.push(101u8);
    out.push(34u8);
    out.push(58u8);
    proof {
        assert(out@ =~= old(out)@ + lit_byte_stride());
    }
}

/// The text `,"target":`.
pub open spec fn lit_target() -> Seq<u8> {
    seq![44u8, 34u8, 116u8, 97u8, 114u8, 103u8, 101u8, 116u8, 34u8, 58u8]
}

pub fn push_target(out: &mut Vec<u8>)
    ensures
        final(out)@ == old(out)@ + lit_target(),
{
    out.push(44u8);
    out.push(34u8);
    out.push(116u8);
    out.push(97u8);
    out.push(114u8);
    out.push(103u8);
    out.push(101u8);
    out.push(116u8);
    out.push(34u8);
    out.push(58u8);
    proof {
        assert(out@ =~= old(out)@ + lit_target());
    }
}

/// The text `,"uri":`.
pub open spec fn lit_uri() -> Seq<u8> {
    seq![44u8, 34u8, 117u8, 114u8, 105u8, 34u8, 58u8]
}

pub fn push_uri(out: &mut Vec<u8>)
    ensures
        final(out)@ == old(out)@ + lit_uri(),
{
    out.push(44u8);
    out.push(34u8);
    out.push(117u8);
    out.push(114u8);
    out.push(105u8);
    out.push(34u8);
    out.push(58u8);
    proof {
        assert(out@ =~= old(out)@ + lit_uri());
    }
}

/// The text `,"COLOR_0":`.
pub open spec fn lit_color_0() -> Seq<u8> {
    seq![44u8, 34u8, 67u8, 79u8, 76u8, 79u8, 82u8, 95u8, 48u8, 34u8, 58u8]
}

pub fn push_color_0(out: &mut Vec<u8>)
    ensures
        final(out)@ == old(out)@ + lit_color_0(),
{
    out.push(44u8);
    out.push(34u8);
    out.push(67u8);
    out.push(79u8);
    out.push(76u8);
    out.push(79u8);
    out.push(82u8);
    out.push(95u8);
    out.push(48u8);
    out.push(34u8);
    out.push(58u8);
    proof {
        assert(out@ =~= old(out)@ + lit_color_0());
    }
}

/// The text `,"JOINTS_0":`.
pub open spec fn lit_joints_0() -> Seq<u8> {
    seq![44u8, 34u8, 74u8, 79u8, 73u8, 78u8, 84u8, 83u8, 95u8, 48u8, 34u8, 58u8]
}

pub fn push_joints_0(out: &mut Vec<u8>)
    ensures
        final(out)@ == old(out)@ + lit_joints_0(),
{
    out.push(44u8);
    out.push(34u8);
    out.push(74u8);
    out.push(79u8);
    out.push(73u8);
    out.push(78u8);
    out.push(84u8);
    out.push(83u8);
    out.push(95u8);
    out.push(48u8);
    out.push(34u8);
    out.push(58u8);
    proof {
        assert(out@ =~= old(out)@ + lit_joints_0());
    }
}

/// The text `,"NORMAL":`.
pub open spec fn lit_normal() -> Seq<u8> {
    seq![44u8, 34u8, 78u8, 79u8, 82u8, 77u8, 65u8, 76u8, 34u8, 58u8]
}

pub fn push_normal(out: &mut Vec<u8>)
    ensures
        final(out)@ == old(out)@ + lit_normal(),
{
    out.push(44u8);
    out.push(34u8);
    out.push(78u8);
    out.push(79u8);
    out.push(82u8);
    out.push(77u8);
    out.push(65u8);
    out.push(76u8);
    out.push(34u8);
    out.push(58u8);
    proof {
        assert(out@ =~= old(out)@ + lit_normal());
    }
}

/// The text `,"POSITION":`.
pub open spec fn lit_position() -> Seq<u8> {
    seq![44u8, 34u8, 80u8, 79u8, 83u8, 73u8, 84u8, 73u8, 79u8, 78u8, 34u8, 58u8]
}

pub fn push_position(out: &mut Vec<u8>)
    ensures
        final(out)@ == old(out)@ + lit_position(),
{
    out.push(44u8);
    out.push(34u8);
    out.push(80u8);
    out.push(79u8);
    out.push(83u8);
    out.push(73u8);
    out.push(84u8);
    out.push(73u8);
    out.push(79u8);
    out.push(78u8);
    out.push(34u8);
    out.push(58u8);
    proof {
        assert(out@ =~= old(out)@ + lit_position());
    }
}

/// The text `,"TANGENT":`.
pub open spec fn lit_tangent() -> Seq<u8> {
    seq![44u8, 34u8, 84u8, 65u8, 78u8, 71u8, 69u8, 78u8, 84u8, 34u8, 58u8]
}

pub fn push_tangent(out: &mut Vec<u8>)
    ensures
        final(out)@ == old(out)@ + lit_tangent(),
{
    out.push(44u8);
    out.push(34u8);
    out.push(84u8);
    out.push(65u8);
    out.push(78u8);
    out.push(71u8);
    out.push(69u8);
    out.push(78u8);
    out.push(84u8);
    out.push(34u8);
    out.push(58u8);
    proof {
        assert(out@ =~= old(out)@ + lit_tangent());
    }
}

/// The text `,"TEXCOORD_0":`.
pub open spec fn lit_texcoord_0() -> Seq<u8> {
    seq![44u8, 34u8, 84u8, 69u8, 88u8, 67u8, 79u8, 79u8, 82u8, 68u8, 95u8, 48u8, 34u8, 58u8]
}

pub fn push_texcoord_0(out: &mut Vec<u8>)
    ensures
        final(out)@ == old(out)@ + lit_texcoord_0(),
{
    out.push(44u8);
    out.push(34u8);
    out.push(84u8);
    out.push(69u8);
    out.push(88u8);
    out.push(67u8);
    out.push(79u8);
    out.push(79u8);
    out.push(82u8);
    out.push(68u8);
    out.push(95u8);
    out.push(48u8);
    out.push(34u8);
    out.push(58u8);
    proof {
        assert(out@ =~= old(out)@ + lit_texcoord_0());
    }
}

/// The text `,"TEXCOORD_1":`.
pub open spec fn lit_texcoord_1() -> Seq<u8> {
    seq![44u8, 34u8, 84u8, 69u8, 88u8, 67u8, 79u8, 79u8, 82u8, 68u8, 95u8, 49u8, 34u8, 58u8]
}

pub fn push_texcoord_1(out: &mut Vec<u8>)
    ensures
        final(out)@ == old(out)@ + lit_texcoord_1(),
{
    out.push(44u8);
    out.push(34u8);
    out.push(84u8);
    out.push(69u8);
    out.push(88u8);
    out.push(67u8);
    out.push(79u8);
    out.push(79u8);
    out.push(82u8);
    out.push(68u8);
    out.push(95u8);
    out.push(49u8);
    out.push(34u8);
    out.push(58u8);
    proof {
        assert(out@ =~= old(out)@ + lit_texcoord_1());
    }
}

/// The text `,"TEXCOORD_2":`.
pub open spec fn lit_texcoord_2() -> Seq<u8> {
    seq![44u8, 34u8, 84u8, 69u8, 88u8, 67u8, 79u8, 79u8, 82u8, 68u8, 95u8, 50u8, 34u8, 58u8]
}

pub fn push_texcoord_2(out: &mut Vec<u8>)
    ensures
        final(out)@ == old(out)@ + lit_texcoord_2(),
{
    out.push(44u8);
    out.push(34u8);
    out.push(84u8);
    out.push(69u8);
    out.push(88u8);
    out.push(67u8);
    out.push(79u8);
    out.push(79u8);
    out.push(82u8);
    out.push(68u8);
    out.push(95u8);
    out.push(50u8);
    out.push(34u8);
    out.push(58u8);
    proof {
        assert(out@ =~= old(out)@ + lit_texcoord_2());
    }
}

/// The text `,"TEXCOORD_3":`.
pub open spec fn lit_texcoord_3() -> Seq<u8> {
    seq![44u8, 34u8, 84u8, 69u8, 88u8, 67u8, 79u8, 79u8, 82u8, 68u8, 95u8, 51u8, 34u8, 58u8]
}

pub fn push_texcoord_3(out: &mut Vec<u8>)
    ensures
        final(out)@ == old(out)@ + lit_texcoord_3(),
{
    out.push(44u8);
    out.push(34u8);
    out.push(84u8);
    out.push(69u8);
    out.push(88u8);
    out.push(67u8);
    out.push(79u8);
    out.push(79u8);
    out.push(82u8);
    out.push(68u8);
    out.push(95u8);
    out.push(51u8);
    out.push(34u8);
    out.push(58u8);
    proof {
        assert(out@ =~= old(out)@ + lit_texcoord_3());
    }
}

/// The text `,"WEIGHTS_0":`.
pub open spec fn lit_weights_0() -> Seq<u8> {
    seq![44u8, 34u8, 87u8, 69u8, 73u8, 71u8, 72u8, 84u8, 83u8, 95u8, 48u8, 34u8, 58u8]
}

pub fn push_weights_0(out: &mut Vec<u8>)
    ensures
        final(out)@ == old(out)@ + lit_weights_0(),
{
    out.push(44u8);
    out.push(34u8);
    out.push(87u8);
    out.push(69u8);
    out.push(73u8);
    out.push(71u8);
    out.push(72u8);
    out.push(84u8);
    out.push(83u8);
    out.push(95u8);
    out.push(48u8);
    out.push(34u8);
    out.push(58u8);
    proof {
        assert(out@ =~= old(out)@ + lit_weights_0());
    }
}

/// The text `"MASK"`.
pub open spec fn lit_mask() -> Seq<u8> {
    seq![34u8, 77u8, 65u8, 83u8, 75u8, 34u8]
}

pub fn push_mask(out: &mut Vec<u8>)
    ensures
        final(out)@ == old(out)@ + lit_mask(),
{
    out.push(34u8);
    out.push(77u8);
    out.push(65u8);
    out.push(83u8);
    out.push(75u8);
    out.push(34u8);
    proof {
        assert(out@ =~= old(out)@ + lit_mask());
    }
}

/// The text `"BLEND"`.
pub open spec fn lit_blend() -> Seq<u8> {
    seq![34u8, 66u8, 76u8, 69u8, 78u8, 68u8, 34u8]
}

pub fn push_blend(out: &mut Vec<u8>)
    ensures
        final(out)@ == old(out)@ + lit_blend(),
{
    out.push(34u8);
    out.push(66u8);
    out.push(76u8);
    out.push(69u8);
    out.push(78u8);
    out.push(68u8);
    out.push(34u8);
    proof {
        assert(out@ =~= old(out)@ + lit_blend());
    }
}

/// The text `"SCALAR"`.
pub open spec fn lit_scalar() -> Seq<u8> {
    seq![34u8, 83u8, 67u8, 65u8, 76u8, 65u8, 82u8, 34u8]
}

pub fn push_scalar(out: &mut Vec<u8>)
    ensures
        final(out)@ == old(out)@ + lit_scalar(),
{
    out.push(34u8);
    out.push(83u8);
    out.push(67u8);
    out.push(65u8);
    out.push(76u8);
    out.push(65u8);
    out.push(82u8);
    out.push(34u8);
    proof {
        assert(out@ =~= old(out)@ + lit_scalar());
    }
}

/// The text `"VEC2"`.
pub open spec fn lit_vec2() -> Seq<u8> {
    seq![34u8, 86u8, 69u8, 67u8, 50u8, 34u8]
}

pub fn push_vec2(out: &mut Vec<u8>)
    ensures
        final(out)@ == old(out)@ + lit_vec2(),
{
    out.push(34u8);
    out.push(86u8);
    out.push(69u8);
    out.push(67u8);
    out.push(50u8);
    out.push(34u8);
    proof {
        assert(out@ =~= old(out)@ + lit_vec2());
    }
}

/// The text `"VEC3"`.
pub open spec fn lit_vec3() -> Seq<u8> {
    seq![34u8, 86u8, 69u8, 67u8, 51u8, 34u8]
}

pub fn push_vec3(out: &mut Vec<u8>)
    ensures
        final(out)@ == old(out)@ + lit_vec3(),
{
    out.push(34u8);
    out.push(86u8);
    out.push(69u8);
    out.push(67u8);
    out.push(51u8);
    out.push(34u8);
    proof {
        assert(out@ =~= old(out)@ + lit_vec3());
    }
}

/// The text `"VEC4"`.
pub open spec fn lit_vec4() -> Seq<u8> {
    seq![34u8, 86u8, 69u8, 67u8, 52u8, 34u8]
}

pub fn push_vec4(out: &mut Vec<u8>)
    ensures
        final(out)@ == old(out)@ + lit_vec4(),
{
    out.push(34u8);
    out.push(86u8);
    out.push(69u8);
    out.push(67u8);
    out.push(52u8);
    out.push(34u8);
    proof {
        assert(out@ =~= old(out)@ + lit_vec4());
    }
}

/// The text `"MAT2"`.
pub open spec fn lit_mat2() -> Seq<u8> {
    seq![34u8, 77u8, 65u8, 84u8, 50u8, 34u8]
}

pub fn push_mat2(out: &mut Vec<u8>)
    ensures
        final(out)@ == old(out)@ + lit_mat2(),
{
    out.push(34u8);
    out.push(77u8);
    out.push(65u8);
    out.push(84u8);
    out.push(50u8);
    out.push(34u8);
    proof {
        assert(out@ =~= old(out)@ + lit_mat2());
    }
}

/// The text `"MAT3"`.
pub open spec fn lit_mat3() -> Seq<u8> {
    seq![34u8, 77u8, 65u8, 84u8, 51u8, 34u8]
}

pub fn push_mat3(out: &mut Vec<u8>)
    ensures
        final(out)@ == old(out)@ + lit_mat3(),
{
    out.push(34u8);
    out.push(77u8);
    out.push(65u8);
    out.push(84u8);
    out.push(51u8);
    out.push(34u8);
    proof {
        assert(out@ =~= old(out)@ + lit_mat3());
    }
}

/// The text `"MAT4"`.
pub open spec fn lit_mat4() -> Seq<u8> {
    seq![34u8, 77u8, 65u8, 84u8, 52u8, 34u8]
}

pub fn push_mat4(out: &mut Vec<u8>)
    ensures
        final(out)@ == old(out)@ + lit_mat4(),
{
    out.push(34u8);
    out.push(77u8);
    out.push(65u8);
    out.push(84u8);
    out.push(52u8);
    out.push(34u8);
    proof {
        assert(out@ =~= old(out)@ + lit_mat4());
    }
}

/// The text `true`.
pub open spec fn lit_true() -> Seq<u8> {
    seq![116u8, 114u8, 117u8, 101u8]
}

pub fn push_true(out: &mut Vec<u8>)
    ensures
        final(out)@ == old(out)@ + lit_true(),
{
    out.push(116u8);
    out.push(114u8);
    out.push(117u8);
    out.push(101u8);
    proof {
        assert(out@ =~= old(out)@ + lit_true());
    }
}

} // verus!
