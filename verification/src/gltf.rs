use vstd::prelude::*;
use crate::error::ErrorCode;

verus! {

// The scene document: a subset of the glTF 2.0 object model with
// append-only collections and stable zero-based handles.  Number-valued
// fields carry their JSON number text (shortest decimal form), handed
// in by the caller; a field equal to its documented default is omitted
// from the serialized output, decided by comparing that text.

/// The text `0.0`.
pub open spec fn txt_zero() -> Seq<u8> {
    seq![48u8, 46u8, 48u8]
}

/// The text `1.0`.
pub open spec fn txt_one() -> Seq<u8> {
    seq![49u8, 46u8, 48u8]
}

/// The text `0.5`.
pub open spec fn txt_half() -> Seq<u8> {
    seq![48u8, 46u8, 53u8]
}

/// The generator string `emg v0.1.0`.
pub open spec fn generator_text() -> Seq<u8> {
    seq![101u8, 109u8, 103u8, 32u8, 118u8, 48u8, 46u8, 49u8, 46u8, 48u8]
}

/// The glTF version string `2.0`.
pub open spec fn version_text() -> Seq<u8> {
    seq![50u8, 46u8, 48u8]
}

/// The text `0.0` as a vector.
pub fn make_zero() -> (r: Vec<u8>)
    ensures
        r@ == txt_zero(),
{
    let r = vec![48u8, 46u8, 48u8];
    proof {
        assert(r@ =~= txt_zero());
    }
    r
}

/// The text `1.0` as a vector.
pub fn make_one() -> (r: Vec<u8>)
    ensures
        r@ == txt_one(),
{
    let r = vec![49u8, 46u8, 48u8];
    proof {
        assert(r@ =~= txt_one());
    }
    r
}

/// The text `0.5` as a vector.
pub fn make_half() -> (r: Vec<u8>)
    ensures
        r@ == txt_half(),
{
    let r = vec![48u8, 46u8, 53u8];
    proof {
        assert(r@ =~= txt_half());
    }
    r
}

/// Byte-for-byte comparison.
pub fn bytes_eq(a: &Vec<u8>, b: &Vec<u8>) -> (r: bool)
    ensures
        r == (a@ == b@),
{
    if a.len() != b.len() {
        proof {
            assert(a@ != b@);
        }
        return false;
    }
    let n = a.len();
    let mut i: usize = 0;
    while i < n
        invariant
            n == a@.len(),
            n == b@.len(),
            0 <= i <= n,
            forall|k: int| 0 <= k < i ==> a@[k] == b@[k],
        decreases n - i,
    {
        if a[i] != b[i] {
            proof {
                assert(a@ != b@);
            }
            return false;
        }
        i += 1;
    }
    proof {
        assert(a@ =~= b@);
    }
    true
}

/// Asset metadata; `version` is mandatory in the output, the rest is
/// omitted when empty.
pub struct Asset {
    pub copyright: Vec<u8>,
    pub generator: Vec<u8>,
    pub version: Vec<u8>,
    pub min_version: Vec<u8>,
}

impl Asset {
    pub fn new() -> (r: Asset)
        ensures
            r.copyright@ == Seq::<u8>::empty(),
            r.generator@ == generator_text(),
            r.version@ == version_text(),
            r.min_version@ == version_text(),
    {
        let generator = vec![101u8, 109u8, 103u8, 32u8, 118u8, 48u8, 46u8, 49u8, 46u8, 48u8];
        let version = vec![50u8, 46u8, 48u8];
        let min_version = vec![50u8, 46u8, 48u8];
        proof {
            assert(generator@ =~= generator_text());
            assert(version@ =~= version_text());
            assert(min_version@ =~= version_text());
        }
        Asset { copyright: Vec::new(), generator, version, min_version }
    }
}

/// A scene: a list of root node handles.
pub struct Scene {
    pub name: Vec<u8>,
    pub nodes: Vec<u32>,
}

impl Scene {
    pub fn new(name: Vec<u8>) -> (r: Scene)
        ensures
            r.name == name,
            r.nodes@ == Seq::<u32>::empty(),
    {
        Scene { name, nodes: Vec::new() }
    }
}

/// A node's translation, per-component number text; default `(0,0,0)`.
pub struct Translation {
    pub x: Vec<u8>,
    pub y: Vec<u8>,
    pub z: Vec<u8>,
}

impl Translation {
    pub open spec fn spec_is_default(&self) -> bool {
        self.x@ == txt_zero() && self.y@ == txt_zero() && self.z@ == txt_zero()
    }

    pub fn new() -> (r: Translation)
        ensures
            r.spec_is_default(),
    {
        Translation { x: make_zero(), y: make_zero(), z: make_zero() }
    }

    pub fn is_default(&self) -> (r: bool)
        ensures
            r == self.spec_is_default(),
    {
        let zero = make_zero();
        bytes_eq(&self.x, &zero) && bytes_eq(&self.y, &zero) && bytes_eq(&self.z, &zero)
    }
}

/// A node's rotation quaternion; default `(0,0,0,1)`.
pub struct Rotation {
    pub x: Vec<u8>,
    pub y: Vec<u8>,
    pub z: Vec<u8>,
    pub w: Vec<u8>,
}

impl Rotation {
    pub open spec fn spec_is_default(&self) -> bool {
        self.x@ == txt_zero() && self.y@ == txt_zero() && self.z@ == txt_zero() && self.w@
            == txt_one()
    }

    pub fn new() -> (r: Rotation)
        ensures
            r.spec_is_default(),
    {
        Rotation { x: make_zero(), y: make_zero(), z: make_zero(), w: make_one() }
    }

    pub fn is_default(&self) -> (r: bool)
        ensures
            r == self.spec_is_default(),
    {
        let zero = make_zero();
        let one = make_one();
        bytes_eq(&self.x, &zero) && bytes_eq(&self.y, &zero) && bytes_eq(&self.z, &zero)
            && bytes_eq(&self.w, &one)
    }
}

/// A node's scale; default `(1,1,1)`.
pub struct Scale {
    pub x: Vec<u8>,
    pub y: Vec<u8>,
    pub z: Vec<u8>,
}

impl Scale {
    pub open spec fn spec_is_default(&self) -> bool {
        self.x@ == txt_one() && self.y@ == txt_one() && self.z@ == txt_one()
    }

    pub fn new() -> (r: Scale)
        ensures
            r.spec_is_default(),
    {
        Scale { x: make_one(), y: make_one(), z: make_one() }
    }

    pub fn is_default(&self) -> (r: bool)
        ensures
            r == self.spec_is_default(),
    {
        let one = make_one();
        bytes_eq(&self.x, &one) && bytes_eq(&self.y, &one) && bytes_eq(&self.z, &one)
    }
}

/// A scene-graph node.
pub struct Node {
    pub name: Vec<u8>,
    pub mesh: Option<u32>,
    pub t: Translation,
    pub r: Rotation,
    pub s: Scale,
    pub matrix: Option<Vec<Vec<u8>>>,
    pub children: Vec<u32>,
}

impl Node {
    pub fn new(name: Vec<u8>) -> (r: Node)
        ensures
            r.name == name,
            r.mesh is None,
            r.t.spec_is_default(),
            r.r.spec_is_default(),
            r.s.spec_is_default(),
            r.matrix is None,
            r.children@ == Seq::<u32>::empty(),
    {
        Node {
            name,
            mesh: None,
            t: Translation::new(),
            r: Rotation::new(),
            s: Scale::new(),
            matrix: None,
            children: Vec::new(),
        }
    }
}

/// How a material's alpha channel is interpreted; default `OPAQUE`.
#[derive(Debug, Clone, Copy, PartialEq, Eq, Structural)]
pub enum AlphaMode {
    OPAQUE,
    MASK,
    BLEND,
}

/// An RGBA color factor, per-channel number text; default all `1.0`.
pub struct Color4 {
    pub r: Vec<u8>,
    pub g: Vec<u8>,
    pub b: Vec<u8>,
    pub a: Vec<u8>,
}

impl Color4 {
    pub open spec fn spec_is_default(&self) -> bool {
        self.r@ == txt_one() && self.g@ == txt_one() && self.b@ == txt_one() && self.a@
            == txt_one()
    }

    pub fn new() -> (r: Color4)
        ensures
            r.spec_is_default(),
    {
        Color4 { r: make_one(), g: make_one(), b: make_one(), a: make_one() }
    }

    pub fn is_default(&self) -> (res: bool)
        ensures
            res == self.spec_is_default(),
    {
        let one = make_one();
        bytes_eq(&self.r, &one) && bytes_eq(&self.g, &one) && bytes_eq(&self.b, &one) && bytes_eq(
            &self.a,
            &one,
        )
    }
}

/// The metallic-roughness material model; factors default to `1.0`.
pub struct PBRMetallicRoughness {
    pub base_color_factor: Color4,
    pub metallic_factor: Vec<u8>,
    pub roughness_factor: Vec<u8>,
}

impl PBRMetallicRoughness {
    pub fn new() -> (r: PBRMetallicRoughness)
        ensures
            r.base_color_factor.spec_is_default(),
            r.metallic_factor@ == txt_one(),
            r.roughness_factor@ == txt_one(),
    {
        PBRMetallicRoughness {
            base_color_factor: Color4::new(),
            metallic_factor: make_one(),
            roughness_factor: make_one(),
        }
    }
}

/// A material; every field has a documented default.
pub struct Material {
    pub name: Vec<u8>,
    pub emissive_factor: Translation,
    pub alpha_mode: AlphaMode,
    pub alpha_cutoff: Vec<u8>,
    pub double_sided: bool,
    pub pbr_metallic_roughness: PBRMetallicRoughness,
}

impl Material {
    pub fn new(name: Vec<u8>) -> (r: Material)
        ensures
            r.name == name,
            r.emissive_factor.spec_is_default(),
            r.alpha_mode == AlphaMode::OPAQUE,
            r.alpha_cutoff@ == txt_half(),
            r.double_sided == false,
            r.pbr_metallic_roughness.base_color_factor.spec_is_default(),
            r.pbr_metallic_roughness.metallic_factor@ == txt_one(),
            r.pbr_metallic_roughness.roughness_factor@ == txt_one(),
    {
        Material {
            name,
            emissive_factor: Translation::new(),
            alpha_mode: AlphaMode::OPAQUE,
            alpha_cutoff: make_half(),
            double_sided: false,
            pbr_metallic_roughness: PBRMetallicRoughness::new(),
        }
    }
}

/// The accessor handles a primitive's vertex streams can bind.
#[derive(Debug, Clone, Copy, PartialEq, Eq, Structural)]
pub struct Attributes {
    pub color_0: Option<u32>,
    pub joints_0: Option<u32>,
    pub normal: Option<u32>,
    pub position: Option<u32>,
    pub tangent: Option<u32>,
    pub texcoord_0: Option<u32>,
    pub texcoord_1: Option<u32>,
    pub texcoord_2: Option<u32>,
    pub texcoord_3: Option<u32>,
    pub weights_0: Option<u32>,
}

/// All attribute slots empty.
pub open spec fn attributes_empty() -> Attributes {
    Attributes {
        color_0: None,
        joints_0: None,
        normal: None,
        position: None,
        tangent: None,
        texcoord_0: None,
        texcoord_1: None,
        texcoord_2: None,
        texcoord_3: None,
        weights_0: None,
    }
}

impl Attributes {
    pub fn new() -> (r: Attributes)
        ensures
            r == attributes_empty(),
    {
        Attributes {
            color_0: None,
            joints_0: None,
            normal: None,
            position: None,
            tangent: None,
            texcoord_0: None,
            texcoord_1: None,
            texcoord_2: None,
            texcoord_3: None,
            weights_0: None,
        }
    }
}

/// A primitive's draw mode; default `Triangles`.
#[derive(Debug, Clone, Copy, PartialEq, Eq, Structural)]
pub enum Mode {
    Points,
    Lines,
    LineLoop,
    LineStrip,
    Triangles,
    TriangleStrip,
    TriangleFan,
}

impl Mode {
    /// The stable glTF code of the mode.
    pub open spec fn spec_code(self) -> u32 {
        match self {
            Mode::Points => 0,
            Mode::Lines => 1,
            Mode::LineLoop => 2,
            Mode::LineStrip => 3,
            Mode::Triangles => 4,
            Mode::TriangleStrip => 5,
            Mode::TriangleFan => 6,
        }
    }

    pub fn code(self) -> (r: u32)
        ensures
            r == self.spec_code(),
    {
        match self {
            Mode::Points => 0,
            Mode::Lines => 1,
            Mode::LineLoop => 2,
            Mode::LineStrip => 3,
            Mode::Triangles => 4,
            Mode::TriangleStrip => 5,
            Mode::TriangleFan => 6,
        }
    }
}

/// One drawable piece of a mesh: attribute accessors, an optional index
/// accessor and material.
#[derive(Debug, Clone, Copy, PartialEq, Eq, Structural)]
pub struct MeshPrimitive {
    pub attributes: Attributes,
    pub indices: Option<u32>,
    pub material: Option<u32>,
    pub mode: Mode,
}

impl MeshPrimitive {
    pub fn new() -> (r: MeshPrimitive)
        ensures
            r.attributes == attributes_empty(),
            r.indices is None,
            r.material is None,
            r.mode == Mode::Triangles,
    {
        MeshPrimitive {
            attributes: Attributes::new(),
            indices: None,
            material: None,
            mode: Mode::Triangles,
        }
    }

    /// Sets the material handle.
    pub fn material(&mut self, material: u32)
        ensures
            *final(self) == (MeshPrimitive { material: Some(material), ..*old(self) }),
    {
        self.material = Some(material);
    }
}

/// A mesh: a list of primitives, and optional morph weights.
pub struct Mesh {
    pub name: Vec<u8>,
    pub primitives: Vec<MeshPrimitive>,
    pub weights: Vec<Vec<u8>>,
}

impl Mesh {
    pub fn new(name: Vec<u8>) -> (r: Mesh)
        ensures
            r.name == name,
            r.primitives@ == Seq::<MeshPrimitive>::empty(),
            r.weights@ == Seq::<Vec<u8>>::empty(),
    {
        Mesh { name, primitives: Vec::new(), weights: Vec::new() }
    }
}

/// The scalar type stored in an accessor's components.
#[derive(Debug, Clone, Copy, PartialEq, Eq, Structural)]
pub enum ComponentType {
    Byte,
    UnsignedByte,
    Short,
    UnsignedShort,
    UnsignedInt,
    Float,
}

impl ComponentType {
    /// Bytes per component.
    pub open spec fn spec_byte_count(self) -> u32 {
        match self {
            ComponentType::Byte => 1,
            ComponentType::UnsignedByte => 1,
            ComponentType::Short => 2,
            ComponentType::UnsignedShort => 2,
            ComponentType::UnsignedInt => 4,
            ComponentType::Float => 4,
        }
    }

    pub fn byte_count(&self) -> (r: u32)
        ensures
            r == self.spec_byte_count(),
    {
        match self {
            ComponentType::Byte => 1,
            ComponentType::UnsignedByte => 1,
            ComponentType::Short => 2,
            ComponentType::UnsignedShort => 2,
            ComponentType::UnsignedInt => 4,
            ComponentType::Float => 4,
        }
    }

    /// The stable glTF code of the component type.
    pub open spec fn spec_code(self) -> u32 {
        match self {
            ComponentType::Byte => 5120,
            ComponentType::UnsignedByte => 5121,
            ComponentType::Short => 5122,
            ComponentType::UnsignedShort => 5123,
            ComponentType::UnsignedInt => 5125,
            ComponentType::Float => 5126,
        }
    }

    pub fn code(&self) -> (r: u32)
        ensures
            r == self.spec_code(),
    {
        match self {
            ComponentType::Byte => 5120,
            ComponentType::UnsignedByte => 5121,
            ComponentType::Short => 5122,
            ComponentType::UnsignedShort => 5123,
            ComponentType::UnsignedInt => 5125,
            ComponentType::Float => 5126,
        }
    }
}

/// The element shape stored in an accessor.
#[derive(Debug, Clone, Copy, PartialEq, Eq, Structural)]
pub enum Type {
    SCALAR,
    VEC2,
    VEC3,
    VEC4,
    MAT2,
    MAT3,
    MAT4,
}

impl Type {
    /// Components per element.
    pub open spec fn spec_component_count(self) -> u32 {
        match self {
            Type::SCALAR => 1,
            Type::VEC2 => 2,
            Type::VEC3 => 3,
            Type::VEC4 => 4,
            Type::MAT2 => 4,
            Type::MAT3 => 9,
            Type::MAT4 => 16,
        }
    }

    pub fn component_count(&self) -> (r: u32)
        ensures
            r == self.spec_component_count(),
    {
        match self {
            Type::SCALAR => 1,
            Type::VEC2 => 2,
            Type::VEC3 => 3,
            Type::VEC4 => 4,
            Type::MAT2 => 4,
            Type::MAT3 => 9,
            Type::MAT4 => 16,
        }
    }
}

/// A typed window into a buffer view.
pub struct Accessor {
    pub name: Vec<u8>,
    pub buffer_view: Option<u32>,
    pub byte_offset: u32,
    pub component_type: ComponentType,
    pub normalized: bool,
    pub count: u32,
    pub type_: Type,
    pub max: Vec<Vec<u8>>,
    pub min: Vec<Vec<u8>>,
}

impl Accessor {
    pub fn new(name: Vec<u8>) -> (r: Accessor)
        ensures
            r.name == name,
            r.buffer_view is None,
            r.byte_offset == 0,
            r.component_type == ComponentType::Byte,
            r.normalized == false,
            r.count == 0,
            r.type_ == Type::SCALAR,
            r.max@ == Seq::<Vec<u8>>::empty(),
            r.min@ == Seq::<Vec<u8>>::empty(),
    {
        Accessor {
            name,
            buffer_view: None,
            byte_offset: 0,
            component_type: ComponentType::Byte,
            normalized: false,
            count: 0,
            type_: Type::SCALAR,
            max: Vec::new(),
            min: Vec::new(),
        }
    }
}

/// The intended GPU binding of a buffer view.
#[derive(Debug, Clone, Copy, PartialEq, Eq, Structural)]
pub enum Target {
    ArrayBuffer,
    ElementArrayBuffer,
}

impl Target {
    /// The stable glTF code of the target.
    pub open spec fn spec_code(self) -> u32 {
        match self {
            Target::ArrayBuffer => 34962,
            Target::ElementArrayBuffer => 34963,
        }
    }

    pub fn code(&self) -> (r: u32)
        ensures
            r == self.spec_code(),
    {
        match self {
            Target::ArrayBuffer => 34962,
            Target::ElementArrayBuffer => 34963,
        }
    }
}

/// A contiguous byte range inside a buffer.
pub struct BufferView {
    pub name: Vec<u8>,
    pub buffer: u32,
    pub byte_length: u32,
    pub byte_offset: u32,
    pub byte_stride: Option<u32>,
    pub target: Option<Target>,
}

impl BufferView {
    pub fn new(name: Vec<u8>) -> (r: BufferView)
        ensures
            r.name == name,
            r.buffer == 0,
            r.byte_length == 0,
            r.byte_offset == 0,
            r.byte_stride is None,
            r.target is None,
    {
        BufferView {
            name,
            buffer: 0,
            byte_length: 0,
            byte_offset: 0,
            byte_stride: None,
            target: None,
        }
    }
}

/// A byte buffer; the single packed buffer rides in the GLB BIN chunk.
pub struct Buffer {
    pub name: Vec<u8>,
    pub byte_length: u32,
    pub uri: Vec<u8>,
}

impl Buffer {
    pub fn new(name: Vec<u8>) -> (r: Buffer)
        ensures
            r.name == name,
            r.byte_length == 0,
            r.uri@ == Seq::<u8>::empty(),
    {
        Buffer { name, byte_length: 0, uri: Vec::new() }
    }
}

/// The two accessor handles a packed geometry binds: its positions and
/// its indices.
#[derive(Debug, Clone, Copy, PartialEq, Eq, Structural)]
pub struct PackedGeometry {
    pub vtx_buffer: u32,
    pub tri_buffer: u32,
}

/// The scene document under edit, together with its packed binary
/// blob.
pub struct GLTF {
    pub asset: Asset,
    pub scene: Option<u32>,
    pub scenes: Vec<Scene>,
    pub nodes: Vec<Node>,
    pub materials: Vec<Material>,
    pub meshes: Vec<Mesh>,
    pub accessors: Vec<Accessor>,
    pub buffer_views: Vec<BufferView>,
    pub buffers: Vec<Buffer>,
    pub bin: Vec<u8>,
}

pub open spec fn scene_wf(s: Scene, n_nodes: int) -> bool {
    forall|j: int| 0 <= j < s.nodes@.len() ==> #[trigger] s.nodes@[j] < n_nodes
}

pub open spec fn node_wf(n: Node, n_nodes: int, n_meshes: int) -> bool {
    &&& match n.mesh {
        Some(h) => h < n_meshes,
        None => true,
    }
    &&& forall|j: int| 0 <= j < n.children@.len() ==> #[trigger] n.children@[j] < n_nodes
}

pub open spec fn opt_lt(o: Option<u32>, n: int) -> bool {
    match o {
        Some(h) => h < n,
        None => true,
    }
}

pub open spec fn prim_wf(p: MeshPrimitive, n_materials: int, n_accessors: int) -> bool {
    &&& opt_lt(p.material, n_materials)
    &&& opt_lt(p.indices, n_accessors)
    &&& opt_lt(p.attributes.color_0, n_accessors)
    &&& opt_lt(p.attributes.joints_0, n_accessors)
    &&& opt_lt(p.attributes.normal, n_accessors)
    &&& opt_lt(p.attributes.position, n_accessors)
    &&& opt_lt(p.attributes.tangent, n_accessors)
    &&& opt_lt(p.attributes.texcoord_0, n_accessors)
    &&& opt_lt(p.attributes.texcoord_1, n_accessors)
    &&& opt_lt(p.attributes.texcoord_2, n_accessors)
    &&& opt_lt(p.attributes.texcoord_3, n_accessors)
    &&& opt_lt(p.attributes.weights_0, n_accessors)
}

pub open spec fn mesh_wf(m: Mesh, n_materials: int, n_accessors: int) -> bool {
    forall|j: int|
        0 <= j < m.primitives@.len() ==> prim_wf(#[trigger] m.primitives@[j], n_materials,
            n_accessors)
}

impl GLTF {
    /// The invariant every document operation preserves: every stored
    /// handle points inside its target collection, the first buffer's
    /// length tracks the binary blob, and every collection stays
    /// addressable by `u32`.
    pub open spec fn wf(self) -> bool {
        &&& self.scenes@.len() < 0x1_0000_0000
        &&& self.nodes@.len() < 0x1_0000_0000
        &&& self.materials@.len() < 0x1_0000_0000
        &&& self.meshes@.len() < 0x1_0000_0000
        &&& self.accessors@.len() < 0x1_0000_0000
        &&& self.buffer_views@.len() < 0x1_0000_0000
        &&& 1 <= self.buffers@.len() < 0x1_0000_0000
        &&& self.buffers@[0].byte_length == self.bin@.len()
        &&& opt_lt(self.scene, self.scenes@.len() as int)
        &&& forall|i: int|
            0 <= i < self.scenes@.len() ==> scene_wf(
                #[trigger] self.scenes@[i],
                self.nodes@.len() as int,
            )
        &&& forall|i: int|
            0 <= i < self.nodes@.len() ==> node_wf(
                #[trigger] self.nodes@[i],
                self.nodes@.len() as int,
                self.meshes@.len() as int,
            )
        &&& forall|i: int|
            0 <= i < self.meshes@.len() ==> mesh_wf(
                #[trigger] self.meshes@[i],
                self.materials@.len() as int,
                self.accessors@.len() as int,
            )
        &&& forall|i: int|
            0 <= i < self.accessors@.len() ==> opt_lt(
                (#[trigger] self.accessors@[i]).buffer_view,
                self.buffer_views@.len() as int,
            )
        &&& forall|i: int|
            0 <= i < self.buffer_views@.len() ==> (#[trigger] self.buffer_views@[i]).buffer
                < self.buffers@.len()
    }

    /// A fresh document: generator and versions set, one empty default
    /// scene (handle 0), one empty buffer (handle 0), empty blob.
    pub fn new() -> (r: GLTF)
        ensures
            r.asset.generator@ == generator_text(),
            r.asset.version@ == version_text(),
            r.asset.min_version@ == version_text(),
            r.asset.copyright@ == Seq::<u8>::empty(),
            r.scene == Some(0u32),
            r.scenes@.len() == 1,
            r.scenes@[0].name@ == Seq::<u8>::empty(),
            r.scenes@[0].nodes@ == Seq::<u32>::empty(),
            r.nodes@ == Seq::<Node>::empty(),
            r.materials@ == Seq::<Material>::empty(),
            r.meshes@ == Seq::<Mesh>::empty(),
            r.accessors@ == Seq::<Accessor>::empty(),
            r.buffer_views@ == Seq::<BufferView>::empty(),
            r.buffers@.len() == 1,
            r.buffers@[0].byte_length == 0,
            r.buffers@[0].name@ == Seq::<u8>::empty(),
            r.buffers@[0].uri@ == Seq::<u8>::empty(),
            r.bin@ == Seq::<u8>::empty(),
            r.wf(),
    {
        let mut scenes: Vec<Scene> = Vec::new();
        scenes.push(Scene::new(Vec::new()));
        let mut buffers: Vec<Buffer> = Vec::new();
        buffers.push(Buffer::new(Vec::new()));
        GLTF {
            asset: Asset::new(),
            scene: Some(0),
            scenes,
            nodes: Vec::new(),
            materials: Vec::new(),
            meshes: Vec::new(),
            accessors: Vec::new(),
            buffer_views: Vec::new(),
            buffers,
            bin: Vec::new(),
        }
    }

    pub fn get_scene_count(&self) -> (r: usize)
        ensures
            r == self.scenes@.len(),
    {
        self.scenes.len()
    }

    pub fn get_node_count(&self) -> (r: usize)
        ensures
            r == self.nodes@.len(),
    {
        self.nodes.len()
    }

    pub fn get_mesh_count(&self) -> (r: usize)
        ensures
            r == self.meshes@.len(),
    {
        self.meshes.len()
    }

    pub fn get_material_count(&self) -> (r: usize)
        ensures
            r == self.materials@.len(),
    {
        self.materials.len()
    }

    pub fn mesh_get_prim_count(&self, handle: u32) -> (r: usize)
        requires
            handle < self.meshes@.len(),
        ensures
            r == self.meshes@[handle as int].primitives@.len(),
    {
        self.meshes[handle as usize].primitives.len()
    }

    /// Appends a material built from the given name, base color and
    /// PBR factors; returns its handle.
    pub fn new_material(
        &mut self,
        name: Vec<u8>,
        r: Vec<u8>,
        g: Vec<u8>,
        b: Vec<u8>,
        a: Vec<u8>,
        metallicity: Vec<u8>,
        roughness: Vec<u8>,
    ) -> (handle: usize)
        requires
            old(self).wf(),
            old(self).materials@.len() + 1 < 0x1_0000_0000,
        ensures
            handle == old(self).materials@.len(),
            final(self).materials@.len() == old(self).materials@.len() + 1,
            ({
                let m = final(self).materials@.last();
                &&& m.name == name
                &&& m.pbr_metallic_roughness.base_color_factor.r == r
                &&& m.pbr_metallic_roughness.base_color_factor.g == g
                &&& m.pbr_metallic_roughness.base_color_factor.b == b
                &&& m.pbr_metallic_roughness.base_color_factor.a == a
                &&& m.pbr_metallic_roughness.metallic_factor == metallicity
                &&& m.pbr_metallic_roughness.roughness_factor == roughness
                &&& m.emissive_factor.spec_is_default()
                &&& m.alpha_mode == AlphaMode::OPAQUE
                &&& m.alpha_cutoff@ == txt_half()
                &&& m.double_sided == false
            }),
            final(self).materials@.drop_last() == old(self).materials@,
            *final(self) == (GLTF { materials: final(self).materials, ..*old(self) }),
            final(self).wf(),
    {
        let handle = self.materials.len();
        let mut material = Material::new(name);
        material.pbr_metallic_roughness = PBRMetallicRoughness {
            base_color_factor: Color4 { r, g, b, a },
            metallic_factor: metallicity,
            roughness_factor: roughness,
        };
        self.materials.push(material);
        proof {
            assert forall|i: int| 0 <= i < self.meshes@.len() implies mesh_wf(
                #[trigger] self.meshes@[i],
                self.materials@.len() as int,
                self.accessors@.len() as int,
            ) by {
                assert(mesh_wf(self.meshes@[i], old(self).materials@.len() as int,
                    self.accessors@.len() as int));
                assert forall|j: int| 0 <= j < self.meshes@[i].primitives@.len() implies prim_wf(
                    #[trigger] self.meshes@[i].primitives@[j],
                    self.materials@.len() as int,
                    self.accessors@.len() as int,
                ) by {
                    assert(prim_wf(self.meshes@[i].primitives@[j],
                        old(self).materials@.len() as int, self.accessors@.len() as int));
                }
            }
        }
        handle
    }

    /// Adds a node handle to a scene's root list.
    pub fn scene_add_node(&mut self, scene: usize, node: usize) -> (r: Result<(), ErrorCode>)
        requires
            old(self).wf(),
        ensures
            r is Ok <==> (scene < old(self).scenes@.len() && node < old(self).nodes@.len()),
            r is Err ==> r->Err_0 == ErrorCode::HandleOutOfBounds && *final(self) == *old(self),
            r is Ok ==> final(self).scenes@ == old(self).scenes@.update(
                scene as int,
                Scene {
                    nodes: final(self).scenes@[scene as int].nodes,
                    ..old(self).scenes@[scene as int]
                },
            ) && final(self).scenes@[scene as int].nodes@ == old(self).scenes@[scene as int].nodes@
                .push(node as u32) && *final(self) == (GLTF {
                scenes: final(self).scenes,
                ..*old(self)
            }),
            final(self).wf(),
    {
        if scene >= self.scenes.len() {
            return Err(ErrorCode::HandleOutOfBounds);
        }
        if node >= self.nodes.len() {
            return Err(ErrorCode::HandleOutOfBounds);
        }
        let sc = &mut self.scenes[scene];
        sc.nodes.push(node as u32);
        Ok(())
    }

    /// Appends a fresh node; returns its handle.
    pub fn node_new(&mut self, name: Vec<u8>) -> (handle: usize)
        requires
            old(self).wf(),
            old(self).nodes@.len() + 1 < 0x1_0000_0000,
        ensures
            handle == old(self).nodes@.len(),
            final(self).nodes@.len() == old(self).nodes@.len() + 1,
            final(self).nodes@.drop_last() == old(self).nodes@,
            final(self).nodes@.last().name == name,
            final(self).nodes@.last().mesh is None,
            final(self).nodes@.last().t.spec_is_default(),
            final(self).nodes@.last().r.spec_is_default(),
            final(self).nodes@.last().s.spec_is_default(),
            final(self).nodes@.last().matrix is None,
            final(self).nodes@.last().children@ == Seq::<u32>::empty(),
            *final(self) == (GLTF { nodes: final(self).nodes, ..*old(self) }),
            final(self).wf(),
    {
        let handle = self.nodes.len();
        self.nodes.push(Node::new(name));
        proof {
            assert forall|i: int| 0 <= i < self.nodes@.len() implies node_wf(
                #[trigger] self.nodes@[i],
                self.nodes@.len() as int,
                self.meshes@.len() as int,
            ) by {
                if i < old(self).nodes@.len() {
                    assert(node_wf(self.nodes@[i], old(self).nodes@.len() as int,
                        self.meshes@.len() as int));
                }
            }
            assert forall|i: int| 0 <= i < self.scenes@.len() implies scene_wf(
                #[trigger] self.scenes@[i],
                self.nodes@.len() as int,
            ) by {
                assert(scene_wf(self.scenes@[i], old(self).nodes@.len() as int));
            }
        }
        handle
    }

    /// Adds `node_2` to `node_1`'s children.
    pub fn node_add_node(&mut self, node_1: usize, node_2: usize) -> (r: Result<(), ErrorCode>)
        requires
            old(self).wf(),
        ensures
            r is Ok <==> (node_1 < old(self).nodes@.len() && node_2 < old(self).nodes@.len()),
            r is Err ==> r->Err_0 == ErrorCode::HandleOutOfBounds && *final(self) == *old(self),
            r is Ok ==> final(self).nodes@ == old(self).nodes@.update(
                node_1 as int,
                Node {
                    children: final(self).nodes@[node_1 as int].children,
                    ..old(self).nodes@[node_1 as int]
                },
            ) && final(self).nodes@[node_1 as int].children@ == old(self).nodes@[node_1 as int]
                .children@.push(node_2 as u32) && *final(self) == (GLTF {
                nodes: final(self).nodes,
                ..*old(self)
            }),
            final(self).wf(),
    {
        if node_1 >= self.nodes.len() {
            return Err(ErrorCode::HandleOutOfBounds);
        }
        if node_2 >= self.nodes.len() {
            return Err(ErrorCode::HandleOutOfBounds);
        }
        let nd = &mut self.nodes[node_1];
        nd.children.push(node_2 as u32);
        Ok(())
    }

    /// Sets a node's translation.
    pub fn node_set_translation(&mut self, node: usize, x: Vec<u8>, y: Vec<u8>, z: Vec<u8>) -> (r:
        Result<(), ErrorCode>)
        requires
            old(self).wf(),
        ensures
            r is Ok <==> node < old(self).nodes@.len(),
            r is Err ==> r->Err_0 == ErrorCode::HandleOutOfBounds && *final(self) == *old(self),
            r is Ok ==> final(self).nodes@ == old(self).nodes@.update(
                node as int,
                Node { t: Translation { x, y, z }, ..old(self).nodes@[node as int] },
            ) && *final(self) == (GLTF { nodes: final(self).nodes, ..*old(self) }),
            final(self).wf(),
    {
        if node >= self.nodes.len() {
            return Err(ErrorCode::HandleOutOfBounds);
        }
        let nd = &mut self.nodes[node];
        nd.t = Translation { x, y, z };
        Ok(())
    }

    /// Sets a node's rotation quaternion.
    pub fn node_set_rotation(
        &mut self,
        node: usize,
        x: Vec<u8>,
        y: Vec<u8>,
        z: Vec<u8>,
        w: Vec<u8>,
    ) -> (r: Result<(), ErrorCode>)
        requires
            old(self).wf(),
        ensures
            r is Ok <==> node < old(self).nodes@.len(),
            r is Err ==> r->Err_0 == ErrorCode::HandleOutOfBounds && *final(self) == *old(self),
            r is Ok ==> final(self).nodes@ == old(self).nodes@.update(
                node as int,
                Node { r: Rotation { x, y, z, w }, ..old(self).nodes@[node as int] },
            ) && *final(self) == (GLTF { nodes: final(self).nodes, ..*old(self) }),
            final(self).wf(),
    {
        if node >= self.nodes.len() {
            return Err(ErrorCode::HandleOutOfBounds);
        }
        let nd = &mut self.nodes[node];
        nd.r = Rotation { x, y, z, w };
        Ok(())
    }

    /// Sets a node's scale.
    pub fn node_set_scale(&mut self, node: usize, x: Vec<u8>, y: Vec<u8>, z: Vec<u8>) -> (r: Result<
        (),
        ErrorCode,
    >)
        requires
            old(self).wf(),
        ensures
            r is Ok <==> node < old(self).nodes@.len(),
            r is Err ==> r->Err_0 == ErrorCode::HandleOutOfBounds && *final(self) == *old(self),
            r is Ok ==> final(self).nodes@ == old(self).nodes@.update(
                node as int,
                Node { s: Scale { x, y, z }, ..old(self).nodes@[node as int] },
            ) && *final(self) == (GLTF { nodes: final(self).nodes, ..*old(self) }),
            final(self).wf(),
    {
        if node >= self.nodes.len() {
            return Err(ErrorCode::HandleOutOfBounds);
        }
        let nd = &mut self.nodes[node];
        nd.s = Scale { x, y, z };
        Ok(())
    }

    /// Sets a node's 4x4 matrix, sixteen number texts in column order.
    pub fn node_set_matrix(&mut self, node: usize, m: Vec<Vec<u8>>) -> (r: Result<(), ErrorCode>)
        requires
            old(self).wf(),
            m@.len() == 16,
        ensures
            r is Ok <==> node < old(self).nodes@.len(),
            r is Err ==> r->Err_0 == ErrorCode::HandleOutOfBounds && *final(self) == *old(self),
            r is Ok ==> final(self).nodes@ == old(self).nodes@.update(
                node as int,
                Node { matrix: Some(m), ..old(self).nodes@[node as int] },
            ) && *final(self) == (GLTF { nodes: final(self).nodes, ..*old(self) }),
            final(self).wf(),
    {
        if node >= self.nodes.len() {
            return Err(ErrorCode::HandleOutOfBounds);
        }
        let nd = &mut self.nodes[node];
        nd.matrix = Some(m);
        Ok(())
    }

    /// Binds a mesh to a node.
    pub fn node_set_mesh(&mut self, node: usize, mesh: usize) -> (r: Result<(), ErrorCode>)
        requires
            old(self).wf(),
        ensures
            r is Ok <==> (node < old(self).nodes@.len() && mesh < old(self).meshes@.len()),
            r is Err ==> r->Err_0 == ErrorCode::HandleOutOfBounds && *final(self) == *old(self),
            r is Ok ==> final(self).nodes@ == old(self).nodes@.update(
                node as int,
                Node { mesh: Some(mesh as u32), ..old(self).nodes@[node as int] },
            ) && *final(self) == (GLTF { nodes: final(self).nodes, ..*old(self) }),
            final(self).wf(),
    {
        if node >= self.nodes.len() {
            return Err(ErrorCode::HandleOutOfBounds);
        }
        if mesh >= self.meshes.len() {
            return Err(ErrorCode::HandleOutOfBounds);
        }
        let nd = &mut self.nodes[node];
        nd.mesh = Some(mesh as u32);
        Ok(())
    }

    /// Appends a fresh mesh; returns its handle.
    pub fn mesh_new(&mut self, name: Vec<u8>) -> (handle: usize)
        requires
            old(self).wf(),
            old(self).meshes@.len() + 1 < 0x1_0000_0000,
        ensures
            handle == old(self).meshes@.len(),
            final(self).meshes@.len() == old(self).meshes@.len() + 1,
            final(self).meshes@.drop_last() == old(self).meshes@,
            final(self).meshes@.last().name == name,
            final(self).meshes@.last().primitives@ == Seq::<MeshPrimitive>::empty(),
            final(self).meshes@.last().weights@ == Seq::<Vec<u8>>::empty(),
            *final(self) == (GLTF { meshes: final(self).meshes, ..*old(self) }),
            final(self).wf(),
    {
        let handle = self.meshes.len();
        self.meshes.push(Mesh::new(name));
        handle
    }

    /// Appends to a mesh a triangle primitive over a packed geometry's
    /// accessors and a material; returns the primitive's index within
    /// the mesh.
    pub fn mesh_add_prim(&mut self, mesh: usize, pg: &PackedGeometry, material: usize) -> (r:
        Result<usize, ErrorCode>)
        requires
            old(self).wf(),
        ensures
            r is Ok <==> (mesh < old(self).meshes@.len() && material < old(self).materials@.len()
                && pg.vtx_buffer < old(self).accessors@.len() && pg.tri_buffer < old(
                self,
            ).accessors@.len()),
            r is Err ==> r->Err_0 == ErrorCode::HandleOutOfBounds && *final(self) == *old(self),
            r is Ok ==> ({
                let p = MeshPrimitive {
                    attributes: Attributes { position: Some(pg.vtx_buffer), ..attributes_empty() },
                    indices: Some(pg.tri_buffer),
                    material: Some(material as u32),
                    mode: Mode::Triangles,
                };
                &&& r->Ok_0 == old(self).meshes@[mesh as int].primitives@.len()
                &&& final(self).meshes@ == old(self).meshes@.update(
                    mesh as int,
                    Mesh {
                        primitives: final(self).meshes@[mesh as int].primitives,
                        ..old(self).meshes@[mesh as int]
                    },
                )
                &&& final(self).meshes@[mesh as int].primitives@ == old(self).meshes@[mesh as int]
                    .primitives@.push(p)
                &&& *final(self) == (GLTF { meshes: final(self).meshes, ..*old(self) })
            }),
            final(self).wf(),
    {
        if mesh >= self.meshes.len() {
            return Err(ErrorCode::HandleOutOfBounds);
        }
        if material >= self.materials.len() {
            return Err(ErrorCode::HandleOutOfBounds);
        }
        if pg.vtx_buffer as usize >= self.accessors.len() || pg.tri_buffer as usize
            >= self.accessors.len() {
            return Err(ErrorCode::HandleOutOfBounds);
        }
        let mut attributes = Attributes::new();
        attributes.position = Some(pg.vtx_buffer);
        let prim = MeshPrimitive {
            attributes,
            indices: Some(pg.tri_buffer),
            material: Some(material as u32),
            mode: Mode::Triangles,
        };
        let m = &mut self.meshes[mesh];
        let idx = m.primitives.len();
        m.primitives.push(prim);
        Ok(idx)
    }
}

} // verus!
