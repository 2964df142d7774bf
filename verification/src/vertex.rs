use vstd::prelude::*;
use vstd::hash_map::StringHashMap;
use crate::schema::{bare, Fault, SchemaError, SchemaFault};
use crate::text::str_eq;

verus! {

/// The format of one vertex attribute.
#[allow(non_camel_case_types)]
#[derive(Clone, Copy, Debug, PartialEq, Eq)]
pub enum VertexFormat {
    Uint8,
    Uint8x2,
    Uint8x4,
    Sint8,
    Sint8x2,
    Sint8x4,
    Unorm8,
    Unorm8x2,
    Unorm8x4,
    Snorm8,
    Snorm8x2,
    Snorm8x4,
    Uint16,
    Uint16x2,
    Uint16x4,
    Sint16,
    Sint16x2,
    Sint16x4,
    Unorm16,
    Unorm16x2,
    Unorm16x4,
    Snorm16,
    Snorm16x2,
    Snorm16x4,
    Float16,
    Float16x2,
    Float16x4,
    Float32,
    Float32x2,
    Float32x3,
    Float32x4,
    Uint32,
    Uint32x2,
    Uint32x3,
    Uint32x4,
    Sint32,
    Sint32x2,
    Sint32x3,
    Sint32x4,
    Float64,
    Float64x2,
    Float64x3,
    Float64x4,
    Unorm10_10_10_2,
    Unorm8x4Bgra,
}

/// Whether a vertex buffer advances with every vertex or every instance.
#[derive(Clone, Copy, Debug, PartialEq, Eq)]
pub enum VertexStepMode {
    Vertex,
    Instance,
}

/// One attribute of a vertex: where it lies in the vertex, where the
/// shader finds it, and its format.
#[derive(Clone, Copy, Debug, PartialEq, Eq)]
pub struct VertexAttribute {
    pub offset: u64,
    pub shader_location: u32,
    pub format: VertexFormat,
}

/// How the vertices lie in a vertex buffer.
#[derive(Clone, Debug, PartialEq, Eq)]
pub struct VertexBufferLayout {
    pub array_stride: u64,
    pub step_mode: VertexStepMode,
    pub attributes: Vec<VertexAttribute>,
}

/// The mathematical content of a `VertexBufferLayout`.
pub struct LayoutModel {
    pub array_stride: u64,
    pub step_mode: VertexStepMode,
    pub attributes: Seq<VertexAttribute>,
}

impl DeepView for VertexBufferLayout {
    type V = LayoutModel;

    open spec fn deep_view(&self) -> LayoutModel {
        LayoutModel {
            array_stride: self.array_stride,
            step_mode: self.step_mode,
            attributes: self.attributes@,
        }
    }
}

impl VertexBufferLayout {
    /// A copy of the layout.
    pub fn duplicate(&self) -> (copy: VertexBufferLayout)
        ensures
            copy.deep_view() == self.deep_view(),
    {
        let mut attributes: Vec<VertexAttribute> = Vec::new();
        let mut i: usize = 0;
        while i < self.attributes.len()
            invariant
                i <= self.attributes@.len(),
                attributes@ == self.attributes@.subrange(0, i as int),
            decreases self.attributes@.len() - i,
        {
            attributes.push(self.attributes[i]);
            proof {
                assert(attributes@ =~= self.attributes@.subrange(0, i + 1));
            }
            i += 1;
        }
        proof {
            assert(attributes@ =~= self.attributes@);
        }
        VertexBufferLayout { array_stride: self.array_stride, step_mode: self.step_mode, attributes }
    }
}

/// The built-in kinds of vertex.
#[derive(Clone, Copy, Debug, PartialEq, Eq)]
pub enum VertexType {
    /// A position of three 32-bit components and a colour of four.
    Color,
    /// A position of three 32-bit components and texture coordinates of two.
    Texture,
    /// A position of three, texture coordinates of two and a normal of three.
    Model,
}

impl VertexType {
    /// The kind that a layout name of a document names, if it names one.
    pub open spec fn of_name(name: Seq<char>) -> Option<VertexType> {
        if name == "COLOR_VERTEX"@ {
            Some(VertexType::Color)
        } else if name == "TEXTURE_VERTEX"@ {
            Some(VertexType::Texture)
        } else if name == "MODEL_VERTEX"@ {
            Some(VertexType::Model)
        } else {
            None
        }
    }

    /// The layout of a buffer of such vertices: the components are 32
    /// bits wide and lie one after the other without gaps.
    pub open spec fn spec_desc(self) -> LayoutModel {
        match self {
            VertexType::Color => LayoutModel {
                array_stride: 28,
                step_mode: VertexStepMode::Vertex,
                attributes: seq![
                    VertexAttribute { offset: 0, shader_location: 0, format: VertexFormat::Float32x3 },
                    VertexAttribute { offset: 12, shader_location: 1, format: VertexFormat::Float32x4 },
                ],
            },
            VertexType::Texture => LayoutModel {
                array_stride: 20,
                step_mode: VertexStepMode::Vertex,
                attributes: seq![
                    VertexAttribute { offset: 0, shader_location: 0, format: VertexFormat::Float32x3 },
                    VertexAttribute { offset: 12, shader_location: 1, format: VertexFormat::Float32x2 },
                ],
            },
            VertexType::Model => LayoutModel {
                array_stride: 32,
                step_mode: VertexStepMode::Vertex,
                attributes: seq![
                    VertexAttribute { offset: 0, shader_location: 0, format: VertexFormat::Float32x3 },
                    VertexAttribute { offset: 12, shader_location: 1, format: VertexFormat::Float32x2 },
                    VertexAttribute { offset: 20, shader_location: 2, format: VertexFormat::Float32x3 },
                ],
            },
        }
    }

    /// The kind that a layout name of a document names, if it names one.
    pub fn from_name(name: &str) -> (found: Option<VertexType>)
        ensures
            found == Self::of_name(name@),
    {
        if str_eq(name, "COLOR_VERTEX") {
            Some(VertexType::Color)
        } else if str_eq(name, "TEXTURE_VERTEX") {
            Some(VertexType::Texture)
        } else if str_eq(name, "MODEL_VERTEX") {
            Some(VertexType::Model)
        } else {
            None
        }
    }

    /// The layout of a buffer of such vertices.
    pub fn desc(self) -> (layout: VertexBufferLayout)
        ensures
            layout.deep_view() == self.spec_desc(),
    {
        let mut attributes: Vec<VertexAttribute> = Vec::new();
        attributes.push(
            VertexAttribute { offset: 0, shader_location: 0, format: VertexFormat::Float32x3 },
        );
        let array_stride: u64 = match self {
            VertexType::Color => {
                attributes.push(
                    VertexAttribute { offset: 12, shader_location: 1, format: VertexFormat::Float32x4 },
                );
                28
            },
            VertexType::Texture => {
                attributes.push(
                    VertexAttribute { offset: 12, shader_location: 1, format: VertexFormat::Float32x2 },
                );
                20
            },
            VertexType::Model => {
                attributes.push(
                    VertexAttribute { offset: 12, shader_location: 1, format: VertexFormat::Float32x2 },
                );
                attributes.push(
                    VertexAttribute { offset: 20, shader_location: 2, format: VertexFormat::Float32x3 },
                );
                32
            },
        };
        proof {
            assert(attributes@ =~= self.spec_desc().attributes);
        }
        VertexBufferLayout { array_stride, step_mode: VertexStepMode::Vertex, attributes }
    }
}

/// The layout of a buffer of per-instance transforms: a 4x4 matrix of
/// 32-bit components, handed to the shader as four columns at the
/// locations 5 to 8.
pub open spec fn spec_instance_desc() -> LayoutModel {
    LayoutModel {
        array_stride: 64,
        step_mode: VertexStepMode::Instance,
        attributes: Seq::new(
            4,
            |i: int|
                VertexAttribute {
                    offset: (16 * i) as u64,
                    shader_location: (5 + i) as u32,
                    format: VertexFormat::Float32x4,
                },
        ),
    }
}

/// The layout of a buffer of per-instance transforms.
pub fn instance_desc() -> (layout: VertexBufferLayout)
    ensures
        layout.deep_view() == spec_instance_desc(),
{
    let mut attributes: Vec<VertexAttribute> = Vec::new();
    let mut i: u32 = 0;
    while i < 4
        invariant
            i <= 4,
            attributes@.len() == i,
            forall|j: int|
                0 <= j < i ==> attributes@[j] == (VertexAttribute {
                    offset: (16 * j) as u64,
                    shader_location: (5 + j) as u32,
                    format: VertexFormat::Float32x4,
                }),
        decreases 4 - i,
    {
        attributes.push(
            VertexAttribute {
                offset: 16 * (i as u64),
                shader_location: 5 + i,
                format: VertexFormat::Float32x4,
            },
        );
        i += 1;
    }
    proof {
        assert(attributes@ =~= spec_instance_desc().attributes);
    }
    VertexBufferLayout { array_stride: 64, step_mode: VertexStepMode::Instance, attributes }
}

/// Vertex layouts that an application has added under names of its own.
pub struct VertexRegistry {
    layouts: StringHashMap<VertexBufferLayout>,
}

impl VertexRegistry {
    /// The registered layouts by name.
    pub closed spec fn layouts(&self) -> Map<Seq<char>, LayoutModel> {
        Map::new(
            |name: Seq<char>| self.layouts@.contains_key(name),
            |name: Seq<char>| self.layouts@[name].deep_view(),
        )
    }

    /// A registry without layouts.
    pub fn new() -> (registry: Self)
        ensures
            registry.layouts() == Map::<Seq<char>, LayoutModel>::empty(),
    {
        let registry = VertexRegistry { layouts: StringHashMap::new() };
        proof {
            assert(registry.layouts() =~= Map::<Seq<char>, LayoutModel>::empty());
        }
        registry
    }
}

/// The layout that `name` stands for: a built-in kind of vertex comes
/// first, then what the registry holds under the name.
pub open spec fn spec_desc_from_name(name: Seq<char>, registry: VertexRegistry) -> Result<
    LayoutModel,
    SchemaFault,
> {
    match VertexType::of_name(name) {
        Some(kind) => Ok(kind.spec_desc()),
        None => if registry.layouts().contains_key(name) {
            Ok(registry.layouts()[name])
        } else {
            Err(bare(Fault::Unrecognized, Some(name)))
        },
    }
}

/// Registers `desc` under `name`, in place of what was registered under
/// that name before.
pub fn register_type(registry: &mut VertexRegistry, name: &str, desc: VertexBufferLayout)
    ensures
        final(registry).layouts() == old(registry).layouts().insert(name@, desc.deep_view()),
{
    registry.layouts.insert(name.to_owned(), desc);
    proof {
        assert(registry.layouts() =~= old(registry).layouts().insert(name@, desc.deep_view()));
    }
}

/// The layout that `name` stands for.
pub fn desc_from_name(name: &str, registry: &VertexRegistry) -> (found: Result<
    VertexBufferLayout,
    SchemaError,
>)
    ensures
        match found {
            Ok(layout) => spec_desc_from_name(name@, *registry) == Ok::<LayoutModel, SchemaFault>(
                layout.deep_view(),
            ),
            Err(e) => spec_desc_from_name(name@, *registry) == Err::<LayoutModel, SchemaFault>(
                e.deep_view(),
            ),
        },
{
    match VertexType::from_name(name) {
        Some(kind) => Ok(kind.desc()),
        None => match registry.layouts.get(name) {
            Some(layout) => Ok(layout.duplicate()),
            None => Err(SchemaError::bare_unrecognized(name)),
        },
    }
}

} // verus!
