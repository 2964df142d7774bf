use vstd::prelude::*;
use crate::binding::{
    AstcBlock, AstcChannel, BindingKind, BindingType, BufferBindingType, SampleKind,
    SamplerBindingType, ShaderStages, StorageTextureAccess, TextureFormat, TextureSampleType,
    TextureViewDimension,
};
use crate::schema::{
    agrees, agrees_deep, bare, flag, invalid, items, optional_items, optional_u64, required,
    spec_each, spec_flag, spec_items, spec_optional_items, spec_optional_u64, spec_required,
    spec_text, text, under, unrecognized, zero, lemma_each_fault_persists,
    lemma_each_fault_spreads, Fault, Field,
    SchemaError, SchemaFault, Step,
};
use crate::text::str_eq;
use crate::vertex::{desc_from_name, spec_desc_from_name, LayoutModel, VertexBufferLayout, VertexRegistry};
use crate::yaml::Yaml;

verus! {

/// One binding of a bind group: its slot, the stages that see it, its
/// type, its array size if it is an array, and the name of the resource
/// that backs it.
#[derive(Clone, Debug, PartialEq, Eq)]
pub struct BindGroupEntry {
    pub binding: u32,
    pub visibility: ShaderStages,
    pub ty: BindingType,
    pub count: Option<u32>,
    pub resource: String,
}

/// The mathematical content of a `BindGroupEntry`.
pub struct EntryModel {
    pub binding: u32,
    pub visibility: ShaderStages,
    pub ty: BindingType,
    pub count: Option<u32>,
    pub resource: Seq<char>,
}

impl DeepView for BindGroupEntry {
    type V = EntryModel;

    open spec fn deep_view(&self) -> EntryModel {
        EntryModel {
            binding: self.binding,
            visibility: self.visibility,
            ty: self.ty,
            count: self.count,
            resource: self.resource@,
        }
    }
}

/// One bind group of a material: a label and its bindings in slot order.
#[derive(Clone, Debug, PartialEq, Eq)]
pub struct BindGroupDescription {
    pub label: String,
    pub entries: Vec<BindGroupEntry>,
}

/// The mathematical content of a `BindGroupDescription`.
pub struct GroupModel {
    pub label: Seq<char>,
    pub entries: Seq<EntryModel>,
}

impl DeepView for BindGroupDescription {
    type V = GroupModel;

    open spec fn deep_view(&self) -> GroupModel {
        GroupModel { label: self.label@, entries: self.entries.deep_view() }
    }
}

/// A shader entry point: the file of the module and the function in it.
#[derive(Clone, Debug, PartialEq, Eq)]
pub struct EntryPoint {
    pub module: String,
    pub function: String,
}

/// The mathematical content of an `EntryPoint`.
pub struct EntryPointModel {
    pub module: Seq<char>,
    pub function: Seq<char>,
}

impl DeepView for EntryPoint {
    type V = EntryPointModel;

    open spec fn deep_view(&self) -> EntryPointModel {
        EntryPointModel { module: self.module@, function: self.function@ }
    }
}

/// What a material document describes.
#[derive(Clone, Debug, PartialEq, Eq)]
pub struct MaterialDescription {
    /// The material's own bind groups, in the order of the document.
    pub bind_groups: Vec<BindGroupDescription>,
    /// The names of the shared bind groups, in the order of the document.
    pub shared_bind_groups: Vec<String>,
    /// The layouts of the vertex buffers, in the order of the document.
    pub buffers: Vec<VertexBufferLayout>,
    pub vertex: EntryPoint,
    pub fragment: EntryPoint,
}

/// The mathematical content of a `MaterialDescription`.
pub struct MaterialModel {
    pub bind_groups: Seq<GroupModel>,
    pub shared_bind_groups: Seq<Seq<char>>,
    pub buffers: Seq<LayoutModel>,
    pub vertex: EntryPointModel,
    pub fragment: EntryPointModel,
}

impl DeepView for MaterialDescription {
    type V = MaterialModel;

    open spec fn deep_view(&self) -> MaterialModel {
        MaterialModel {
            bind_groups: self.bind_groups.deep_view(),
            shared_bind_groups: self.shared_bind_groups.deep_view(),
            buffers: self.buffers.deep_view(),
            vertex: self.vertex.deep_view(),
            fragment: self.fragment.deep_view(),
        }
    }
}

/// The stages that one item of a `visibility` list names.
pub open spec fn spec_stage(item: Yaml) -> Result<ShaderStages, SchemaFault> {
    match item.spec_as_str() {
        None => Err(bare(Fault::Invalid, None)),
        Some(token) => match ShaderStages::of_token(token) {
            Some(stages) => Ok(stages),
            None => Err(bare(Fault::Unrecognized, Some(token))),
        },
    }
}

/// `spec_stage` as the reader of the items of a `visibility` list.
pub open spec fn stage_reader() -> spec_fn(Yaml, int) -> Result<ShaderStages, SchemaFault> {
    |item: Yaml, at: int| spec_stage(item)
}

/// The stages of all the sets of a sequence.
pub open spec fn union_all(sets: Seq<ShaderStages>) -> ShaderStages
    decreases sets.len(),
{
    if sets.len() == 0 {
        ShaderStages::spec_none()
    } else {
        union_all(sets.drop_last()).spec_union(sets.last())
    }
}

/// The visibility of an entry: the union of what its `visibility` list
/// names.
pub open spec fn spec_visibility(entry: Yaml) -> Result<ShaderStages, SchemaFault> {
    match spec_items(entry, Field::Visibility) {
        Err(e) => Err(e),
        Ok(list) => match spec_each(list, stage_reader(), list.len() as int) {
            Err(e) => Err(under(Step::Key(Field::Visibility), e)),
            Ok(sets) => Ok(union_all(sets)),
        },
    }
}

/// A size that may be absent but not zero.
pub open spec fn spec_size(node: Yaml, field: Field) -> Result<Option<u64>, SchemaFault> {
    match spec_optional_u64(node, field) {
        None => Ok(None),
        Some(size) => if size == 0 {
            Err(zero(field))
        } else {
            Ok(Some(size))
        },
    }
}

/// The array size of an entry: absent, or the low 32 bits of `count`,
/// which must not be zero.
pub open spec fn spec_count(entry: Yaml) -> Result<Option<u32>, SchemaFault> {
    match spec_optional_u64(entry, Field::Count) {
        None => Ok(None),
        Some(count) => if count % 0x1_0000_0000 == 0 {
            Err(zero(Field::Count))
        } else {
            Ok(Some((count % 0x1_0000_0000) as u32))
        },
    }
}

/// The buffer binding that the `buffer` description of an entry gives.
pub open spec fn spec_buffer_body(buffer: Yaml) -> Result<BindingType, SchemaFault> {
    match spec_text(buffer, Field::Type) {
        Err(e) => Err(e),
        Ok(token) => match BufferBindingType::of_token(token) {
            None => Err(unrecognized(Field::Type, token)),
            Some(ty) => match spec_flag(buffer, Field::HasDynamicOffset) {
                Err(e) => Err(e),
                Ok(has_dynamic_offset) => match spec_size(buffer, Field::MinBindingSize) {
                    Err(e) => Err(e),
                    Ok(min_binding_size) => Ok(
                        BindingType::Buffer { ty, has_dynamic_offset, min_binding_size },
                    ),
                },
            },
        },
    }
}

/// The view dimension that a description names.
pub open spec fn spec_view_dimension(node: Yaml) -> Result<TextureViewDimension, SchemaFault> {
    match spec_text(node, Field::ViewDimension) {
        Err(e) => Err(e),
        Ok(token) => match TextureViewDimension::of_token(token) {
            None => Err(unrecognized(Field::ViewDimension, token)),
            Some(dimension) => Ok(dimension),
        },
    }
}

/// The sample type that the `texture` description of an entry names.
/// Only a `FLOAT` texture has a `filterable` flag.
pub open spec fn spec_sample_type(texture: Yaml) -> Result<TextureSampleType, SchemaFault> {
    match spec_text(texture, Field::SamplerType) {
        Err(e) => Err(e),
        Ok(token) => match SampleKind::of_token(token) {
            None => Err(unrecognized(Field::SamplerType, token)),
            Some(SampleKind::Float) => match spec_flag(texture, Field::Filterable) {
                Err(e) => Err(e),
                Ok(filterable) => Ok(TextureSampleType::Float { filterable }),
            },
            Some(SampleKind::Depth) => Ok(TextureSampleType::Depth),
            Some(SampleKind::Sint) => Ok(TextureSampleType::Sint),
            Some(SampleKind::Uint) => Ok(TextureSampleType::Uint),
        },
    }
}

/// The texture binding that the `texture` description of an entry gives.
pub open spec fn spec_texture_body(texture: Yaml) -> Result<BindingType, SchemaFault> {
    match spec_sample_type(texture) {
        Err(e) => Err(e),
        Ok(sample_type) => match spec_view_dimension(texture) {
            Err(e) => Err(e),
            Ok(view_dimension) => match spec_flag(texture, Field::Multisampled) {
                Err(e) => Err(e),
                Ok(multisampled) => Ok(
                    BindingType::Texture { sample_type, view_dimension, multisampled },
                ),
            },
        },
    }
}

/// The format that a `storage_texture` description names.
///
/// The family name `ASTC` takes its block size from the same `format`
/// field and its channel kind from `channel`.
pub open spec fn spec_format(storage: Yaml) -> Result<TextureFormat, SchemaFault> {
    match spec_text(storage, Field::Format) {
        Err(e) => Err(e),
        Ok(token) => match TextureFormat::of_token(token) {
            Some(format) => Ok(format),
            None => if token == "ASTC"@ {
                match AstcBlock::of_token(token) {
                    None => Err(unrecognized(Field::Format, token)),
                    Some(block) => match spec_text(storage, Field::Channel) {
                        Err(e) => Err(e),
                        Ok(name) => match AstcChannel::of_token(name) {
                            None => Err(unrecognized(Field::Channel, name)),
                            Some(channel) => Ok(TextureFormat::Astc { block, channel }),
                        },
                    },
                }
            } else {
                Err(unrecognized(Field::Format, token))
            },
        },
    }
}

/// The storage texture binding that the `storage_texture` description of
/// an entry gives.
pub open spec fn spec_storage_body(storage: Yaml) -> Result<BindingType, SchemaFault> {
    match spec_text(storage, Field::Access) {
        Err(e) => Err(e),
        Ok(token) => match StorageTextureAccess::of_token(token) {
            None => Err(unrecognized(Field::Access, token)),
            Some(access) => match spec_format(storage) {
                Err(e) => Err(e),
                Ok(format) => match spec_view_dimension(storage) {
                    Err(e) => Err(e),
                    Ok(view_dimension) => Ok(
                        BindingType::StorageTexture { access, format, view_dimension },
                    ),
                },
            },
        },
    }
}

/// What `body` makes of the description under `field`, with its faults
/// reported under that field.
pub open spec fn spec_section(
    entry: Yaml,
    field: Field,
    body: spec_fn(Yaml) -> Result<BindingType, SchemaFault>,
) -> Result<BindingType, SchemaFault> {
    match spec_required(entry, field) {
        Err(e) => Err(e),
        Ok(section) => match body(section) {
            Err(e) => Err(under(Step::Key(field), e)),
            Ok(ty) => Ok(ty),
        },
    }
}

/// The sampler binding of an entry. Its resource is named before its
/// sampler kind is read.
pub open spec fn spec_sampler(entry: Yaml) -> Result<BindingType, SchemaFault> {
    match spec_text(entry, Field::Resource) {
        Err(e) => Err(e),
        Ok(_) => match spec_text(entry, Field::Sampler) {
            Err(e) => Err(e),
            Ok(token) => match SamplerBindingType::of_token(token) {
                None => Err(unrecognized(Field::Sampler, token)),
                Some(kind) => Ok(BindingType::Sampler(kind)),
            },
        },
    }
}

/// The texture binding of an entry. Its resource is named before its
/// description is read.
pub open spec fn spec_texture(entry: Yaml) -> Result<BindingType, SchemaFault> {
    match spec_text(entry, Field::Resource) {
        Err(e) => Err(e),
        Ok(_) => spec_section(entry, Field::Texture, |t: Yaml| spec_texture_body(t)),
    }
}

/// The binding type of an entry: its `type` names the kind, and the
/// description of that kind gives the rest.
pub open spec fn spec_binding_type(entry: Yaml) -> Result<BindingType, SchemaFault> {
    match spec_text(entry, Field::Type) {
        Err(e) => Err(e),
        Ok(token) => match BindingKind::of_token(token) {
            None => Err(unrecognized(Field::Type, token)),
            Some(BindingKind::Buffer) => spec_section(
                entry,
                Field::Buffer,
                |b: Yaml| spec_buffer_body(b),
            ),
            Some(BindingKind::Sampler) => spec_sampler(entry),
            Some(BindingKind::Texture) => spec_texture(entry),
            Some(BindingKind::StorageTexture) => spec_section(
                entry,
                Field::StorageTexture,
                |s: Yaml| spec_storage_body(s),
            ),
            Some(BindingKind::AccelerationStructure) => match spec_flag(
                entry,
                Field::VertexReturn,
            ) {
                Err(e) => Err(e),
                Ok(vertex_return) => Ok(BindingType::AccelerationStructure { vertex_return }),
            },
        },
    }
}

/// The entry at position `at` of a bind group; its slot is its position.
pub open spec fn spec_entry(entry: Yaml, at: int) -> Result<EntryModel, SchemaFault> {
    match spec_visibility(entry) {
        Err(e) => Err(e),
        Ok(visibility) => match spec_binding_type(entry) {
            Err(e) => Err(e),
            Ok(ty) => match spec_count(entry) {
                Err(e) => Err(e),
                Ok(count) => match spec_text(entry, Field::Resource) {
                    Err(e) => Err(e),
                    Ok(resource) => Ok(
                        EntryModel { binding: at as u32, visibility, ty, count, resource },
                    ),
                },
            },
        },
    }
}

/// `spec_entry` as the reader of the items of an `entries` list.
pub open spec fn entry_reader() -> spec_fn(Yaml, int) -> Result<EntryModel, SchemaFault> {
    |entry: Yaml, at: int| spec_entry(entry, at)
}

/// A bind group: a label and a list of entries. The slots are 32 bits
/// wide, so a longer list is no valid one.
pub open spec fn spec_group(group: Yaml) -> Result<GroupModel, SchemaFault> {
    match spec_text(group, Field::Label) {
        Err(e) => Err(e),
        Ok(label) => match spec_items(group, Field::Entries) {
            Err(e) => Err(e),
            Ok(list) => if list.len() > u32::MAX {
                Err(invalid(Field::Entries))
            } else {
                match spec_each(list, entry_reader(), list.len() as int) {
                    Err(e) => Err(under(Step::Key(Field::Entries), e)),
                    Ok(entries) => Ok(GroupModel { label, entries }),
                }
            },
        },
    }
}

/// `spec_group` as the reader of the items of the `bind_groups` list.
pub open spec fn group_reader() -> spec_fn(Yaml, int) -> Result<GroupModel, SchemaFault> {
    |group: Yaml, at: int| spec_group(group)
}

/// An item of a list of names.
pub open spec fn spec_name(item: Yaml) -> Result<Seq<char>, SchemaFault> {
    match item.spec_as_str() {
        None => Err(bare(Fault::Invalid, None)),
        Some(name) => Ok(name),
    }
}

/// `spec_name` as the reader of the items of a list of names.
pub open spec fn name_reader() -> spec_fn(Yaml, int) -> Result<Seq<char>, SchemaFault> {
    |item: Yaml, at: int| spec_name(item)
}

/// An item of the `buffers` list: the name of a vertex layout.
pub open spec fn spec_layout(item: Yaml, registry: VertexRegistry) -> Result<
    LayoutModel,
    SchemaFault,
> {
    match item.spec_as_str() {
        None => Err(bare(Fault::Invalid, None)),
        Some(name) => spec_desc_from_name(name, registry),
    }
}

/// `spec_layout` as the reader of the items of the `buffers` list.
pub open spec fn layout_reader(registry: VertexRegistry) -> spec_fn(Yaml, int) -> Result<
    LayoutModel,
    SchemaFault,
> {
    |item: Yaml, at: int| spec_layout(item, registry)
}

/// The module and the function of one entry point.
pub open spec fn spec_entry_point(point: Yaml) -> Result<EntryPointModel, SchemaFault> {
    match spec_text(point, Field::Module) {
        Err(e) => Err(e),
        Ok(module) => match spec_text(point, Field::Function) {
            Err(e) => Err(e),
            Ok(function) => Ok(EntryPointModel { module, function }),
        },
    }
}

/// The vertex and the fragment entry point. Both must be present before
/// either is read.
pub open spec fn spec_entry_points(points: Yaml) -> Result<
    (EntryPointModel, EntryPointModel),
    SchemaFault,
> {
    match spec_required(points, Field::Vertex) {
        Err(e) => Err(e),
        Ok(vertex) => match spec_required(points, Field::Fragment) {
            Err(e) => Err(e),
            Ok(fragment) => match spec_entry_point(vertex) {
                Err(e) => Err(under(Step::Key(Field::Vertex), e)),
                Ok(v) => match spec_entry_point(fragment) {
                    Err(e) => Err(under(Step::Key(Field::Fragment), e)),
                    Ok(f) => Ok((v, f)),
                },
            },
        },
    }
}

/// What a material document describes, or the first fault in it, in the
/// order `bind_groups` (as a list), `shared_bind_groups`, the bind
/// groups one by one, `buffers`, `entry_points`.
///
/// The three lists may be absent and are then empty; `entry_points` is
/// required.
pub open spec fn spec_parse_omi(root: Yaml, registry: VertexRegistry) -> Result<
    MaterialModel,
    SchemaFault,
> {
    match spec_optional_items(root, Field::BindGroups) {
        Err(e) => Err(e),
        Ok(groups) => match spec_optional_items(root, Field::SharedBindGroups) {
            Err(e) => Err(e),
            Ok(shared) => match spec_each(shared, name_reader(), shared.len() as int) {
                Err(e) => Err(under(Step::Key(Field::SharedBindGroups), e)),
                Ok(shared_bind_groups) => match spec_each(
                    groups,
                    group_reader(),
                    groups.len() as int,
                ) {
                    Err(e) => Err(under(Step::Key(Field::BindGroups), e)),
                    Ok(bind_groups) => match spec_optional_items(root, Field::Buffers) {
                        Err(e) => Err(e),
                        Ok(names) => match spec_each(
                            names,
                            layout_reader(registry),
                            names.len() as int,
                        ) {
                            Err(e) => Err(under(Step::Key(Field::Buffers), e)),
                            Ok(buffers) => match spec_required(root, Field::EntryPoints) {
                                Err(e) => Err(e),
                                Ok(points) => match spec_entry_points(points) {
                                    Err(e) => Err(under(Step::Key(Field::EntryPoints), e)),
                                    Ok((vertex, fragment)) => Ok(
                                        MaterialModel {
                                            bind_groups,
                                            shared_bind_groups,
                                            buffers,
                                            vertex,
                                            fragment,
                                        },
                                    ),
                                },
                            },
                        },
                    },
                },
            },
        },
    }
}

/// The visibility of an entry.
pub fn visibility(entry: &Yaml) -> (found: Result<ShaderStages, SchemaError>)
    ensures
        agrees(found, spec_visibility(*entry)),
{
    let list = match items(entry, Field::Visibility) {
        Ok(list) => list,
        Err(e) => {
            return Err(e);
        },
    };
    let mut stages = ShaderStages::none();
    let ghost mut sets: Seq<ShaderStages> = Seq::empty();
    let mut i: usize = 0;
    while i < list.len()
        invariant
            i <= list@.len(),
            spec_items(*entry, Field::Visibility) == Ok::<Seq<Yaml>, SchemaFault>(list@),
            spec_each(list@, stage_reader(), i as int) == Ok::<Seq<ShaderStages>, SchemaFault>(
                sets,
            ),
            stages == union_all(sets),
        decreases list@.len() - i,
    {
        let stage = match list[i].as_str() {
            None => {
                proof {
                    lemma_each_fault_persists(list@, stage_reader(), i + 1, list@.len() as int);
                }
                return Err(
                    SchemaError::bare_invalid().under(Step::Item(i)).under(
                        Step::Key(Field::Visibility),
                    ),
                );
            },
            Some(token) => match ShaderStages::from_token(token) {
                Some(stage) => stage,
                None => {
                    proof {
                        lemma_each_fault_persists(list@, stage_reader(), i + 1, list@.len() as int);
                    }
                    return Err(
                        SchemaError::bare_unrecognized(token).under(Step::Item(i)).under(
                            Step::Key(Field::Visibility),
                        ),
                    );
                },
            },
        };
        proof {
            assert(sets.push(stage).drop_last() =~= sets);
            sets = sets.push(stage);
        }
        stages = stages.union(stage);
        i += 1;
    }
    Ok(stages)
}

/// A size that may be absent but not zero.
pub fn size(node: &Yaml, field: Field) -> (found: Result<Option<u64>, SchemaError>)
    ensures
        agrees(found, spec_size(*node, field)),
{
    match optional_u64(node, field) {
        None => Ok(None),
        Some(size) => if size == 0 {
            Err(SchemaError::zero(field))
        } else {
            Ok(Some(size))
        },
    }
}

/// The array size of an entry.
pub fn count(entry: &Yaml) -> (found: Result<Option<u32>, SchemaError>)
    ensures
        agrees(found, spec_count(*entry)),
{
    match optional_u64(entry, Field::Count) {
        None => Ok(None),
        Some(count) => {
            let low: u64 = count % 0x1_0000_0000;
            if low == 0 {
                Err(SchemaError::zero(Field::Count))
            } else {
                Ok(Some(low as u32))
            }
        },
    }
}

/// The buffer binding that a `buffer` description gives.
pub fn buffer_body(buffer: &Yaml) -> (found: Result<BindingType, SchemaError>)
    ensures
        agrees(found, spec_buffer_body(*buffer)),
{
    let token = match text(buffer, Field::Type) {
        Ok(token) => token,
        Err(e) => {
            return Err(e);
        },
    };
    let ty = match BufferBindingType::from_token(token) {
        Some(ty) => ty,
        None => {
            return Err(SchemaError::unrecognized(Field::Type, token));
        },
    };
    let has_dynamic_offset = match flag(buffer, Field::HasDynamicOffset) {
        Ok(b) => b,
        Err(e) => {
            return Err(e);
        },
    };
    match size(buffer, Field::MinBindingSize) {
        Ok(min_binding_size) => Ok(BindingType::Buffer { ty, has_dynamic_offset, min_binding_size }),
        Err(e) => Err(e),
    }
}

/// The view dimension that a description names.
pub fn view_dimension(node: &Yaml) -> (found: Result<TextureViewDimension, SchemaError>)
    ensures
        agrees(found, spec_view_dimension(*node)),
{
    let token = match text(node, Field::ViewDimension) {
        Ok(token) => token,
        Err(e) => {
            return Err(e);
        },
    };
    match TextureViewDimension::from_token(token) {
        Some(dimension) => Ok(dimension),
        None => Err(SchemaError::unrecognized(Field::ViewDimension, token)),
    }
}

/// The sample type that a `texture` description names.
pub fn sample_type(texture: &Yaml) -> (found: Result<TextureSampleType, SchemaError>)
    ensures
        agrees(found, spec_sample_type(*texture)),
{
    let token = match text(texture, Field::SamplerType) {
        Ok(token) => token,
        Err(e) => {
            return Err(e);
        },
    };
    match SampleKind::from_token(token) {
        None => Err(SchemaError::unrecognized(Field::SamplerType, token)),
        Some(SampleKind::Float) => match flag(texture, Field::Filterable) {
            Ok(filterable) => Ok(TextureSampleType::Float { filterable }),
            Err(e) => Err(e),
        },
        Some(SampleKind::Depth) => Ok(TextureSampleType::Depth),
        Some(SampleKind::Sint) => Ok(TextureSampleType::Sint),
        Some(SampleKind::Uint) => Ok(TextureSampleType::Uint),
    }
}

/// The texture binding that a `texture` description gives.
pub fn texture_body(texture: &Yaml) -> (found: Result<BindingType, SchemaError>)
    ensures
        agrees(found, spec_texture_body(*texture)),
{
    let sample_type = match sample_type(texture) {
        Ok(t) => t,
        Err(e) => {
            return Err(e);
        },
    };
    let view_dimension = match view_dimension(texture) {
        Ok(d) => d,
        Err(e) => {
            return Err(e);
        },
    };
    match flag(texture, Field::Multisampled) {
        Ok(multisampled) => Ok(BindingType::Texture { sample_type, view_dimension, multisampled }),
        Err(e) => Err(e),
    }
}

/// The format that a `storage_texture` description names.
pub fn format(storage: &Yaml) -> (found: Result<TextureFormat, SchemaError>)
    ensures
        agrees(found, spec_format(*storage)),
{
    let token = match text(storage, Field::Format) {
        Ok(token) => token,
        Err(e) => {
            return Err(e);
        },
    };
    match TextureFormat::from_token(token) {
        Some(format) => Ok(format),
        None => {
            if !str_eq(token, "ASTC") {
                return Err(SchemaError::unrecognized(Field::Format, token));
            }
            let block = match AstcBlock::from_token(token) {
                Some(block) => block,
                None => {
                    return Err(SchemaError::unrecognized(Field::Format, token));
                },
            };
            let name = match text(storage, Field::Channel) {
                Ok(name) => name,
                Err(e) => {
                    return Err(e);
                },
            };
            match AstcChannel::from_token(name) {
                Some(channel) => Ok(TextureFormat::Astc { block, channel }),
                None => Err(SchemaError::unrecognized(Field::Channel, name)),
            }
        },
    }
}

/// The storage texture binding that a `storage_texture` description gives.
pub fn storage_body(storage: &Yaml) -> (found: Result<BindingType, SchemaError>)
    ensures
        agrees(found, spec_storage_body(*storage)),
{
    let token = match text(storage, Field::Access) {
        Ok(token) => token,
        Err(e) => {
            return Err(e);
        },
    };
    let access = match StorageTextureAccess::from_token(token) {
        Some(access) => access,
        None => {
            return Err(SchemaError::unrecognized(Field::Access, token));
        },
    };
    let format = match format(storage) {
        Ok(f) => f,
        Err(e) => {
            return Err(e);
        },
    };
    match view_dimension(storage) {
        Ok(view_dimension) => Ok(BindingType::StorageTexture { access, format, view_dimension }),
        Err(e) => Err(e),
    }
}

/// The sampler binding of an entry.
pub fn sampler(entry: &Yaml) -> (found: Result<BindingType, SchemaError>)
    ensures
        agrees(found, spec_sampler(*entry)),
{
    match text(entry, Field::Resource) {
        Ok(_) => {},
        Err(e) => {
            return Err(e);
        },
    }
    let token = match text(entry, Field::Sampler) {
        Ok(token) => token,
        Err(e) => {
            return Err(e);
        },
    };
    match SamplerBindingType::from_token(token) {
        Some(kind) => Ok(BindingType::Sampler(kind)),
        None => Err(SchemaError::unrecognized(Field::Sampler, token)),
    }
}

/// The texture binding of an entry.
pub fn texture(entry: &Yaml) -> (found: Result<BindingType, SchemaError>)
    ensures
        agrees(found, spec_texture(*entry)),
{
    match text(entry, Field::Resource) {
        Ok(_) => {},
        Err(e) => {
            return Err(e);
        },
    }
    let section = match required(entry, Field::Texture) {
        Ok(section) => section,
        Err(e) => {
            return Err(e);
        },
    };
    match texture_body(section) {
        Ok(ty) => Ok(ty),
        Err(e) => Err(e.under(Step::Key(Field::Texture))),
    }
}

/// The binding type of an entry.
pub fn binding_type(entry: &Yaml) -> (found: Result<BindingType, SchemaError>)
    ensures
        agrees(found, spec_binding_type(*entry)),
{
    let token = match text(entry, Field::Type) {
        Ok(token) => token,
        Err(e) => {
            return Err(e);
        },
    };
    match BindingKind::from_token(token) {
        None => Err(SchemaError::unrecognized(Field::Type, token)),
        Some(BindingKind::Buffer) => {
            let section = match required(entry, Field::Buffer) {
                Ok(section) => section,
                Err(e) => {
                    return Err(e);
                },
            };
            match buffer_body(section) {
                Ok(ty) => Ok(ty),
                Err(e) => Err(e.under(Step::Key(Field::Buffer))),
            }
        },
        Some(BindingKind::Sampler) => sampler(entry),
        Some(BindingKind::Texture) => texture(entry),
        Some(BindingKind::StorageTexture) => {
            let section = match required(entry, Field::StorageTexture) {
                Ok(section) => section,
                Err(e) => {
                    return Err(e);
                },
            };
            match storage_body(section) {
                Ok(ty) => Ok(ty),
                Err(e) => Err(e.under(Step::Key(Field::StorageTexture))),
            }
        },
        Some(BindingKind::AccelerationStructure) => match flag(entry, Field::VertexReturn) {
            Ok(vertex_return) => Ok(BindingType::AccelerationStructure { vertex_return }),
            Err(e) => Err(e),
        },
    }
}

/// The entry at position `at` of a bind group.
pub fn entry(node: &Yaml, at: u32) -> (found: Result<BindGroupEntry, SchemaError>)
    ensures
        agrees_deep(found, spec_entry(*node, at as int)),
{
    let visibility = match visibility(node) {
        Ok(v) => v,
        Err(e) => {
            return Err(e);
        },
    };
    let ty = match binding_type(node) {
        Ok(t) => t,
        Err(e) => {
            return Err(e);
        },
    };
    let count = match count(node) {
        Ok(c) => c,
        Err(e) => {
            return Err(e);
        },
    };
    match text(node, Field::Resource) {
        Ok(resource) => Ok(
            BindGroupEntry { binding: at, visibility, ty, count, resource: resource.to_owned() },
        ),
        Err(e) => Err(e),
    }
}

/// A bind group: a label and a list of entries.
pub fn group(node: &Yaml) -> (found: Result<BindGroupDescription, SchemaError>)
    ensures
        agrees_deep(found, spec_group(*node)),
{
    let label = match text(node, Field::Label) {
        Ok(label) => label,
        Err(e) => {
            return Err(e);
        },
    };
    let list = match items(node, Field::Entries) {
        Ok(list) => list,
        Err(e) => {
            return Err(e);
        },
    };
    if list.len() > u32::MAX as usize {
        return Err(SchemaError::invalid(Field::Entries));
    }
    let mut entries: Vec<BindGroupEntry> = Vec::new();
    proof {
        assert(entries.deep_view() =~= Seq::<EntryModel>::empty());
    }
    let mut i: u32 = 0;
    while (i as usize) < list.len()
        invariant
            i <= list@.len() <= u32::MAX,
            spec_text(*node, Field::Label) == Ok::<Seq<char>, SchemaFault>(label@),
            spec_items(*node, Field::Entries) == Ok::<Seq<Yaml>, SchemaFault>(list@),
            spec_each(list@, entry_reader(), i as int) == Ok::<Seq<EntryModel>, SchemaFault>(
                entries.deep_view(),
            ),
        decreases list@.len() - i,
    {
        let one = match entry(&list[i as usize], i) {
            Ok(one) => one,
            Err(e) => {
                proof {
                    lemma_each_fault_persists(list@, entry_reader(), i + 1, list@.len() as int);
                }
                return Err(e.under(Step::Item(i as usize)).under(Step::Key(Field::Entries)));
            },
        };
        let ghost before = entries.deep_view();
        entries.push(one);
        proof {
            assert(entries.deep_view() =~= before.push(one.deep_view()));
        }
        i += 1;
    }
    Ok(BindGroupDescription { label: label.to_owned(), entries })
}

/// The names of a list of names.
pub fn names(list: &Vec<Yaml>) -> (found: Result<Vec<String>, SchemaError>)
    ensures
        agrees_deep(found, spec_each(list@, name_reader(), list@.len() as int)),
{
    let mut out: Vec<String> = Vec::new();
    proof {
        assert(out.deep_view() =~= Seq::<Seq<char>>::empty());
    }
    let mut i: usize = 0;
    while i < list.len()
        invariant
            i <= list@.len(),
            spec_each(list@, name_reader(), i as int) == Ok::<Seq<Seq<char>>, SchemaFault>(
                out.deep_view(),
            ),
        decreases list@.len() - i,
    {
        let name = match list[i].as_str() {
            Some(name) => name.to_owned(),
            None => {
                proof {
                    lemma_each_fault_persists(list@, name_reader(), i + 1, list@.len() as int);
                }
                return Err(SchemaError::bare_invalid().under(Step::Item(i)));
            },
        };
        let ghost before = out.deep_view();
        out.push(name);
        proof {
            assert(out.deep_view() =~= before.push(name@));
        }
        i += 1;
    }
    Ok(out)
}

/// The bind groups of a list of bind groups.
pub fn groups(list: &Vec<Yaml>) -> (found: Result<Vec<BindGroupDescription>, SchemaError>)
    ensures
        agrees_deep(found, spec_each(list@, group_reader(), list@.len() as int)),
{
    let mut out: Vec<BindGroupDescription> = Vec::new();
    proof {
        assert(out.deep_view() =~= Seq::<GroupModel>::empty());
    }
    let mut i: usize = 0;
    while i < list.len()
        invariant
            i <= list@.len(),
            spec_each(list@, group_reader(), i as int) == Ok::<Seq<GroupModel>, SchemaFault>(
                out.deep_view(),
            ),
        decreases list@.len() - i,
    {
        let one = match group(&list[i]) {
            Ok(one) => one,
            Err(e) => {
                proof {
                    lemma_each_fault_persists(list@, group_reader(), i + 1, list@.len() as int);
                }
                return Err(e.under(Step::Item(i)));
            },
        };
        let ghost before = out.deep_view();
        out.push(one);
        proof {
            assert(out.deep_view() =~= before.push(one.deep_view()));
        }
        i += 1;
    }
    Ok(out)
}

/// The vertex layouts that a list of layout names stands for.
pub fn layouts(list: &Vec<Yaml>, registry: &VertexRegistry) -> (found: Result<
    Vec<VertexBufferLayout>,
    SchemaError,
>)
    ensures
        agrees_deep(found, spec_each(list@, layout_reader(*registry), list@.len() as int)),
{
    let mut out: Vec<VertexBufferLayout> = Vec::new();
    proof {
        assert(out.deep_view() =~= Seq::<LayoutModel>::empty());
    }
    let mut i: usize = 0;
    while i < list.len()
        invariant
            i <= list@.len(),
            spec_each(list@, layout_reader(*registry), i as int) == Ok::<
                Seq<LayoutModel>,
                SchemaFault,
            >(out.deep_view()),
        decreases list@.len() - i,
    {
        let name = match list[i].as_str() {
            Some(name) => name,
            None => {
                proof {
                    lemma_each_fault_persists(
                        list@,
                        layout_reader(*registry),
                        i + 1,
                        list@.len() as int,
                    );
                }
                return Err(SchemaError::bare_invalid().under(Step::Item(i)));
            },
        };
        let one = match desc_from_name(name, registry) {
            Ok(one) => one,
            Err(e) => {
                proof {
                    lemma_each_fault_persists(
                        list@,
                        layout_reader(*registry),
                        i + 1,
                        list@.len() as int,
                    );
                }
                return Err(e.under(Step::Item(i)));
            },
        };
        let ghost before = out.deep_view();
        out.push(one);
        proof {
            assert(out.deep_view() =~= before.push(one.deep_view()));
        }
        i += 1;
    }
    Ok(out)
}

/// The module and the function of one entry point.
pub fn entry_point(point: &Yaml) -> (found: Result<EntryPoint, SchemaError>)
    ensures
        agrees_deep(found, spec_entry_point(*point)),
{
    let module = match text(point, Field::Module) {
        Ok(module) => module,
        Err(e) => {
            return Err(e);
        },
    };
    match text(point, Field::Function) {
        Ok(function) => Ok(EntryPoint { module: module.to_owned(), function: function.to_owned() }),
        Err(e) => Err(e),
    }
}

/// The vertex and the fragment entry point.
pub fn entry_points(points: &Yaml) -> (found: Result<(EntryPoint, EntryPoint), SchemaError>)
    ensures
        match found {
            Ok((vertex, fragment)) => spec_entry_points(*points) == Ok::<
                (EntryPointModel, EntryPointModel),
                SchemaFault,
            >((vertex.deep_view(), fragment.deep_view())),
            Err(e) => spec_entry_points(*points) == Err::<
                (EntryPointModel, EntryPointModel),
                SchemaFault,
            >(e.deep_view()),
        },
{
    let vertex = match required(points, Field::Vertex) {
        Ok(v) => v,
        Err(e) => {
            return Err(e);
        },
    };
    let fragment = match required(points, Field::Fragment) {
        Ok(f) => f,
        Err(e) => {
            return Err(e);
        },
    };
    let v = match entry_point(vertex) {
        Ok(v) => v,
        Err(e) => {
            return Err(e.under(Step::Key(Field::Vertex)));
        },
    };
    match entry_point(fragment) {
        Ok(f) => Ok((v, f)),
        Err(e) => Err(e.under(Step::Key(Field::Fragment))),
    }
}

/// Reads a material document: what it describes, or the first fault in
/// it with the way to the offending value.
pub fn parse_omi(root: &Yaml, registry: &VertexRegistry) -> (found: Result<
    MaterialDescription,
    SchemaError,
>)
    ensures
        agrees_deep(found, spec_parse_omi(*root, *registry)),
{
    let group_list = match optional_items(root, Field::BindGroups) {
        Ok(list) => list,
        Err(e) => {
            return Err(e);
        },
    };
    let shared_list = match optional_items(root, Field::SharedBindGroups) {
        Ok(list) => list,
        Err(e) => {
            return Err(e);
        },
    };
    let shared_bind_groups = match shared_list {
        None => Vec::new(),
        Some(list) => match names(list) {
            Ok(v) => v,
            Err(e) => {
                return Err(e.under(Step::Key(Field::SharedBindGroups)));
            },
        },
    };
    let bind_groups = match group_list {
        None => Vec::new(),
        Some(list) => match groups(list) {
            Ok(v) => v,
            Err(e) => {
                return Err(e.under(Step::Key(Field::BindGroups)));
            },
        },
    };
    let buffer_list = match optional_items(root, Field::Buffers) {
        Ok(list) => list,
        Err(e) => {
            return Err(e);
        },
    };
    let buffers = match buffer_list {
        None => Vec::new(),
        Some(list) => match layouts(list, registry) {
            Ok(v) => v,
            Err(e) => {
                return Err(e.under(Step::Key(Field::Buffers)));
            },
        },
    };
    let points = match required(root, Field::EntryPoints) {
        Ok(p) => p,
        Err(e) => {
            return Err(e);
        },
    };
    match entry_points(points) {
        Ok((vertex, fragment)) => {
            proof {
                assert(shared_bind_groups.deep_view() =~= spec_each(
                    spec_optional_items(*root, Field::SharedBindGroups)->Ok_0,
                    name_reader(),
                    spec_optional_items(*root, Field::SharedBindGroups)->Ok_0.len() as int,
                )->Ok_0);
                assert(bind_groups.deep_view() =~= spec_each(
                    spec_optional_items(*root, Field::BindGroups)->Ok_0,
                    group_reader(),
                    spec_optional_items(*root, Field::BindGroups)->Ok_0.len() as int,
                )->Ok_0);
                assert(buffers.deep_view() =~= spec_each(
                    spec_optional_items(*root, Field::Buffers)->Ok_0,
                    layout_reader(*registry),
                    spec_optional_items(*root, Field::Buffers)->Ok_0.len() as int,
                )->Ok_0);
            }
            Ok(MaterialDescription { bind_groups, shared_bind_groups, buffers, vertex, fragment })
        },
        Err(e) => Err(e.under(Step::Key(Field::EntryPoints))),
    }
}

/// The bind group of a camera: one uniform buffer, seen by the vertex and
/// the fragment stage, under the shared name `CAMERA`.
pub open spec fn spec_camera_group() -> GroupModel {
    GroupModel {
        label: "camera_bind_group_layout"@,
        entries: seq![
            EntryModel {
                binding: 0,
                visibility: ShaderStages {
                    vertex: true,
                    fragment: true,
                    ..ShaderStages::spec_none()
                },
                ty: BindingType::Buffer {
                    ty: BufferBindingType::Uniform,
                    has_dynamic_offset: false,
                    min_binding_size: None,
                },
                count: None,
                resource: "CAMERA"@,
            },
        ],
    }
}

/// The bind group of a camera.
pub fn camera_group() -> (group: BindGroupDescription)
    ensures
        group.deep_view() == spec_camera_group(),
{
    let mut entries: Vec<BindGroupEntry> = Vec::new();
    entries.push(
        BindGroupEntry {
            binding: 0,
            visibility: ShaderStages { vertex: true, fragment: true, ..ShaderStages::none() },
            ty: BindingType::Buffer {
                ty: BufferBindingType::Uniform,
                has_dynamic_offset: false,
                min_binding_size: None,
            },
            count: None,
            resource: "CAMERA".to_owned(),
        },
    );
    proof {
        assert(entries.deep_view() =~= spec_camera_group().entries);
    }
    BindGroupDescription { label: "camera_bind_group_layout".to_owned(), entries }
}

/// The item at position `item` of the `visibility` list of the entry at
/// position `entry` of the bind group at position `group`, where the
/// document has lists that lead there.
pub open spec fn visibility_item(root: Yaml, group: int, entry: int, item: int) -> Option<Yaml> {
    match spec_optional_items(root, Field::BindGroups) {
        Err(_) => None,
        Ok(groups) => if !(0 <= group < groups.len()) {
            None
        } else {
            match spec_items(groups[group], Field::Entries) {
                Err(_) => None,
                Ok(entries) => if !(0 <= entry < entries.len()) {
                    None
                } else {
                    match spec_items(entries[entry], Field::Visibility) {
                        Err(_) => None,
                        Ok(stages) => if 0 <= item < stages.len() {
                            Some(stages[item])
                        } else {
                            None
                        },
                    }
                },
            }
        },
    }
}

/// A document is rejected if any item of any `visibility` list of it
/// names no shader stage.
pub proof fn lemma_unrecognized_visibility_is_rejected(
    root: Yaml,
    registry: VertexRegistry,
    group: int,
    entry: int,
    item: int,
)
    requires
        visibility_item(root, group, entry, item) is Some,
        spec_stage(visibility_item(root, group, entry, item)->Some_0) is Err,
    ensures
        spec_parse_omi(root, registry) is Err,
{
    let groups = spec_optional_items(root, Field::BindGroups)->Ok_0;
    let entries = spec_items(groups[group], Field::Entries)->Ok_0;
    let stages = spec_items(entries[entry], Field::Visibility)->Ok_0;
    assert(stage_reader()(stages[item], item) is Err);
    lemma_each_fault_spreads(stages, stage_reader(), item, stages.len() as int);
    assert(spec_visibility(entries[entry]) is Err);
    assert(entry_reader()(entries[entry], entry) is Err);
    lemma_each_fault_spreads(entries, entry_reader(), entry, entries.len() as int);
    assert(spec_group(groups[group]) is Err);
    assert(group_reader()(groups[group], group) is Err);
    lemma_each_fault_spreads(groups, group_reader(), group, groups.len() as int);
}

} // verus!
