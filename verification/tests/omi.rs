use ostinato::binding::{
    AstcBlock, AstcChannel, BindingKind, BindingType, BufferBindingType, SampleKind, SamplerBindingType,
    ShaderStages, StorageTextureAccess, TextureFormat, TextureSampleType, TextureViewDimension,
};
use ostinato::document::{load_omi, DocumentError};
use ostinato::omi::{parse_omi, BindGroupDescription, BindGroupEntry, EntryPoint, MaterialDescription};
use ostinato::schema::{Fault, Field, SchemaError, Step};
use ostinato::vertex::{VertexRegistry, VertexType};
use ostinato::yaml::{parse_yaml, Yaml};

const ENTRY_POINTS: &str = "entry_points:\n  vertex: { module: shaders/wall.wgsl, function: vs_main }\n  fragment: { module: shaders/wall.wgsl, function: fs_main }\n";

fn stages(vertex: bool, fragment: bool, compute: bool, task: bool, mesh: bool) -> ShaderStages {
    ShaderStages { vertex, fragment, compute, task, mesh }
}

fn load(text: &str) -> Result<MaterialDescription, DocumentError> {
    load_omi(text, &VertexRegistry::new())
}

fn schema_error(text: &str) -> SchemaError {
    match load(text) {
        Err(DocumentError::Schema(e)) => e,
        other => panic!("expected a schema error, got {:?}", other),
    }
}

/// A document with one bind group of one entry, whose lines (indented by
/// eight spaces) are given.
fn with_entry(lines: &[&str]) -> String {
    let mut text = String::from("bind_groups:\n  - label: g\n    entries:\n      -");
    for (n, line) in lines.iter().enumerate() {
        if n == 0 {
            text.push_str(&format!(" {}\n", line));
        } else {
            text.push_str(&format!("        {}\n", line));
        }
    }
    text.push_str(ENTRY_POINTS);
    text
}

fn entry_path(rest: &[Step]) -> Vec<Step> {
    let mut path = vec![
        Step::Key(Field::BindGroups),
        Step::Item(0),
        Step::Key(Field::Entries),
        Step::Item(0),
    ];
    path.extend_from_slice(rest);
    path
}

fn only_entry(text: &str) -> BindGroupEntry {
    let description = load(text).unwrap();
    assert_eq!(description.bind_groups.len(), 1);
    assert_eq!(description.bind_groups[0].entries.len(), 1);
    description.bind_groups[0].entries[0].clone()
}

const BUFFER_ENTRY: [&str; 4] = [
    "visibility: [VERTEX]",
    "type: BUFFER",
    "buffer: { type: UNIFORM, has_dynamic_offset: false }",
    "resource: time",
];

#[test]
fn a_whole_material_document() {
    let text = "\
bind_groups:
  - label: surface
    entries:
      - visibility: [VERTEX, FRAGMENT]
        type: BUFFER
        buffer:
          type: UNIFORM
          has_dynamic_offset: false
          min_binding_size: 16
        count: ~
        resource: time
      - visibility: [FRAGMENT]
        type: TEXTURE
        texture: { sampler_type: FLOAT, filterable: true, view_dimension: D2, multisampled: false }
        count: 2
        resource: wall.png
shared_bind_groups: [CAMERA]
buffers: [MODEL_VERTEX]
entry_points:
  vertex: { module: shaders/wall.wgsl, function: vs_main }
  fragment: { module: shaders/wall_frag.wgsl, function: fs_main }
";
    let expected = MaterialDescription {
        bind_groups: vec![BindGroupDescription {
            label: "surface".to_string(),
            entries: vec![
                BindGroupEntry {
                    binding: 0,
                    visibility: stages(true, true, false, false, false),
                    ty: BindingType::Buffer {
                        ty: BufferBindingType::Uniform,
                        has_dynamic_offset: false,
                        min_binding_size: Some(16),
                    },
                    count: None,
                    resource: "time".to_string(),
                },
                BindGroupEntry {
                    binding: 1,
                    visibility: stages(false, true, false, false, false),
                    ty: BindingType::Texture {
                        sample_type: TextureSampleType::Float { filterable: true },
                        view_dimension: TextureViewDimension::D2,
                        multisampled: false,
                    },
                    count: Some(2),
                    resource: "wall.png".to_string(),
                },
            ],
        }],
        shared_bind_groups: vec!["CAMERA".to_string()],
        buffers: vec![VertexType::Model.desc()],
        vertex: EntryPoint { module: "shaders/wall.wgsl".to_string(), function: "vs_main".to_string() },
        fragment: EntryPoint { module: "shaders/wall_frag.wgsl".to_string(), function: "fs_main".to_string() },
    };
    assert_eq!(load(text), Ok(expected));
}

#[test]
fn parse_omi_reads_a_tree_built_by_hand() {
    let t = |s: &str| Yaml::Text(s.to_string());
    let point = |f: &str| Yaml::Mapping(vec![(t("module"), t("m.wgsl")), (t("function"), t(f))]);
    let root = Yaml::Mapping(vec![(
        t("entry_points"),
        Yaml::Mapping(vec![(t("vertex"), point("vs")), (t("fragment"), point("fs"))]),
    )]);
    let description = parse_omi(&root, &VertexRegistry::new()).unwrap();
    assert!(description.bind_groups.is_empty());
    assert!(description.shared_bind_groups.is_empty());
    assert!(description.buffers.is_empty());
    assert_eq!(description.vertex.function, "vs");
    assert_eq!(description.fragment.function, "fs");
}

#[test]
fn the_three_lists_may_be_absent() {
    let description = load(ENTRY_POINTS).unwrap();
    assert_eq!(description.bind_groups, vec![]);
    assert_eq!(description.shared_bind_groups, Vec::<String>::new());
    assert_eq!(description.buffers, vec![]);
}

#[test]
fn a_text_that_is_no_yaml_is_reported_as_syntax() {
    assert!(matches!(load("bind_groups: [\n"), Err(DocumentError::Syntax(_))));
}

#[test]
fn an_unrecognized_visibility_names_its_path() {
    let text = with_entry(&[
        "visibility: [VERTEX, GEOMETRY]",
        "type: BUFFER",
        "buffer: { type: UNIFORM, has_dynamic_offset: false }",
        "resource: time",
    ]);
    assert_eq!(
        schema_error(&text),
        SchemaError {
            fault: Fault::Unrecognized,
            path: entry_path(&[Step::Key(Field::Visibility), Step::Item(1)]),
            token: Some("GEOMETRY".to_string()),
        }
    );
}

#[test]
fn an_unrecognized_visibility_is_named_in_the_message() {
    let text = with_entry(&[
        "visibility: [GEOMETRY]",
        "type: BUFFER",
        "buffer: { type: UNIFORM, has_dynamic_offset: false }",
        "resource: time",
    ]);
    assert_eq!(
        schema_error(&text).message(),
        "field `bind_groups[0].entries[0].visibility[0]` has the unrecognized value `GEOMETRY`"
    );
}

#[test]
fn a_visibility_item_must_be_a_text() {
    let mut lines = BUFFER_ENTRY;
    lines[0] = "visibility: [3]";
    assert_eq!(
        schema_error(&with_entry(&lines)),
        SchemaError {
            fault: Fault::Invalid,
            path: entry_path(&[Step::Key(Field::Visibility), Step::Item(0)]),
            token: None,
        }
    );
}

#[test]
fn visibility_must_be_a_list() {
    let mut lines = BUFFER_ENTRY;
    lines[0] = "visibility: VERTEX";
    assert_eq!(
        schema_error(&with_entry(&lines)),
        SchemaError { fault: Fault::Invalid, path: entry_path(&[Step::Key(Field::Visibility)]), token: None }
    );
}

#[test]
fn every_visibility_token() {
    let cases = [
        ("FRAGMENT", stages(false, true, false, false, false)),
        ("COMPUTE", stages(false, false, true, false, false)),
        ("MESH", stages(false, false, false, false, true)),
        ("VERTEX", stages(true, false, false, false, false)),
        ("NONE", stages(false, false, false, false, false)),
        ("TASK", stages(false, false, false, true, false)),
        ("VERTEX_FRAGMENT", stages(true, true, false, false, false)),
    ];
    for (token, expected) in cases {
        assert_eq!(ShaderStages::from_token(token), Some(expected));
    }
    assert_eq!(ShaderStages::from_token("GEOMETRY"), None);
    assert_eq!(ShaderStages::from_token("vertex"), None);
}

#[test]
fn visibility_is_the_union_of_its_items() {
    let mut lines = BUFFER_ENTRY;
    lines[0] = "visibility: [COMPUTE, NONE, TASK, COMPUTE]";
    assert_eq!(only_entry(&with_entry(&lines)).visibility, stages(false, false, true, true, false));
    lines[0] = "visibility: []";
    assert_eq!(only_entry(&with_entry(&lines)).visibility, ShaderStages::none());
    assert_eq!(
        stages(true, false, false, false, false).union(stages(false, false, false, false, true)),
        stages(true, false, false, false, true)
    );
}

#[test]
fn a_missing_required_field_is_reported() {
    let text = with_entry(&["visibility: [VERTEX]", "resource: time"]);
    assert_eq!(
        schema_error(&text),
        SchemaError { fault: Fault::Missing, path: entry_path(&[Step::Key(Field::Type)]), token: None }
    );
    let text = with_entry(&["visibility: [VERTEX]", "type: BUFFER", "resource: time"]);
    assert_eq!(
        schema_error(&text),
        SchemaError { fault: Fault::Missing, path: entry_path(&[Step::Key(Field::Buffer)]), token: None }
    );
    let text = with_entry(&[
        "visibility: [VERTEX]",
        "type: BUFFER",
        "buffer: { type: UNIFORM, has_dynamic_offset: false }",
    ]);
    assert_eq!(
        schema_error(&text),
        SchemaError { fault: Fault::Missing, path: entry_path(&[Step::Key(Field::Resource)]), token: None }
    );
}

#[test]
fn an_unrecognized_type_is_reported() {
    let text = with_entry(&["visibility: [VERTEX]", "type: PUSH_CONSTANT", "resource: time"]);
    assert_eq!(
        schema_error(&text),
        SchemaError {
            fault: Fault::Unrecognized,
            path: entry_path(&[Step::Key(Field::Type)]),
            token: Some("PUSH_CONSTANT".to_string()),
        }
    );
    assert_eq!(BindingKind::from_token("BUFFER"), Some(BindingKind::Buffer));
    assert_eq!(BindingKind::from_token("STORAGE_TEXTURE"), Some(BindingKind::StorageTexture));
    assert_eq!(BindingKind::from_token("ACCELERATION_STRUCTURE"), Some(BindingKind::AccelerationStructure));
}

#[test]
fn buffer_kinds() {
    let kinds = [
        ("UNIFORM", BufferBindingType::Uniform),
        ("STORAGE", BufferBindingType::Storage { read_only: false }),
        ("READ_ONLY_STORAGE", BufferBindingType::Storage { read_only: true }),
    ];
    for (token, expected) in kinds {
        let line = format!("buffer: {{ type: {}, has_dynamic_offset: true }}", token);
        let text = with_entry(&["visibility: [VERTEX]", "type: BUFFER", &line, "resource: time"]);
        assert_eq!(
            only_entry(&text).ty,
            BindingType::Buffer { ty: expected, has_dynamic_offset: true, min_binding_size: None }
        );
    }
    let text = with_entry(&[
        "visibility: [VERTEX]",
        "type: BUFFER",
        "buffer: { type: INDEX, has_dynamic_offset: true }",
        "resource: time",
    ]);
    assert_eq!(
        schema_error(&text),
        SchemaError {
            fault: Fault::Unrecognized,
            path: entry_path(&[Step::Key(Field::Buffer), Step::Key(Field::Type)]),
            token: Some("INDEX".to_string()),
        }
    );
}

#[test]
fn a_flag_must_be_a_boolean() {
    let text = with_entry(&[
        "visibility: [VERTEX]",
        "type: BUFFER",
        "buffer: { type: UNIFORM, has_dynamic_offset: 1 }",
        "resource: time",
    ]);
    assert_eq!(
        schema_error(&text),
        SchemaError {
            fault: Fault::Invalid,
            path: entry_path(&[Step::Key(Field::Buffer), Step::Key(Field::HasDynamicOffset)]),
            token: None,
        }
    );
}

#[test]
fn min_binding_size_may_be_absent_or_null_but_not_zero() {
    let entry = |size: &str| {
        let line = format!("buffer: {{ type: UNIFORM, has_dynamic_offset: false{} }}", size);
        with_entry(&["visibility: [VERTEX]", "type: BUFFER", &line, "resource: time"])
    };
    let size_of = |text: &str| match only_entry(text).ty {
        BindingType::Buffer { min_binding_size, .. } => min_binding_size,
        other => panic!("no buffer: {:?}", other),
    };
    assert_eq!(size_of(&entry("")), None);
    assert_eq!(size_of(&entry(", min_binding_size: ~")), None);
    assert_eq!(size_of(&entry(", min_binding_size: none")), None);
    assert_eq!(size_of(&entry(", min_binding_size: 64")), Some(64));
    assert_eq!(size_of(&entry(", min_binding_size: 4294967296")), Some(4294967296));
    assert_eq!(
        schema_error(&entry(", min_binding_size: 0")),
        SchemaError {
            fault: Fault::Zero,
            path: entry_path(&[Step::Key(Field::Buffer), Step::Key(Field::MinBindingSize)]),
            token: None,
        }
    );
}

#[test]
fn count_may_be_absent_or_null_but_not_zero() {
    let entry = |count: &str| {
        let mut lines: Vec<&str> = BUFFER_ENTRY.to_vec();
        if !count.is_empty() {
            lines.push(count);
        }
        with_entry(&lines)
    };
    assert_eq!(only_entry(&entry("")).count, None);
    assert_eq!(only_entry(&entry("count: ~")).count, None);
    assert_eq!(only_entry(&entry("count: many")).count, None);
    assert_eq!(only_entry(&entry("count: -1")).count, None);
    assert_eq!(only_entry(&entry("count: 1")).count, Some(1));
    assert_eq!(only_entry(&entry("count: 4294967295")).count, Some(u32::MAX));
    let zero = SchemaError { fault: Fault::Zero, path: entry_path(&[Step::Key(Field::Count)]), token: None };
    assert_eq!(schema_error(&entry("count: 0")), zero);
}

#[test]
fn count_keeps_the_low_32_bits() {
    let entry = |count: &str| {
        let mut lines: Vec<&str> = BUFFER_ENTRY.to_vec();
        lines.push(count);
        with_entry(&lines)
    };
    assert_eq!(only_entry(&entry("count: 4294967297")).count, Some(1));
    assert_eq!(only_entry(&entry("count: 12884901893")).count, Some(5));
    let zero = SchemaError { fault: Fault::Zero, path: entry_path(&[Step::Key(Field::Count)]), token: None };
    assert_eq!(schema_error(&entry("count: 4294967296")), zero);
}

#[test]
fn sampler_entries() {
    let kinds = [
        ("FILTERING", SamplerBindingType::Filtering),
        ("COMPARISON", SamplerBindingType::Comparison),
        ("NONFILTERING", SamplerBindingType::NonFiltering),
    ];
    for (token, expected) in kinds {
        let line = format!("sampler: {}", token);
        let text = with_entry(&["visibility: [FRAGMENT]", "type: SAMPLER", &line, "resource: wall.png"]);
        assert_eq!(only_entry(&text).ty, BindingType::Sampler(expected));
    }
    let text = with_entry(&["visibility: [FRAGMENT]", "type: SAMPLER", "sampler: LINEAR", "resource: wall.png"]);
    assert_eq!(
        schema_error(&text),
        SchemaError {
            fault: Fault::Unrecognized,
            path: entry_path(&[Step::Key(Field::Sampler)]),
            token: Some("LINEAR".to_string()),
        }
    );
}

#[test]
fn a_sampler_names_its_resource_before_its_kind() {
    let text = with_entry(&["visibility: [FRAGMENT]", "type: SAMPLER", "sampler: LINEAR"]);
    assert_eq!(
        schema_error(&text),
        SchemaError { fault: Fault::Missing, path: entry_path(&[Step::Key(Field::Resource)]), token: None }
    );
    let text = with_entry(&["visibility: [FRAGMENT]", "type: TEXTURE", "resource: [a]"]);
    assert_eq!(
        schema_error(&text),
        SchemaError { fault: Fault::Invalid, path: entry_path(&[Step::Key(Field::Resource)]), token: None }
    );
}

#[test]
fn texture_entries() {
    let texture = |body: &str| {
        let line = format!("texture: {{ {} }}", body);
        with_entry(&["visibility: [FRAGMENT]", "type: TEXTURE", &line, "resource: wall.png"])
    };
    let kinds = [
        ("DEPTH", TextureSampleType::Depth),
        ("SINT", TextureSampleType::Sint),
        ("UINT", TextureSampleType::Uint),
    ];
    for (token, expected) in kinds {
        let text = texture(&format!("sampler_type: {}, view_dimension: CUBE, multisampled: true", token));
        assert_eq!(
            only_entry(&text).ty,
            BindingType::Texture {
                sample_type: expected,
                view_dimension: TextureViewDimension::Cube,
                multisampled: true,
            }
        );
    }
    let text = texture("sampler_type: FLOAT, filterable: false, view_dimension: D3, multisampled: false");
    assert_eq!(
        only_entry(&text).ty,
        BindingType::Texture {
            sample_type: TextureSampleType::Float { filterable: false },
            view_dimension: TextureViewDimension::D3,
            multisampled: false,
        }
    );
    assert_eq!(SampleKind::from_token("FLOAT"), Some(SampleKind::Float));
    assert_eq!(SampleKind::from_token("HALF"), None);
}

#[test]
fn only_a_float_texture_needs_filterable() {
    let text = with_entry(&[
        "visibility: [FRAGMENT]",
        "type: TEXTURE",
        "texture: { sampler_type: FLOAT, view_dimension: D2, multisampled: false }",
        "resource: wall.png",
    ]);
    assert_eq!(
        schema_error(&text),
        SchemaError {
            fault: Fault::Missing,
            path: entry_path(&[Step::Key(Field::Texture), Step::Key(Field::Filterable)]),
            token: None,
        }
    );
}

#[test]
fn texture_faults_are_reported_under_texture() {
    let texture = |body: &str| {
        let line = format!("texture: {{ {} }}", body);
        with_entry(&["visibility: [FRAGMENT]", "type: TEXTURE", &line, "resource: wall.png"])
    };
    assert_eq!(
        schema_error(&texture("sampler_type: HALF, view_dimension: D2, multisampled: false")),
        SchemaError {
            fault: Fault::Unrecognized,
            path: entry_path(&[Step::Key(Field::Texture), Step::Key(Field::SamplerType)]),
            token: Some("HALF".to_string()),
        }
    );
    assert_eq!(
        schema_error(&texture("sampler_type: UINT, view_dimension: D4, multisampled: false")),
        SchemaError {
            fault: Fault::Unrecognized,
            path: entry_path(&[Step::Key(Field::Texture), Step::Key(Field::ViewDimension)]),
            token: Some("D4".to_string()),
        }
    );
    assert_eq!(
        schema_error(&texture("sampler_type: UINT, view_dimension: D2")),
        SchemaError {
            fault: Fault::Missing,
            path: entry_path(&[Step::Key(Field::Texture), Step::Key(Field::Multisampled)]),
            token: None,
        }
    );
}

#[test]
fn every_view_dimension_token() {
    let cases = [
        ("D1", TextureViewDimension::D1),
        ("D2", TextureViewDimension::D2),
        ("D2ARRAY", TextureViewDimension::D2Array),
        ("CUBE", TextureViewDimension::Cube),
        ("CUBEARRAY", TextureViewDimension::CubeArray),
        ("D3", TextureViewDimension::D3),
    ];
    for (token, expected) in cases {
        assert_eq!(TextureViewDimension::from_token(token), Some(expected));
    }
    assert_eq!(TextureViewDimension::from_token("D2Array"), None);
}

#[test]
fn storage_texture_entries() {
    let storage = |body: &str| {
        let line = format!("storage_texture: {{ {} }}", body);
        with_entry(&["visibility: [COMPUTE]", "type: STORAGE_TEXTURE", &line, "resource: target"])
    };
    let accesses = [
        ("ATOMIC", StorageTextureAccess::Atomic),
        ("READ_ONLY", StorageTextureAccess::ReadOnly),
        ("READ_WRITE", StorageTextureAccess::ReadWrite),
        ("WRITE_ONLY", StorageTextureAccess::WriteOnly),
    ];
    for (token, expected) in accesses {
        let text = storage(&format!("access: {}, format: RGBA8UNORM, view_dimension: D2", token));
        assert_eq!(
            only_entry(&text).ty,
            BindingType::StorageTexture {
                access: expected,
                format: TextureFormat::Rgba8Unorm,
                view_dimension: TextureViewDimension::D2,
            }
        );
    }
    assert_eq!(
        schema_error(&storage("access: APPEND, format: RGBA8UNORM, view_dimension: D2")),
        SchemaError {
            fault: Fault::Unrecognized,
            path: entry_path(&[Step::Key(Field::StorageTexture), Step::Key(Field::Access)]),
            token: Some("APPEND".to_string()),
        }
    );
    assert_eq!(
        schema_error(&storage("access: READ_ONLY, format: RGB8, view_dimension: D2")),
        SchemaError {
            fault: Fault::Unrecognized,
            path: entry_path(&[Step::Key(Field::StorageTexture), Step::Key(Field::Format)]),
            token: Some("RGB8".to_string()),
        }
    );
}

#[test]
fn format_tokens() {
    let cases = [
        ("R8UNORM", TextureFormat::R8Unorm),
        ("R16FLOAT", TextureFormat::R16Float),
        ("RGBA8UNORMSRGB", TextureFormat::Rgba8UnormSrgb),
        ("BGRA8UNORM", TextureFormat::Bgra8Unorm),
        ("RGB9E5UFLOAT", TextureFormat::Rgb9e5Ufloat),
        ("RG11B10UFLOAT", TextureFormat::Rg11b10Ufloat),
        ("R64UINT", TextureFormat::R64Uint),
        ("RGBA32FLOAT", TextureFormat::Rgba32Float),
        ("STENCIL8", TextureFormat::Stencil8),
        ("DEPTH24PLUSSTENCIL8", TextureFormat::Depth24PlusStencil8),
        ("DEPTH32FLOATSTENCIL8", TextureFormat::Depth32FloatStencil8),
        ("NV12", TextureFormat::NV12),
        ("BC1RGBAUNORM", TextureFormat::Bc1RgbaUnorm),
        ("BC6HRGBUFLOAT", TextureFormat::Bc6hRgbUfloat),
        ("BC7RGBAUNORMSRGB", TextureFormat::Bc7RgbaUnormSrgb),
        ("ETC2RGB8A1UNORMSRGB", TextureFormat::Etc2Rgb8A1UnormSrgb),
        ("EACRG11SNORM", TextureFormat::EacRg11Snorm),
    ];
    for (token, expected) in cases {
        assert_eq!(TextureFormat::from_token(token), Some(expected));
    }
    assert_eq!(TextureFormat::from_token("ASTC"), None);
    assert_eq!(TextureFormat::from_token("rgba8unorm"), None);
    assert_eq!(TextureFormat::from_token(""), None);
}

#[test]
fn the_family_name_astc_names_no_block() {
    let text = with_entry(&[
        "visibility: [COMPUTE]",
        "type: STORAGE_TEXTURE",
        "storage_texture: { access: READ_ONLY, format: ASTC, channel: HDR, view_dimension: D2 }",
        "resource: target",
    ]);
    assert_eq!(
        schema_error(&text),
        SchemaError {
            fault: Fault::Unrecognized,
            path: entry_path(&[Step::Key(Field::StorageTexture), Step::Key(Field::Format)]),
            token: Some("ASTC".to_string()),
        }
    );
    assert_eq!(AstcBlock::from_token("B4X4"), Some(AstcBlock::B4x4));
    assert_eq!(AstcBlock::from_token("B12X12"), Some(AstcBlock::B12x12));
    assert_eq!(AstcBlock::from_token("ASTC"), None);
    assert_eq!(AstcChannel::from_token("UNORM_SRGB"), Some(AstcChannel::UnormSrgb));
    assert_eq!(AstcChannel::from_token("HDR"), Some(AstcChannel::Hdr));
    assert_eq!(AstcChannel::from_token("SRGB"), None);
}

#[test]
fn acceleration_structure_entries() {
    let text = with_entry(&[
        "visibility: [COMPUTE]",
        "type: ACCELERATION_STRUCTURE",
        "vertex_return: true",
        "resource: scene",
    ]);
    assert_eq!(only_entry(&text).ty, BindingType::AccelerationStructure { vertex_return: true });
    let text = with_entry(&["visibility: [COMPUTE]", "type: ACCELERATION_STRUCTURE", "resource: scene"]);
    assert_eq!(
        schema_error(&text),
        SchemaError { fault: Fault::Missing, path: entry_path(&[Step::Key(Field::VertexReturn)]), token: None }
    );
}

#[test]
fn the_slot_of_an_entry_is_its_position() {
    let text = format!(
        "bind_groups:\n  - label: g\n    entries:\n{0}{0}{0}{1}",
        "      - { visibility: [VERTEX], type: SAMPLER, sampler: FILTERING, resource: t }\n", ENTRY_POINTS
    );
    let description = load(&text).unwrap();
    let slots: Vec<u32> = description.bind_groups[0].entries.iter().map(|e| e.binding).collect();
    assert_eq!(slots, vec![0, 1, 2]);
}

#[test]
fn a_fault_in_a_later_group_names_that_group() {
    let text = format!(
        "bind_groups:\n  - label: first\n    entries: []\n  - label: second\n    entries:\n      - {{ visibility: [VERTEX], type: SAMPLER, sampler: FILTERING, resource: t }}\n      - {{ visibility: [VERTEX], type: SAMPLER, sampler: SOFT, resource: t }}\n{}",
        ENTRY_POINTS
    );
    assert_eq!(
        schema_error(&text),
        SchemaError {
            fault: Fault::Unrecognized,
            path: vec![
                Step::Key(Field::BindGroups),
                Step::Item(1),
                Step::Key(Field::Entries),
                Step::Item(1),
                Step::Key(Field::Sampler),
            ],
            token: Some("SOFT".to_string()),
        }
    );
}

#[test]
fn a_group_needs_a_label_and_entries() {
    let text = format!("bind_groups:\n  - entries: []\n{}", ENTRY_POINTS);
    assert_eq!(
        schema_error(&text),
        SchemaError {
            fault: Fault::Missing,
            path: vec![Step::Key(Field::BindGroups), Step::Item(0), Step::Key(Field::Label)],
            token: None,
        }
    );
    let text = format!("bind_groups:\n  - label: g\n    entries: none\n{}", ENTRY_POINTS);
    assert_eq!(
        schema_error(&text),
        SchemaError {
            fault: Fault::Invalid,
            path: vec![Step::Key(Field::BindGroups), Step::Item(0), Step::Key(Field::Entries)],
            token: None,
        }
    );
}

#[test]
fn the_lists_must_be_lists() {
    for (field, key) in [
        (Field::BindGroups, "bind_groups"),
        (Field::SharedBindGroups, "shared_bind_groups"),
        (Field::Buffers, "buffers"),
    ] {
        let text = format!("{}: 7\n{}", key, ENTRY_POINTS);
        assert_eq!(
            schema_error(&text),
            SchemaError { fault: Fault::Invalid, path: vec![Step::Key(field)], token: None }
        );
    }
}

#[test]
fn shared_bind_groups_are_names() {
    let text = format!("shared_bind_groups: [CAMERA, LIGHTS]\n{}", ENTRY_POINTS);
    assert_eq!(load(&text).unwrap().shared_bind_groups, vec!["CAMERA".to_string(), "LIGHTS".to_string()]);
    let text = format!("shared_bind_groups: [CAMERA, [LIGHTS]]\n{}", ENTRY_POINTS);
    assert_eq!(
        schema_error(&text),
        SchemaError {
            fault: Fault::Invalid,
            path: vec![Step::Key(Field::SharedBindGroups), Step::Item(1)],
            token: None,
        }
    );
}

#[test]
fn shared_bind_groups_are_checked_before_the_bind_groups() {
    let text = format!("bind_groups:\n  - label: 3\nshared_bind_groups: [1]\n{}", ENTRY_POINTS);
    assert_eq!(
        schema_error(&text).path,
        vec![Step::Key(Field::SharedBindGroups), Step::Item(0)]
    );
}

#[test]
fn buffers_name_vertex_layouts() {
    let text = format!("buffers: [COLOR_VERTEX, TEXTURE_VERTEX]\n{}", ENTRY_POINTS);
    assert_eq!(load(&text).unwrap().buffers, vec![VertexType::Color.desc(), VertexType::Texture.desc()]);
    let text = format!("buffers: [COLOR_VERTEX, SKINNED_VERTEX]\n{}", ENTRY_POINTS);
    assert_eq!(
        schema_error(&text),
        SchemaError {
            fault: Fault::Unrecognized,
            path: vec![Step::Key(Field::Buffers), Step::Item(1)],
            token: Some("SKINNED_VERTEX".to_string()),
        }
    );
    let text = format!("buffers: [1]\n{}", ENTRY_POINTS);
    assert_eq!(
        schema_error(&text),
        SchemaError { fault: Fault::Invalid, path: vec![Step::Key(Field::Buffers), Step::Item(0)], token: None }
    );
}

#[test]
fn entry_points_are_required() {
    assert_eq!(
        schema_error("bind_groups: []\n"),
        SchemaError { fault: Fault::Missing, path: vec![Step::Key(Field::EntryPoints)], token: None }
    );
    assert_eq!(
        schema_error("entry_points:\n  vertex: { module: m, function: f }\n"),
        SchemaError {
            fault: Fault::Missing,
            path: vec![Step::Key(Field::EntryPoints), Step::Key(Field::Fragment)],
            token: None,
        }
    );
    assert_eq!(
        schema_error("entry_points:\n  fragment: { module: m, function: f }\n"),
        SchemaError {
            fault: Fault::Missing,
            path: vec![Step::Key(Field::EntryPoints), Step::Key(Field::Vertex)],
            token: None,
        }
    );
}

#[test]
fn both_entry_points_must_be_present_before_either_is_read() {
    assert_eq!(
        schema_error("entry_points:\n  vertex: { module: 1, function: f }\n"),
        SchemaError {
            fault: Fault::Missing,
            path: vec![Step::Key(Field::EntryPoints), Step::Key(Field::Fragment)],
            token: None,
        }
    );
}

#[test]
fn an_entry_point_needs_a_module_and_a_function() {
    assert_eq!(
        schema_error("entry_points:\n  vertex: { module: m }\n  fragment: { module: m, function: f }\n"),
        SchemaError {
            fault: Fault::Missing,
            path: vec![Step::Key(Field::EntryPoints), Step::Key(Field::Vertex), Step::Key(Field::Function)],
            token: None,
        }
    );
    assert_eq!(
        schema_error("entry_points:\n  vertex: { module: m, function: f }\n  fragment: { module: [m], function: f }\n"),
        SchemaError {
            fault: Fault::Invalid,
            path: vec![Step::Key(Field::EntryPoints), Step::Key(Field::Fragment), Step::Key(Field::Module)],
            token: None,
        }
    );
}

#[test]
fn field_names_are_those_of_the_documents() {
    assert_eq!(Field::BindGroups.name(), "bind_groups");
    assert_eq!(Field::SharedBindGroups.name(), "shared_bind_groups");
    assert_eq!(Field::MinBindingSize.name(), "min_binding_size");
    assert_eq!(Field::SamplerType.name(), "sampler_type");
    assert_eq!(Field::Fallback.name(), "default");
    assert_eq!(Field::MaterialIndex.name(), "material_index");
    assert_eq!(Field::Type.name(), "type");
}

#[test]
fn an_error_is_seen_from_further_out_step_by_step() {
    let inner = SchemaError::unrecognized(Field::Sampler, "SOFT");
    assert_eq!(inner.path, vec![Step::Key(Field::Sampler)]);
    let outer = inner.under(Step::Item(2)).under(Step::Key(Field::Entries));
    assert_eq!(outer.path, vec![Step::Key(Field::Entries), Step::Item(2), Step::Key(Field::Sampler)]);
    assert_eq!(outer.fault, Fault::Unrecognized);
    assert_eq!(outer.token, Some("SOFT".to_string()));
    assert_eq!(SchemaError::zero(Field::Count).fault, Fault::Zero);
    assert_eq!(SchemaError::missing(Field::Label).fault, Fault::Missing);
    assert_eq!(SchemaError::invalid(Field::Label).fault, Fault::Invalid);
    assert_eq!(SchemaError::bare_invalid().path, vec![]);
}

#[test]
fn a_registered_vertex_layout_is_found_by_name() {
    let mut registry = VertexRegistry::new();
    ostinato::vertex::register_type(&mut registry, "SKINNED_VERTEX", ostinato::vertex::instance_desc());
    let root = parse_yaml(&format!("buffers: [SKINNED_VERTEX, MODEL_VERTEX]\n{}", ENTRY_POINTS)).unwrap();
    let description = parse_omi(&root, &registry).unwrap();
    assert_eq!(description.buffers, vec![ostinato::vertex::instance_desc(), VertexType::Model.desc()]);
}
