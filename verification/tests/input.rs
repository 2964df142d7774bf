use ostinato::input::PressState;
use ostinato::mesh::{cube_indices, element_count, is_drawable, must_grow};
use ostinato::omi::camera_group;
use ostinato::binding::{BindingType, BufferBindingType, ShaderStages};
use ostinato::schema::{decimal, Fault, Field, SchemaError, Step};

#[test]
fn nothing_is_down_at_first() {
    let state = PressState::new();
    assert!(!state.is_pressed(7));
    assert!(!state.just_pressed(7));
    assert!(!state.just_released(7));
}

#[test]
fn a_key_that_goes_down_is_just_pressed_for_one_frame() {
    let mut state = PressState::new();
    state.press(7);
    assert!(state.is_pressed(7));
    assert!(state.just_pressed(7));
    assert!(!state.just_released(7));
    state.update();
    assert!(state.is_pressed(7));
    assert!(!state.just_pressed(7));
    assert!(!state.just_released(7));
}

#[test]
fn a_key_that_goes_up_is_just_released_for_one_frame() {
    let mut state = PressState::new();
    state.press(7);
    state.update();
    state.release(7);
    assert!(!state.is_pressed(7));
    assert!(state.just_released(7));
    state.update();
    assert!(!state.just_released(7));
    assert!(!state.is_pressed(7));
}

#[test]
fn keys_are_tracked_apart() {
    let mut state = PressState::new();
    state.press(1);
    state.press(2);
    state.press(1);
    state.update();
    state.release(1);
    state.press(3);
    assert!(!state.is_pressed(1));
    assert!(state.is_pressed(2));
    assert!(state.is_pressed(3));
    assert!(state.just_released(1));
    assert!(!state.just_released(2));
    assert!(state.just_pressed(3));
    assert!(!state.just_pressed(2));
}

#[test]
fn releasing_what_is_not_down_changes_nothing() {
    let mut state = PressState::new();
    state.press(1);
    state.release(9);
    assert!(state.is_pressed(1));
    assert!(!state.is_pressed(9));
    assert!(!state.just_released(9));
}

#[test]
fn a_press_and_a_release_within_a_frame_leave_no_trace() {
    let mut state = PressState::new();
    state.press(4);
    state.release(4);
    assert!(!state.is_pressed(4));
    assert!(!state.just_pressed(4));
    assert!(!state.just_released(4));
}

#[test]
fn the_element_count_is_the_low_32_bits() {
    assert_eq!(element_count(0), 0);
    assert_eq!(element_count(36), 36);
    assert_eq!(element_count(u32::MAX as usize), u32::MAX);
    if usize::BITS > 32 {
        assert_eq!(element_count((1usize << 32) + 5), 5);
    }
}

#[test]
fn a_buffer_grows_only_when_it_is_too_small() {
    assert!(must_grow(10, 11));
    assert!(!must_grow(10, 10));
    assert!(!must_grow(10, 0));
}

#[test]
fn a_surface_without_area_is_not_drawable() {
    assert!(is_drawable(1, 1));
    assert!(!is_drawable(0, 10));
    assert!(!is_drawable(10, 0));
    assert!(!is_drawable(0, 0));
}

#[test]
fn the_cube_has_twelve_triangles_on_eight_corners() {
    let indices = cube_indices();
    assert_eq!(
        indices,
        vec![
            0, 1, 2, 1, 3, 2, 0, 2, 4, 4, 2, 6, 1, 5, 3, 5, 7, 3, 0, 4, 1, 4, 5, 1, 2, 3, 6, 6, 3, 7, 4, 6, 5, 6,
            7, 5
        ]
    );
    for corner in 0..8u32 {
        assert!(indices.contains(&corner));
    }
}

#[test]
fn the_camera_group_is_one_uniform_buffer() {
    let group = camera_group();
    assert_eq!(group.label, "camera_bind_group_layout");
    assert_eq!(group.entries.len(), 1);
    let entry = &group.entries[0];
    assert_eq!(entry.binding, 0);
    assert_eq!(
        entry.visibility,
        ShaderStages { vertex: true, fragment: true, compute: false, task: false, mesh: false }
    );
    assert_eq!(
        entry.ty,
        BindingType::Buffer { ty: BufferBindingType::Uniform, has_dynamic_offset: false, min_binding_size: None }
    );
    assert_eq!(entry.count, None);
    assert_eq!(entry.resource, "CAMERA");
}

#[test]
fn numbers_are_written_in_decimal() {
    assert_eq!(decimal(0), "0");
    assert_eq!(decimal(7), "7");
    assert_eq!(decimal(10), "10");
    assert_eq!(decimal(409), "409");
    assert_eq!(decimal(1234567890), "1234567890");
    assert_eq!(decimal(usize::MAX), usize::MAX.to_string());
}

#[test]
fn a_path_is_written_with_dots_and_brackets() {
    let error = SchemaError {
        fault: Fault::Unrecognized,
        path: vec![
            Step::Key(Field::BindGroups),
            Step::Item(0),
            Step::Key(Field::Entries),
            Step::Item(12),
            Step::Key(Field::Visibility),
            Step::Item(1),
        ],
        token: Some("GEOMETRY".to_string()),
    };
    assert_eq!(error.path_text(), "bind_groups[0].entries[12].visibility[1]");
    assert_eq!(
        error.message(),
        "field `bind_groups[0].entries[12].visibility[1]` has the unrecognized value `GEOMETRY`"
    );
    assert_eq!(SchemaError::bare_invalid().path_text(), "");
    assert_eq!(SchemaError::bare_invalid().under(Step::Item(3)).path_text(), "[3]");
}

#[test]
fn the_message_of_each_fault() {
    assert_eq!(SchemaError::missing(Field::EntryPoints).message(), "missing field `entry_points`");
    assert_eq!(SchemaError::invalid(Field::Buffers).message(), "field `buffers` is invalid");
    assert_eq!(
        SchemaError::zero(Field::Count).under(Step::Item(2)).under(Step::Key(Field::Entries)).message(),
        "field `entries[2].count` is zero"
    );
    assert_eq!(
        SchemaError::unrecognized(Field::Sampler, "SOFT").message(),
        "field `sampler` has the unrecognized value `SOFT`"
    );
}
