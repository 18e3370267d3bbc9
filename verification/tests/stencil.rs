use wgpu_graphics::draw_state::StencilClass;
use wgpu_graphics::pipeline::{CompareFunction, StencilOperation, StencilState};

fn stamp(stored: u8) -> u8 {
    let (drawn, value) = StencilState::of(StencilClass::Increment).test(0, stored);
    assert!(!drawn);
    value
}

fn inside(level: u8, stored: u8) -> bool {
    let (drawn, value) = StencilState::of(StencilClass::Inside).test(level, stored);
    assert_eq!(value, stored);
    drawn
}

#[test]
fn nested_clipping_draws_in_the_overlap_only() {
    // Three pixels on a cleared buffer: outside both shapes, inside the
    // first only, inside both.
    let covered_by_first = [false, true, true];
    let covered_by_second = [false, false, true];
    let mut buffer = [0u8; 3];
    for i in 0..3 {
        if covered_by_first[i] {
            buffer[i] = stamp(buffer[i]);
        }
    }
    assert_eq!(buffer, [0, 1, 1]);
    let after_one: Vec<bool> = buffer.iter().map(|&v| inside(1, v)).collect();
    assert_eq!(after_one, vec![false, true, true]);
    for i in 0..3 {
        if covered_by_second[i] {
            buffer[i] = stamp(buffer[i]);
        }
    }
    assert_eq!(buffer, [0, 1, 2]);
    let after_two: Vec<bool> = buffer.iter().map(|&v| inside(2, v)).collect();
    assert_eq!(after_two, vec![false, false, true]);
}

#[test]
fn increment_clamps() {
    assert_eq!(stamp(254), 255);
    assert_eq!(stamp(255), 255);
}

#[test]
fn clip_stores_the_reference_and_draws_nothing() {
    assert_eq!(StencilState::of(StencilClass::Clip).test(200, 3), (false, 200));
    assert_eq!(StencilState::of(StencilClass::Clip).test(0, 255), (false, 0));
}

#[test]
fn outside_draws_where_the_value_differs() {
    assert_eq!(StencilState::of(StencilClass::Outside).test(5, 5), (false, 5));
    assert_eq!(StencilState::of(StencilClass::Outside).test(5, 6), (true, 6));
}

#[test]
fn without_stencil_everything_is_drawn() {
    let state = StencilState::of(StencilClass::Disabled);
    assert_eq!(state.read_mask, 0);
    assert_eq!(state.write_mask, 0);
    assert_eq!(state.front.compare, CompareFunction::Always);
    assert_eq!(state.test(9, 200), (true, 200));
}

#[test]
fn compare_functions() {
    assert!(!CompareFunction::Never.passes(1, 1));
    assert!(CompareFunction::Always.passes(1, 2));
    assert!(CompareFunction::Equal.passes(7, 7));
    assert!(!CompareFunction::Equal.passes(7, 8));
    assert!(CompareFunction::NotEqual.passes(7, 8));
}

#[test]
fn stencil_operations() {
    assert_eq!(StencilOperation::Keep.apply(1, 9), 9);
    assert_eq!(StencilOperation::Replace.apply(1, 9), 1);
    assert_eq!(StencilOperation::IncrementClamp.apply(1, 9), 10);
}
