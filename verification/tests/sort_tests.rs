use prepass_core::handles::{CachedRenderPipelineId, DrawFunctionId, Entity};
use prepass_core::phase::{CachedRenderPipelinePhaseItem, EntityPhaseItem, PhaseItem, SortKeyed};
use prepass_core::prepass::{AlphaMask3dPrepass, Opaque3dPrepass};
use prepass_core::sort_key::SortKey;

fn entity(index: u32) -> Entity {
    Entity { index, generation: 0 }
}

fn opaque(distance: f32, index: u32) -> Opaque3dPrepass {
    Opaque3dPrepass {
        distance: distance.to_bits(),
        entity: entity(index),
        pipeline_id: CachedRenderPipelineId { id: index as usize },
        draw_function: DrawFunctionId { id: index },
    }
}

fn alpha_mask(distance: f32, index: u32) -> AlphaMask3dPrepass {
    AlphaMask3dPrepass {
        distance: distance.to_bits(),
        entity: entity(index),
        pipeline_id: CachedRenderPipelineId { id: index as usize },
        draw_function: DrawFunctionId { id: index },
    }
}

fn opaque_entities(items: &[Opaque3dPrepass]) -> Vec<u32> {
    items.iter().map(|i| i.entity().index).collect()
}

fn alpha_entities(items: &[AlphaMask3dPrepass]) -> Vec<u32> {
    items.iter().map(|i| i.entity().index).collect()
}

#[test]
fn sorts_three_opaque_items_front_to_back() {
    let mut items = vec![opaque(5.0, 5), opaque(1.0, 1), opaque(3.0, 3)];
    Opaque3dPrepass::sort(&mut items);
    assert_eq!(opaque_entities(&items), vec![1, 3, 5]);
}

#[test]
fn equal_distances_keep_input_order() {
    let mut items = vec![opaque(2.0, 10), opaque(2.0, 20)];
    Opaque3dPrepass::sort(&mut items);
    assert_eq!(opaque_entities(&items), vec![10, 20]);
}

#[test]
fn ties_among_others_keep_input_order() {
    let mut items = vec![
        opaque(3.0, 1),
        opaque(1.0, 2),
        opaque(3.0, 3),
        opaque(0.5, 4),
        opaque(3.0, 5),
    ];
    Opaque3dPrepass::sort(&mut items);
    assert_eq!(opaque_entities(&items), vec![4, 2, 1, 3, 5]);
}

#[test]
fn adjacent_pairs_are_in_key_order_after_sort() {
    let mut items = vec![
        opaque(7.5, 0),
        opaque(-2.0, 1),
        opaque(0.0, 2),
        opaque(123.25, 3),
        opaque(-0.5, 4),
        opaque(0.25, 5),
        opaque(7.5, 6),
    ];
    Opaque3dPrepass::sort(&mut items);
    for pair in items.windows(2) {
        assert!(pair[0].sort_key().le(&pair[1].sort_key()));
    }
}

#[test]
fn sorting_a_sorted_sequence_is_identity() {
    let mut items = vec![opaque(4.0, 1), opaque(2.0, 2), opaque(2.0, 3), opaque(9.0, 4)];
    Opaque3dPrepass::sort(&mut items);
    let once: Vec<(u32, u32)> = items.iter().map(|i| (i.distance, i.entity().index)).collect();
    Opaque3dPrepass::sort(&mut items);
    let twice: Vec<(u32, u32)> = items.iter().map(|i| (i.distance, i.entity().index)).collect();
    assert_eq!(once, twice);
}

#[test]
fn non_finite_distances_sort_to_deterministic_positions() {
    // The total order over distance patterns: negative NaN patterns first,
    // then negative infinity, finite values ascending, positive infinity,
    // positive NaN patterns last.
    let negative_nan = f32::from_bits(0xFFC0_0000);
    let positive_nan = f32::from_bits(0x7FC0_0000);
    let mut items = vec![
        opaque(positive_nan, 0),
        opaque(1.0, 1),
        opaque(f32::INFINITY, 2),
        opaque(negative_nan, 3),
        opaque(f32::NEG_INFINITY, 4),
        opaque(-1.0, 5),
    ];
    Opaque3dPrepass::sort(&mut items);
    assert_eq!(opaque_entities(&items), vec![3, 4, 5, 1, 2, 0]);
}

#[test]
fn negative_zero_sorts_before_positive_zero() {
    let mut items = vec![opaque(0.0, 1), opaque(-0.0, 2)];
    Opaque3dPrepass::sort(&mut items);
    assert_eq!(opaque_entities(&items), vec![2, 1]);
}

#[test]
fn sort_key_orders_as_distances() {
    let one = SortKey::new(1.0f32.to_bits());
    let three = SortKey::new(3.0f32.to_bits());
    let minus_two = SortKey::new((-2.0f32).to_bits());
    assert!(one.le(&three));
    assert!(!three.le(&one));
    assert!(one.le(&one));
    assert!(minus_two.le(&one));
    assert!(!one.le(&minus_two));
}

#[test]
fn alpha_mask_phase_sorts_front_to_back() {
    let mut items = vec![alpha_mask(8.0, 7), alpha_mask(0.25, 9), alpha_mask(2.0, 8)];
    AlphaMask3dPrepass::sort(&mut items);
    assert_eq!(alpha_entities(&items), vec![9, 8, 7]);
}

#[test]
fn sorting_one_phase_leaves_the_other_untouched() {
    let mut opaque_items = vec![opaque(5.0, 5), opaque(1.0, 1), opaque(3.0, 3)];
    let mut alpha_items = vec![alpha_mask(9.0, 30), alpha_mask(2.0, 10), alpha_mask(4.0, 20)];

    let alpha_before: Vec<(u32, u32)> =
        alpha_items.iter().map(|i| (i.distance, i.entity().index)).collect();
    Opaque3dPrepass::sort(&mut opaque_items);
    let alpha_after: Vec<(u32, u32)> =
        alpha_items.iter().map(|i| (i.distance, i.entity().index)).collect();
    assert_eq!(alpha_before, alpha_after);

    let opaque_sorted: Vec<(u32, u32)> =
        opaque_items.iter().map(|i| (i.distance, i.entity().index)).collect();
    AlphaMask3dPrepass::sort(&mut alpha_items);
    let opaque_after: Vec<(u32, u32)> =
        opaque_items.iter().map(|i| (i.distance, i.entity().index)).collect();
    assert_eq!(opaque_sorted, opaque_after);
    assert_eq!(alpha_entities(&alpha_items), vec![10, 20, 30]);
}

#[test]
fn accessors_return_the_stored_handles() {
    let item = Opaque3dPrepass {
        distance: 1.5f32.to_bits(),
        entity: Entity { index: 11, generation: 3 },
        pipeline_id: CachedRenderPipelineId { id: 42 },
        draw_function: DrawFunctionId { id: 7 },
    };
    assert_eq!(item.sort_key().bits, 1.5f32.to_bits());
    assert_eq!(item.entity(), Entity { index: 11, generation: 3 });
    assert_eq!(item.cached_pipeline(), CachedRenderPipelineId { id: 42 });
    assert_eq!(item.draw_function(), DrawFunctionId { id: 7 });

    let masked = alpha_mask(2.5, 13);
    assert_eq!(masked.sort_key().bits, 2.5f32.to_bits());
    assert_eq!(masked.entity(), entity(13));
    assert_eq!(masked.cached_pipeline(), CachedRenderPipelineId { id: 13 });
    assert_eq!(masked.draw_function(), DrawFunctionId { id: 13 });
}

#[test]
fn sorting_an_empty_collection_is_fine() {
    let mut items: Vec<Opaque3dPrepass> = Vec::new();
    Opaque3dPrepass::sort(&mut items);
    assert!(items.is_empty());
}
