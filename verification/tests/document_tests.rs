use layerrd::blend::BlendMode;
use layerrd::composite::{CompositeStep, Target};
use layerrd::layers::{Document, Layer};

fn doc() -> Document<u32> {
    Document::new(1920, 1080, 100, 101)
}

#[test]
fn new_document() {
    let d = doc();
    assert_eq!(d.width(), 1920);
    assert_eq!(d.height(), 1080);
    assert_eq!(d.layer_count(), 2);
    assert_eq!(d.layer(0).name, "Background");
    assert_eq!(d.layer(1).name, "Layer 1");
    assert!(d.layer(0).visible && d.layer(1).visible);
    assert_eq!(d.layer(0).blend_mode, BlendMode::Normal);
    assert_eq!(d.layer(0).resources, 100);
    assert_eq!(d.layer(1).resources, 101);
    assert_eq!(d.selected_layer(), 1);
    assert!(d.is_dirty());
}

#[test]
fn layer_new_defaults() {
    let l = Layer::new("Sky", 'x');
    assert_eq!(l.name, "Sky");
    assert!(l.visible);
    assert_eq!(l.blend_mode, BlendMode::Normal);
    assert_eq!(l.resources, 'x');
}

#[test]
fn recomposite_only_when_dirty() {
    let mut d = doc();
    let plan = d.recomposite().unwrap();
    assert_eq!(
        plan,
        vec![
            CompositeStep::CopyLayerToComposite { layer: 0 },
            CompositeStep::Blend { layer: 1, dst: Target::Composite, out: Target::Scratch },
            CompositeStep::CopyScratchToComposite,
        ]
    );
    assert!(!d.is_dirty());
    assert!(d.recomposite().is_none());
}

#[test]
fn add_layer_names_selects_and_dirties() {
    let mut d = doc();
    d.recomposite();
    let pixels = d.add_layer(7);
    assert_eq!(pixels.len(), 1920 * 1080 * 4);
    assert!(pixels.iter().all(|&b| b == 0));
    assert_eq!(d.layer_count(), 3);
    assert_eq!(d.layer(2).name, "Layer 2");
    assert_eq!(d.layer(2).resources, 7);
    assert!(d.layer(2).visible);
    assert_eq!(d.selected_layer(), 2);
    assert!(d.is_dirty());
}

#[test]
fn delete_then_selection_clamps() {
    let mut d = doc();
    d.add_layer(7);
    d.select_layer(2);
    let removed = d.delete_selected_layer().unwrap();
    assert_eq!(removed.resources, 7);
    assert_eq!(d.layer_count(), 2);
    assert_eq!(d.selected_layer(), 1);
}

#[test]
fn delete_keeps_position_when_not_top() {
    let mut d = doc();
    d.add_layer(7);
    d.select_layer(0);
    d.recomposite();
    let removed = d.delete_selected_layer().unwrap();
    assert_eq!(removed.name, "Background");
    assert_eq!(d.selected_layer(), 0);
    assert_eq!(d.layer(0).name, "Layer 1");
    assert!(d.is_dirty());
}

#[test]
fn last_layer_is_never_deleted() {
    let mut d = doc();
    assert!(d.delete_selected_layer().is_some());
    d.recomposite();
    assert!(d.delete_selected_layer().is_none());
    assert_eq!(d.layer_count(), 1);
    assert_eq!(d.selected_layer(), 0);
    assert!(!d.is_dirty());
}

#[test]
fn delete_undoes_add() {
    let mut d = doc();
    d.add_layer(9);
    d.delete_selected_layer();
    assert_eq!(d.layer_count(), 2);
    assert_eq!(d.layer(0).resources, 100);
    assert_eq!(d.layer(1).resources, 101);
    assert_eq!(d.selected_layer(), 1);
}

#[test]
fn visibility_changes_dirty_only_when_changed() {
    let mut d = doc();
    d.recomposite();
    d.set_visible(0, true);
    assert!(!d.is_dirty());
    d.set_visible(0, false);
    assert!(d.is_dirty());
    assert!(!d.layer(0).visible);
    let plan = d.recomposite().unwrap();
    assert_eq!(plan, vec![CompositeStep::CopyLayerToComposite { layer: 1 }]);
    d.set_visible(1, false);
    assert_eq!(d.recomposite().unwrap(), vec![CompositeStep::ClearComposite]);
}

#[test]
fn blend_mode_changes_dirty_only_when_changed() {
    let mut d = doc();
    d.recomposite();
    d.set_blend_mode(1, BlendMode::Normal);
    assert!(!d.is_dirty());
    d.set_blend_mode(1, BlendMode::Screen);
    assert!(d.is_dirty());
    assert_eq!(d.layer(1).blend_mode, BlendMode::Screen);
}

#[test]
fn resources_change_in_place_and_dirty() {
    let mut d = doc();
    d.recomposite();
    *d.resources_mut(0) = 55;
    assert_eq!(d.layer(0).resources, 55);
    assert!(d.is_dirty());
    assert!(d.recomposite().is_some());
    assert!(!d.is_dirty());
}

#[test]
fn blank_pixels_match_canvas() {
    let d: Document<()> = Document::new(4, 3, (), ());
    let b = d.blank_pixels();
    assert_eq!(b.len(), 48);
    assert!(b.iter().all(|&x| x == 0));
}

#[test]
fn layer_count_and_selection_stay_valid() {
    let mut d = doc();
    for k in 0..5u32 {
        d.add_layer(k);
    }
    for _ in 0..10 {
        d.delete_selected_layer();
        assert!(d.layer_count() >= 1);
        assert!(d.selected_layer() < d.layer_count());
    }
    assert_eq!(d.layer_count(), 1);
}
