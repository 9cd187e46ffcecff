use layerrd::composite::{plan_composite, visible_layers, CompositeStep, Target};

#[test]
fn visible_layer_indices() {
    assert_eq!(visible_layers(&vec![]), Vec::<usize>::new());
    assert_eq!(visible_layers(&vec![false, false]), Vec::<usize>::new());
    assert_eq!(visible_layers(&vec![true, false, true, true]), vec![0, 2, 3]);
}

#[test]
fn nothing_visible_clears() {
    assert_eq!(plan_composite(&vec![]), vec![CompositeStep::ClearComposite]);
}

#[test]
fn single_visible_layer_is_copied() {
    assert_eq!(plan_composite(&vec![3]), vec![CompositeStep::CopyLayerToComposite { layer: 3 }]);
}

#[test]
fn two_layers_end_in_scratch_and_copy_back() {
    assert_eq!(
        plan_composite(&vec![0, 1]),
        vec![
            CompositeStep::CopyLayerToComposite { layer: 0 },
            CompositeStep::Blend { layer: 1, dst: Target::Composite, out: Target::Scratch },
            CompositeStep::CopyScratchToComposite,
        ]
    );
}

#[test]
fn three_layers_ping_pong_back_to_composite() {
    assert_eq!(
        plan_composite(&vec![1, 4, 6]),
        vec![
            CompositeStep::CopyLayerToComposite { layer: 1 },
            CompositeStep::Blend { layer: 4, dst: Target::Composite, out: Target::Scratch },
            CompositeStep::Blend { layer: 6, dst: Target::Scratch, out: Target::Composite },
        ]
    );
}

/// Runs a plan on lists standing for the two textures' contents.
fn simulate(steps: &[CompositeStep]) -> Vec<usize> {
    let mut composite: Vec<usize> = vec![99];
    let mut scratch: Vec<usize> = vec![98];
    for s in steps {
        match *s {
            CompositeStep::ClearComposite => composite.clear(),
            CompositeStep::CopyLayerToComposite { layer } => composite = vec![layer],
            CompositeStep::Blend { layer, dst, out } => {
                assert_ne!(dst, out);
                let mut c = if dst == Target::Composite { composite.clone() } else { scratch.clone() };
                c.push(layer);
                if out == Target::Composite { composite = c } else { scratch = c }
            }
            CompositeStep::CopyScratchToComposite => composite = scratch.clone(),
        }
    }
    composite
}

#[test]
fn plan_composites_exactly_the_visible_layers() {
    for mask in 0u32..64 {
        let flags: Vec<bool> = (0..6).map(|i| mask & (1 << i) != 0).collect();
        let vis = visible_layers(&flags);
        assert_eq!(simulate(&plan_composite(&vis)), vis);
    }
}

#[test]
fn target_other_swaps() {
    assert_eq!(Target::Composite.other(), Target::Scratch);
    assert_eq!(Target::Scratch.other(), Target::Composite);
}
