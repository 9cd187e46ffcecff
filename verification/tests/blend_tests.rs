use layerrd::blend::BlendMode;

#[test]
fn blend_mode_names() {
    assert_eq!(BlendMode::Normal.name(), "Normal");
    assert_eq!(BlendMode::Multiply.name(), "Multiply");
    assert_eq!(BlendMode::Screen.name(), "Screen");
    assert_eq!(BlendMode::Overlay.name(), "Overlay");
    assert_eq!(BlendMode::Darken.name(), "Darken");
    assert_eq!(BlendMode::Lighten.name(), "Lighten");
}

#[test]
fn blend_mode_shader_values() {
    assert_eq!(BlendMode::Normal.shader_value(), 0);
    assert_eq!(BlendMode::Multiply.shader_value(), 1);
    assert_eq!(BlendMode::Screen.shader_value(), 2);
    assert_eq!(BlendMode::Overlay.shader_value(), 3);
    assert_eq!(BlendMode::Darken.shader_value(), 4);
    assert_eq!(BlendMode::Lighten.shader_value(), 5);
}

#[test]
fn all_modes_listed_in_shader_order() {
    let all = BlendMode::all();
    assert_eq!(all.len(), 6);
    for (i, m) in all.iter().enumerate() {
        assert_eq!(m.shader_value() as usize, i);
    }
    assert_eq!(all[0], BlendMode::Normal);
    assert_eq!(all[5], BlendMode::Lighten);
}

#[test]
fn modes_have_distinct_names() {
    let all = BlendMode::all();
    for a in all.iter() {
        for b in all.iter() {
            if a != b {
                assert_ne!(a.name(), b.name());
            }
        }
    }
}
