use vstd::prelude::*;

verus! {

/// Blend mode for layer compositing; each mode has a fixed number that the
/// compositing shader reads as its `blend_mode` uniform.
#[derive(Clone, Copy, PartialEq, Eq, Structural, Debug)]
pub enum BlendMode {
    Normal,
    Multiply,
    Screen,
    Overlay,
    Darken,
    Lighten,
}

impl BlendMode {
    /// The name shown to the user for this mode.
    pub open spec fn spec_name(self) -> Seq<char> {
        match self {
            BlendMode::Normal => "Normal"@,
            BlendMode::Multiply => "Multiply"@,
            BlendMode::Screen => "Screen"@,
            BlendMode::Overlay => "Overlay"@,
            BlendMode::Darken => "Darken"@,
            BlendMode::Lighten => "Lighten"@,
        }
    }

    /// The number the compositing shader reads for this mode.
    pub open spec fn spec_shader_value(self) -> u32 {
        match self {
            BlendMode::Normal => 0,
            BlendMode::Multiply => 1,
            BlendMode::Screen => 2,
            BlendMode::Overlay => 3,
            BlendMode::Darken => 4,
            BlendMode::Lighten => 5,
        }
    }

    /// Every mode, in the order of their shader numbers.
    pub open spec fn spec_all() -> Seq<BlendMode> {
        seq![
            BlendMode::Normal,
            BlendMode::Multiply,
            BlendMode::Screen,
            BlendMode::Overlay,
            BlendMode::Darken,
            BlendMode::Lighten,
        ]
    }

    pub fn name(self) -> (r: &'static str)
        ensures
            r@ == self.spec_name(),
    {
        match self {
            BlendMode::Normal => "Normal",
            BlendMode::Multiply => "Multiply",
            BlendMode::Screen => "Screen",
            BlendMode::Overlay => "Overlay",
            BlendMode::Darken => "Darken",
            BlendMode::Lighten => "Lighten",
        }
    }

    /// The value of the compositing shader's `blend_mode` uniform for this mode.
    pub fn shader_value(self) -> (r: u32)
        ensures
            r == self.spec_shader_value(),
    {
        match self {
            BlendMode::Normal => 0,
            BlendMode::Multiply => 1,
            BlendMode::Screen => 2,
            BlendMode::Overlay => 3,
            BlendMode::Darken => 4,
            BlendMode::Lighten => 5,
        }
    }

    /// Every blend mode, in the order of their shader numbers (the order in
    /// which a mode picker lists them).
    pub fn all() -> (r: [BlendMode; 6])
        ensures
            r@ == Self::spec_all(),
    {
        [
            BlendMode::Normal,
            BlendMode::Multiply,
            BlendMode::Screen,
            BlendMode::Overlay,
            BlendMode::Darken,
            BlendMode::Lighten,
        ]
    }
}

/// `all` lists each mode exactly once, at the position of its shader number,
/// and the shader numbers are exactly 0 through 5.
pub proof fn lemma_all_modes_indexed_by_shader_value(m: BlendMode)
    ensures
        BlendMode::spec_all().len() == 6,
        m.spec_shader_value() < 6,
        BlendMode::spec_all()[m.spec_shader_value() as int] == m,
        forall|i: int|
            0 <= i < 6 ==> (#[trigger] BlendMode::spec_all()[i]).spec_shader_value() == i,
{
}

/// Different modes have different names and different shader numbers.
pub proof fn lemma_modes_distinguishable(a: BlendMode, b: BlendMode)
    requires
        a != b,
    ensures
        a.spec_shader_value() != b.spec_shader_value(),
        a.spec_name() != b.spec_name(),
{
    reveal_strlit("Normal");
    reveal_strlit("Multiply");
    reveal_strlit("Screen");
    reveal_strlit("Overlay");
    reveal_strlit("Darken");
    reveal_strlit("Lighten");
    // every name starts with a different letter
    assert(a.spec_name()[0] != b.spec_name()[0]);
}

} // verus!
