use vstd::prelude::*;

verus! {

/// Number of tools in the toolbar.
pub const TOOL_COUNT: usize = 8;

/// Name of tool `i`, in toolbar order.
pub open spec fn spec_tool_name(i: int) -> Seq<char> {
    if i == 0 {
        "Select"@
    } else if i == 1 {
        "Move"@
    } else if i == 2 {
        "Brush"@
    } else if i == 3 {
        "Eraser"@
    } else if i == 4 {
        "Fill"@
    } else if i == 5 {
        "Text"@
    } else if i == 6 {
        "Eyedropper"@
    } else {
        "Crop"@
    }
}

/// Name of tool `i` in toolbar order (shown in the status bar and as the
/// toolbar button's tooltip).
pub fn tool_name(i: usize) -> (r: &'static str)
    requires
        i < TOOL_COUNT,
    ensures
        r@ == spec_tool_name(i as int),
{
    if i == 0 {
        "Select"
    } else if i == 1 {
        "Move"
    } else if i == 2 {
        "Brush"
    } else if i == 3 {
        "Eraser"
    } else if i == 4 {
        "Fill"
    } else if i == 5 {
        "Text"
    } else if i == 6 {
        "Eyedropper"
    } else {
        "Crop"
    }
}

/// The label of tool `i`'s toolbar button: the first character of its name.
pub fn tool_label(i: usize) -> (r: char)
    requires
        i < TOOL_COUNT,
    ensures
        spec_tool_name(i as int).len() > 0,
        r == spec_tool_name(i as int)[0],
{
    proof {
        reveal_strlit("Select");
        reveal_strlit("Move");
        reveal_strlit("Brush");
        reveal_strlit("Eraser");
        reveal_strlit("Fill");
        reveal_strlit("Text");
        reveal_strlit("Eyedropper");
        reveal_strlit("Crop");
    }
    if i == 0 {
        'S'
    } else if i == 1 {
        'M'
    } else if i == 2 {
        'B'
    } else if i == 3 {
        'E'
    } else if i == 4 {
        'F'
    } else if i == 5 {
        'T'
    } else if i == 6 {
        'E'
    } else {
        'C'
    }
}

} // verus!

verus! {

/// The tool picked in the toolbar; always one of the `TOOL_COUNT` tools.
pub struct ToolSelection {
    index: usize,
}

impl ToolSelection {
    #[verifier::type_invariant]
    closed spec fn inv(self) -> bool {
        self.index < TOOL_COUNT
    }

    pub closed spec fn spec_index(self) -> nat {
        self.index as nat
    }

    /// The first tool ("Select") is picked.
    pub fn new() -> (r: ToolSelection)
        ensures
            r.spec_index() == 0,
    {
        ToolSelection { index: 0 }
    }

    /// The picked tool's position in the toolbar, always below `TOOL_COUNT`.
    pub fn index(&self) -> (r: usize)
        ensures
            r == self.spec_index(),
            r < TOOL_COUNT,
    {
        proof {
            use_type_invariant(self);
        }
        self.index
    }

    /// Picks tool `i`.
    pub fn select(&mut self, i: usize)
        requires
            i < TOOL_COUNT,
        ensures
            final(self).spec_index() == i,
    {
        self.index = i;
    }

    /// The picked tool's name.
    pub fn name(&self) -> (r: &'static str)
        ensures
            r@ == spec_tool_name(self.spec_index() as int),
    {
        proof {
            use_type_invariant(self);
        }
        tool_name(self.index)
    }
}

} // verus!
