use vstd::prelude::*;

verus! {

/// A change of the canvas view asked for from the View menu or the keyboard.
#[derive(Clone, Copy, PartialEq, Eq, Structural, Debug)]
pub enum ViewAction {
    ZoomIn,
    ZoomOut,
    FitToWindow,
    ZoomTo100,
}

/// The state of the keys behind the zoom shortcuts in one frame: whether the
/// command modifier is held, and which keys were pressed.
#[derive(Clone, Copy, PartialEq, Eq, Structural, Debug)]
pub struct ZoomKeys {
    pub command: bool,
    pub plus: bool,
    pub equals: bool,
    pub minus: bool,
    pub num0: bool,
    pub num1: bool,
}

/// The shortcut actions of one frame, in the order they apply: Ctrl+Plus or
/// Ctrl+Equals zooms in, Ctrl+Minus zooms out, Ctrl+0 fits to the window,
/// Ctrl+1 zooms to 100%.
pub open spec fn shortcut_actions(k: ZoomKeys) -> Seq<ViewAction> {
    let a = if k.command && (k.plus || k.equals) {
        seq![ViewAction::ZoomIn]
    } else {
        Seq::empty()
    };
    let b = if k.command && k.minus {
        seq![ViewAction::ZoomOut]
    } else {
        Seq::empty()
    };
    let c = if k.command && k.num0 {
        seq![ViewAction::FitToWindow]
    } else {
        Seq::empty()
    };
    let d = if k.command && k.num1 {
        seq![ViewAction::ZoomTo100]
    } else {
        Seq::empty()
    };
    a + b + c + d
}

/// The view actions to apply this frame, in order: the keyboard shortcuts,
/// then the action picked from the View menu, if any.
pub open spec fn frame_actions(k: ZoomKeys, pending: Option<ViewAction>) -> Seq<ViewAction> {
    match pending {
        Some(a) => shortcut_actions(k).push(a),
        None => shortcut_actions(k),
    }
}

/// The view actions to apply this frame, in order: the keyboard shortcuts
/// (zoom in, zoom out, fit, 100%), then the action picked from the View menu.
pub fn view_actions(keys: ZoomKeys, pending: Option<ViewAction>) -> (r: Vec<ViewAction>)
    ensures
        r@ == frame_actions(keys, pending),
{
    let mut r: Vec<ViewAction> = Vec::new();
    if keys.command && (keys.plus || keys.equals) {
        r.push(ViewAction::ZoomIn);
    }
    if keys.command && keys.minus {
        r.push(ViewAction::ZoomOut);
    }
    if keys.command && keys.num0 {
        r.push(ViewAction::FitToWindow);
    }
    if keys.command && keys.num1 {
        r.push(ViewAction::ZoomTo100);
    }
    assert(r@ == shortcut_actions(keys));
    match pending {
        Some(a) => r.push(a),
        None => {},
    }
    r
}

/// Whether a drag pans the canvas: a left-button drag while Space is held, or
/// any middle-button drag.
pub fn is_pan_drag(space_held: bool, primary_drag: bool, middle_drag: bool) -> (r: bool)
    ensures
        r == ((space_held && primary_drag) || middle_drag),
{
    (space_held && primary_drag) || middle_drag
}

} // verus!

verus! {

/// The actions of a list, in the order the shortcuts apply.
pub open spec fn ordered_by_rank(s: Seq<ViewAction>) -> bool {
    forall|i: int, j: int| 0 <= i < j < s.len() ==> action_rank(s[i]) < action_rank(s[j])
}

proof fn lemma_concat_contains(p: Seq<ViewAction>, q: Seq<ViewAction>, x: ViewAction)
    ensures
        (p + q).contains(x) <==> p.contains(x) || q.contains(x),
{
    if (p + q).contains(x) {
        let i = choose|i: int| 0 <= i < (p + q).len() && (p + q)[i] == x;
        if i < p.len() {
            assert(p[i] == x);
        } else {
            assert(q[i - p.len()] == x);
        }
    }
    if p.contains(x) {
        let i = choose|i: int| 0 <= i < p.len() && p[i] == x;
        assert((p + q)[i] == x);
    }
    if q.contains(x) {
        let i = choose|i: int| 0 <= i < q.len() && q[i] == x;
        assert((p + q)[p.len() + i] == x);
    }
}

proof fn lemma_concat_ordered(p: Seq<ViewAction>, q: Seq<ViewAction>, r: int)
    requires
        ordered_by_rank(p),
        ordered_by_rank(q),
        forall|i: int| 0 <= i < p.len() ==> action_rank(#[trigger] p[i]) < r,
        forall|j: int| 0 <= j < q.len() ==> action_rank(#[trigger] q[j]) >= r,
    ensures
        ordered_by_rank(p + q),
{
    assert forall|i: int, j: int| 0 <= i < j < (p + q).len() implies action_rank((p + q)[i])
        < action_rank((p + q)[j]) by {
        if j < p.len() {
            assert((p + q)[i] == p[i] && (p + q)[j] == p[j]);
        } else if i < p.len() {
            assert((p + q)[i] == p[i] && (p + q)[j] == q[j - p.len()]);
        } else {
            assert((p + q)[i] == q[i - p.len()] && (p + q)[j] == q[j - p.len()]);
        }
    }
}

spec fn one_if(cond: bool, a: ViewAction) -> Seq<ViewAction> {
    if cond {
        seq![a]
    } else {
        Seq::empty()
    }
}

proof fn lemma_one_if(cond: bool, a: ViewAction, x: ViewAction)
    ensures
        one_if(cond, a).contains(x) <==> cond && x == a,
        one_if(cond, a).len() == if cond { 1int } else { 0 },
        ordered_by_rank(one_if(cond, a)),
        forall|i: int| 0 <= i < one_if(cond, a).len() ==> #[trigger] one_if(cond, a)[i] == a,
{
    if cond {
        assert(one_if(cond, a)[0] == a);
    }
}

proof fn lemma_shortcut_pieces(k: ZoomKeys)
    ensures
        shortcut_actions(k) == one_if(k.command && (k.plus || k.equals), ViewAction::ZoomIn) + one_if(
            k.command && k.minus,
            ViewAction::ZoomOut,
        ) + one_if(k.command && k.num0, ViewAction::FitToWindow) + one_if(
            k.command && k.num1,
            ViewAction::ZoomTo100,
        ),
{
}

proof fn lemma_shortcut_contains(k: ZoomKeys, x: ViewAction)
    ensures
        shortcut_actions(k).contains(x) <==> (x == ViewAction::ZoomIn && k.command && (k.plus
            || k.equals)) || (x == ViewAction::ZoomOut && k.command && k.minus) || (x
            == ViewAction::FitToWindow && k.command && k.num0) || (x == ViewAction::ZoomTo100
            && k.command && k.num1),
{
    let sa = one_if(k.command && (k.plus || k.equals), ViewAction::ZoomIn);
    let sb = one_if(k.command && k.minus, ViewAction::ZoomOut);
    let sc = one_if(k.command && k.num0, ViewAction::FitToWindow);
    let sd = one_if(k.command && k.num1, ViewAction::ZoomTo100);
    lemma_shortcut_pieces(k);
    lemma_concat_contains(sa, sb, x);
    lemma_concat_contains(sa + sb, sc, x);
    lemma_concat_contains(sa + sb + sc, sd, x);
    lemma_one_if(k.command && (k.plus || k.equals), ViewAction::ZoomIn, x);
    lemma_one_if(k.command && k.minus, ViewAction::ZoomOut, x);
    lemma_one_if(k.command && k.num0, ViewAction::FitToWindow, x);
    lemma_one_if(k.command && k.num1, ViewAction::ZoomTo100, x);
}

proof fn lemma_shortcut_order(k: ZoomKeys)
    ensures
        ordered_by_rank(shortcut_actions(k)),
        shortcut_actions(k).len() == (if k.command && (k.plus || k.equals) { 1int } else { 0 }) + (
        if k.command && k.minus { 1int } else { 0 }) + (if k.command && k.num0 { 1int } else { 0 })
            + (if k.command && k.num1 { 1int } else { 0 }),
{
    let sa = one_if(k.command && (k.plus || k.equals), ViewAction::ZoomIn);
    let sb = one_if(k.command && k.minus, ViewAction::ZoomOut);
    let sc = one_if(k.command && k.num0, ViewAction::FitToWindow);
    let sd = one_if(k.command && k.num1, ViewAction::ZoomTo100);
    lemma_shortcut_pieces(k);
    lemma_one_if(k.command && (k.plus || k.equals), ViewAction::ZoomIn, ViewAction::ZoomIn);
    lemma_one_if(k.command && k.minus, ViewAction::ZoomOut, ViewAction::ZoomOut);
    lemma_one_if(k.command && k.num0, ViewAction::FitToWindow, ViewAction::FitToWindow);
    lemma_one_if(k.command && k.num1, ViewAction::ZoomTo100, ViewAction::ZoomTo100);
    assert forall|i: int| 0 <= i < (sa + sb).len() implies action_rank(#[trigger] (sa + sb)[i]) < 2 by {
        if i < sa.len() {
            assert((sa + sb)[i] == sa[i]);
        } else {
            assert((sa + sb)[i] == sb[i - sa.len()]);
        }
    }
    assert forall|i: int| 0 <= i < (sa + sb + sc).len() implies action_rank(
        #[trigger] (sa + sb + sc)[i],
    ) < 3 by {
        if i < (sa + sb).len() {
            assert((sa + sb + sc)[i] == (sa + sb)[i]);
        } else {
            assert((sa + sb + sc)[i] == sc[i - (sa + sb).len()]);
        }
    }
    lemma_concat_ordered(sa, sb, 1);
    lemma_concat_ordered(sa + sb, sc, 2);
    lemma_concat_ordered(sa + sb + sc, sd, 3);
}

/// The frame's shortcut actions: each action appears exactly when its keys
/// were pressed with the command modifier held (zoom in: Plus or Equals;
/// zoom out: Minus; fit: 0; 100%: 1), at most once, in the order zoom in,
/// zoom out, fit, 100%; a View menu action, if any, comes after them.
pub proof fn lemma_view_actions(k: ZoomKeys, pending: Option<ViewAction>)
    ensures
        shortcut_actions(k).contains(ViewAction::ZoomIn) <==> k.command && (k.plus || k.equals),
        shortcut_actions(k).contains(ViewAction::ZoomOut) <==> k.command && k.minus,
        shortcut_actions(k).contains(ViewAction::FitToWindow) <==> k.command && k.num0,
        shortcut_actions(k).contains(ViewAction::ZoomTo100) <==> k.command && k.num1,
        shortcut_actions(k).len() == (if k.command && (k.plus || k.equals) { 1int } else { 0 }) + (
        if k.command && k.minus { 1int } else { 0 }) + (if k.command && k.num0 { 1int } else { 0 })
            + (if k.command && k.num1 { 1int } else { 0 }),
        ordered_by_rank(shortcut_actions(k)),
        frame_actions(k, pending).take(shortcut_actions(k).len() as int) == shortcut_actions(k),
        frame_actions(k, pending).len() == shortcut_actions(k).len() + if pending is Some { 1int } else { 0 },
        pending matches Some(a) ==> frame_actions(k, pending).last() == a,
{
    assert(frame_actions(k, pending).take(shortcut_actions(k).len() as int) =~= shortcut_actions(k));
    lemma_shortcut_contains(k, ViewAction::ZoomIn);
    lemma_shortcut_contains(k, ViewAction::ZoomOut);
    lemma_shortcut_contains(k, ViewAction::FitToWindow);
    lemma_shortcut_contains(k, ViewAction::ZoomTo100);
    lemma_shortcut_order(k);
}

/// The position of each view action in the order the shortcuts apply.
pub open spec fn action_rank(a: ViewAction) -> int {
    match a {
        ViewAction::ZoomIn => 0,
        ViewAction::ZoomOut => 1,
        ViewAction::FitToWindow => 2,
        ViewAction::ZoomTo100 => 3,
    }
}

} // verus!
