use vstd::prelude::*;

verus! {

/// One of the two textures the compositor ping-pongs between.
#[derive(Clone, Copy, PartialEq, Eq, Structural, Debug)]
pub enum Target {
    /// The texture that holds the finished composite.
    Composite,
    /// The temporary texture used as the other side of the ping-pong.
    Scratch,
}

impl Target {
    pub open spec fn spec_other(self) -> Target {
        match self {
            Target::Composite => Target::Scratch,
            Target::Scratch => Target::Composite,
        }
    }

    /// The other texture of the pair.
    pub fn other(self) -> (r: Target)
        ensures
            r == self.spec_other(),
    {
        match self {
            Target::Composite => Target::Scratch,
            Target::Scratch => Target::Composite,
        }
    }
}

/// One GPU operation of a recomposite.
#[derive(Clone, Copy, PartialEq, Eq, Structural, Debug)]
pub enum CompositeStep {
    /// Clear the composite texture to transparent black.
    ClearComposite,
    /// Copy the texture of layer `layer` into the composite texture.
    CopyLayerToComposite { layer: usize },
    /// Blend layer `layer` over the image held in `dst` and write the result to `out`.
    Blend { layer: usize, dst: Target, out: Target },
    /// Copy the scratch texture into the composite texture.
    CopyScratchToComposite,
}

/// Indices of the visible layers, bottom to top.
pub open spec fn visible_indices(visible: Seq<bool>) -> Seq<usize>
    decreases visible.len(),
{
    if visible.len() == 0 {
        Seq::empty()
    } else {
        let rest = visible_indices(visible.drop_last());
        if visible.last() {
            rest.push((visible.len() - 1) as usize)
        } else {
            rest
        }
    }
}

/// The texture that holds the running result after `k` blend passes.
pub open spec fn holder_after(k: int) -> Target {
    if k % 2 == 0 {
        Target::Composite
    } else {
        Target::Scratch
    }
}

/// The `k`-th blend pass over the visible layers `v`: it blends `v[k + 1]`
/// over the running result and writes to the other texture.
pub open spec fn blend_pass(v: Seq<usize>, k: int) -> CompositeStep {
    CompositeStep::Blend { layer: v[k + 1], dst: holder_after(k), out: holder_after(k).spec_other() }
}

/// The base copy followed by the first `k` blend passes.
pub open spec fn plan_prefix(v: Seq<usize>, k: nat) -> Seq<CompositeStep> {
    seq![CompositeStep::CopyLayerToComposite { layer: v[0] }] + Seq::new(
        k,
        |j: int| blend_pass(v, j),
    )
}

/// The plan that composites the visible layers `v` (bottom to top): clear when
/// nothing is visible; otherwise copy the lowest visible layer into the
/// composite, blend each further visible layer in turn, alternating between
/// the two textures, and copy the result back when it ends in scratch.
pub open spec fn composite_plan(v: Seq<usize>) -> Seq<CompositeStep> {
    if v.len() == 0 {
        seq![CompositeStep::ClearComposite]
    } else {
        let passes = (v.len() - 1) as nat;
        if passes % 2 == 1 {
            plan_prefix(v, passes).push(CompositeStep::CopyScratchToComposite)
        } else {
            plan_prefix(v, passes)
        }
    }
}

/// What the two textures hold: the layers blended into each, bottom to top.
pub struct Textures {
    pub composite: Seq<usize>,
    pub scratch: Seq<usize>,
}

impl Textures {
    pub open spec fn get(self, t: Target) -> Seq<usize> {
        match t {
            Target::Composite => self.composite,
            Target::Scratch => self.scratch,
        }
    }

    pub open spec fn set(self, t: Target, c: Seq<usize>) -> Textures {
        match t {
            Target::Composite => Textures { composite: c, scratch: self.scratch },
            Target::Scratch => Textures { composite: self.composite, scratch: c },
        }
    }
}

/// The effect of one step on what the textures hold.
pub open spec fn apply_step(step: CompositeStep, s: Textures) -> Textures {
    match step {
        CompositeStep::ClearComposite => s.set(Target::Composite, Seq::empty()),
        CompositeStep::CopyLayerToComposite { layer } => s.set(Target::Composite, seq![layer]),
        CompositeStep::Blend { layer, dst, out } => s.set(out, s.get(dst).push(layer)),
        CompositeStep::CopyScratchToComposite => s.set(Target::Composite, s.scratch),
    }
}

/// The effect of running `steps` in order, starting from `s`.
pub open spec fn run_steps(steps: Seq<CompositeStep>, s: Textures) -> Textures
    decreases steps.len(),
{
    if steps.len() == 0 {
        s
    } else {
        apply_step(steps.last(), run_steps(steps.drop_last(), s))
    }
}

proof fn lemma_prefix_holds_taken(v: Seq<usize>, k: nat, s: Textures)
    requires
        k < v.len(),
    ensures
        run_steps(plan_prefix(v, k), s).get(holder_after(k as int)) == v.take(k + 1int),
    decreases k,
{
    if k == 0 {
        assert(plan_prefix(v, 0).drop_last() =~= Seq::<CompositeStep>::empty());
        assert(v.take(1) =~= seq![v[0]]);
    } else {
        let j = (k - 1) as nat;
        lemma_prefix_holds_taken(v, j, s);
        assert(plan_prefix(v, k).drop_last() =~= plan_prefix(v, j));
        assert(plan_prefix(v, k).last() == blend_pass(v, j as int));
        assert(holder_after(k as int) == holder_after(j as int).spec_other());
        assert(v.take(j + 1int).push(v[k as int]) =~= v.take(k + 1int));
    }
}

/// Running the plan leaves in the composite texture exactly the given layers
/// blended bottom to top, whatever both textures held before.
pub proof fn lemma_plan_composites_exactly(v: Seq<usize>, s: Textures)
    ensures
        run_steps(composite_plan(v), s).composite == v,
{
    if v.len() == 0 {
        assert(composite_plan(v).drop_last() =~= Seq::<CompositeStep>::empty());
    } else {
        let passes = (v.len() - 1) as nat;
        lemma_prefix_holds_taken(v, passes, s);
        assert(v.take(passes + 1int) =~= v);
        if passes % 2 == 1 {
            assert(composite_plan(v).drop_last() =~= plan_prefix(v, passes));
        }
    }
}

/// Recompositing the visible layers leaves in the composite texture exactly
/// the visible layers, blended bottom to top.
pub proof fn lemma_recomposite_shows_visible_layers(visible: Seq<bool>, s: Textures)
    ensures
        run_steps(composite_plan(visible_indices(visible)), s).composite == visible_indices(visible),
{
    lemma_plan_composites_exactly(visible_indices(visible), s);
}

/// No blend pass reads from the texture it writes to, and every blend pass
/// reads the texture that holds the result of the steps before it.
pub proof fn lemma_plan_ping_pongs(v: Seq<usize>, i: int)
    requires
        0 <= i < composite_plan(v).len(),
        composite_plan(v)[i] is Blend,
    ensures
        composite_plan(v)[i]->dst != composite_plan(v)[i]->out,
        composite_plan(v)[i]->dst == holder_after(i - 1),
{
}

/// The visible indices are strictly increasing and name exactly the layers
/// whose flag is set.
pub proof fn lemma_visible_indices(visible: Seq<bool>)
    requires
        visible.len() <= usize::MAX,
    ensures
        visible_indices(visible).len() <= visible.len(),
        forall|a: int, b: int|
            0 <= a < b < visible_indices(visible).len() ==> visible_indices(visible)[a]
                < visible_indices(visible)[b],
        forall|a: int|
            0 <= a < visible_indices(visible).len() ==> visible_indices(visible)[a] < visible.len()
                && visible[visible_indices(visible)[a] as int],
        forall|i: int|
            0 <= i < visible.len() && visible[i] ==> visible_indices(visible).contains(i as usize),
    decreases visible.len(),
{
    if visible.len() > 0 {
        let d = visible.drop_last();
        lemma_visible_indices(d);
        let n = visible.len() - 1;
        let r = visible_indices(visible);
        let rd = visible_indices(d);
        assert forall|a: int| 0 <= a < r.len() implies r[a] < visible.len() && visible[r[a] as int] by {
            if a < rd.len() {
                assert(r[a] == rd[a]);
                assert(d[rd[a] as int] == visible[rd[a] as int]);
            }
        }
        assert forall|a: int, b: int| 0 <= a < b < r.len() implies r[a] < r[b] by {
            if b < rd.len() {
                assert(r[a] == rd[a] && r[b] == rd[b]);
            } else {
                assert(r[a] == rd[a]);
                assert(r[b] == n);
            }
        }
        assert forall|i: int| 0 <= i < visible.len() && visible[i] implies r.contains(i as usize) by {
            if i < n {
                assert(d[i] == visible[i]);
                let k = choose|k: int| 0 <= k < rd.len() && rd[k] == i as usize;
                assert(r[k] == i as usize);
            } else {
                assert(r.last() == i as usize);
            }
        }
    }
}

/// Indices of the visible layers, bottom to top.
pub fn visible_layers(visible: &Vec<bool>) -> (r: Vec<usize>)
    ensures
        r@ == visible_indices(visible@),
{
    let mut r: Vec<usize> = Vec::new();
    let mut i: usize = 0;
    while i < visible.len()
        invariant
            i <= visible.len(),
            r@ == visible_indices(visible@.take(i as int)),
        decreases visible.len() - i,
    {
        assert(visible@.take(i + 1).drop_last() == visible@.take(i as int));
        if visible[i] {
            r.push(i);
        }
        i = i + 1;
    }
    assert(visible@.take(visible.len() as int) == visible@);
    r
}

/// The sequence of GPU operations that composites the layers `visible`
/// (indices of the visible layers, bottom to top) into the composite texture.
pub fn plan_composite(visible: &Vec<usize>) -> (r: Vec<CompositeStep>)
    ensures
        r@ == composite_plan(visible@),
{
    if visible.len() == 0 {
        let mut r: Vec<CompositeStep> = Vec::new();
        r.push(CompositeStep::ClearComposite);
        return r;
    }
    let mut r: Vec<CompositeStep> = Vec::new();
    r.push(CompositeStep::CopyLayerToComposite { layer: visible[0] });
    let mut result_in_composite = true;
    let mut k: usize = 0;
    assert(r@ == plan_prefix(visible@, 0));
    while k + 1 < visible.len()
        invariant
            0 < visible.len(),
            k < visible.len(),
            r@ == plan_prefix(visible@, k as nat),
            result_in_composite == (k % 2 == 0),
        decreases visible.len() - k,
    {
        let (dst, out) = if result_in_composite {
            (Target::Composite, Target::Scratch)
        } else {
            (Target::Scratch, Target::Composite)
        };
        r.push(CompositeStep::Blend { layer: visible[k + 1], dst, out });
        assert(r@ == plan_prefix(visible@, (k + 1) as nat));
        result_in_composite = !result_in_composite;
        k = k + 1;
    }
    if !result_in_composite {
        r.push(CompositeStep::CopyScratchToComposite);
    }
    r
}

} // verus!
