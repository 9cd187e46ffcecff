use vstd::prelude::*;
use crate::blend::BlendMode;
use crate::composite::{
    CompositeStep, Textures, composite_plan, lemma_plan_composites_exactly, lemma_visible_indices,
    plan_composite, run_steps, visible_indices, visible_layers,
};
use crate::naming::{layer_name, spec_layer_name};
use crate::pixels::{filled_image, filled_pixels};

verus! {

/// A single image layer: its name, whether it is shown, how it blends onto the
/// layers below it, and the resources the caller keeps with it (on the GPU
/// side: the layer's texture, the texture's view and the layer's opacity).
pub struct Layer<T> {
    pub name: String,
    pub visible: bool,
    pub blend_mode: BlendMode,
    pub resources: T,
}

impl<T> Layer<T> {
    /// A visible layer in `Normal` blend mode.
    pub fn new(name: &str, resources: T) -> (r: Layer<T>)
        ensures
            r.name@ == name@,
            r.visible,
            r.blend_mode == BlendMode::Normal,
            r.resources == resources,
    {
        Layer { name: String::from_str(name), visible: true, blend_mode: BlendMode::Normal, resources }
    }
}

/// Whether `l` is a freshly made layer named `name` holding `resources`.
pub open spec fn is_fresh_layer<T>(l: Layer<T>, name: Seq<char>, resources: T) -> bool {
    &&& l.name@ == name
    &&& l.visible
    &&& l.blend_mode == BlendMode::Normal
    &&& l.resources == resources
}

/// The visibility flags of a layer stack, bottom to top.
pub open spec fn visibility<T>(layers: Seq<Layer<T>>) -> Seq<bool> {
    layers.map_values(|l: Layer<T>| l.visible)
}

/// The layer selected after the selected one was removed from a stack that
/// now holds `len` layers: the same position, or the new top layer when the
/// removed one was the top.
pub open spec fn selection_after_delete(selected: nat, len: nat) -> nat {
    if selected < len {
        selected
    } else {
        (len - 1) as nat
    }
}

/// The document: canvas dimensions and a stack of layers, bottom to top, of
/// which one is selected, with a flag saying whether the composite image is
/// out of date.
pub struct Document<T> {
    width: u32,
    height: u32,
    layers: Vec<Layer<T>>,
    selected_layer: usize,
    dirty: bool,
    /// The layer stack as it stood at the last recomposite.
    composited: Ghost<Seq<Layer<T>>>,
}

impl<T> Document<T> {
    pub closed spec fn spec_width(&self) -> nat {
        self.width as nat
    }

    pub closed spec fn spec_height(&self) -> nat {
        self.height as nat
    }

    pub closed spec fn spec_layers(&self) -> Seq<Layer<T>> {
        self.layers@
    }

    pub closed spec fn spec_selected_layer(&self) -> nat {
        self.selected_layer as nat
    }

    pub closed spec fn spec_dirty(&self) -> bool {
        self.dirty
    }

    /// The layer stack as it stood when the composite was last planned: the
    /// composite image shows `composite_plan(visible_indices(visibility(..)))`
    /// of it.
    pub closed spec fn spec_composited(&self) -> Seq<Layer<T>> {
        self.composited@
    }

    /// Every operation keeps this, and `new` establishes it: the stack is never empty, the selection
    /// names one of its layers, an RGBA8 image of the canvas size has a length
    /// that fits in a `u32`, and when the composite is not out of date it was
    /// planned from the current stack.
    pub open spec fn wf(&self) -> bool {
        &&& self.spec_layers().len() >= 1
        &&& self.spec_selected_layer() < self.spec_layers().len()
        &&& self.spec_width() * self.spec_height() * 4 <= u32::MAX
        &&& !self.spec_dirty() ==> self.spec_composited() == self.spec_layers()
    }

    /// Whether `self` and `other` agree on everything but the layer stack,
    /// the selection and the flag.
    pub open spec fn same_canvas(&self, other: &Document<T>) -> bool {
        &&& self.spec_width() == other.spec_width()
        &&& self.spec_height() == other.spec_height()
    }

    /// A new document: an opaque white "Background" layer under "Layer 1",
    /// which is selected; the composite is out of date. The caller makes the
    /// two layers' textures, fills layer `i` with
    /// `initial_layer_pixels(width, height, i)` (whose contract is
    /// `initial_image`), and hands their resources in.
    pub fn new(width: u32, height: u32, background: T, foreground: T) -> (r: Document<T>)
        requires
            width * height * 4 <= u32::MAX,
        ensures
            r.wf(),
            r.spec_width() == width,
            r.spec_height() == height,
            r.spec_layers().len() == 2,
            is_fresh_layer(r.spec_layers()[0], "Background"@, background),
            is_fresh_layer(r.spec_layers()[1], "Layer 1"@, foreground),
            r.spec_selected_layer() == 1,
            r.spec_dirty(),
    {
        let bg = Layer::new("Background", background);
        let layer1 = Layer::new("Layer 1", foreground);
        let mut layers: Vec<Layer<T>> = Vec::new();
        layers.push(bg);
        layers.push(layer1);
        Document { width, height, layers, selected_layer: 1, dirty: true, composited: Ghost(Seq::empty()) }
    }

    pub fn width(&self) -> (r: u32)
        ensures
            r == self.spec_width(),
    {
        self.width
    }

    pub fn height(&self) -> (r: u32)
        ensures
            r == self.spec_height(),
    {
        self.height
    }

    /// The number of layers, which is never zero.
    pub fn layer_count(&self) -> (r: usize)
        ensures
            r == self.spec_layers().len(),
            self.wf() ==> r >= 1,
    {
        self.layers.len()
    }

    pub fn layer(&self, i: usize) -> (r: &Layer<T>)
        requires
            i < self.spec_layers().len(),
        ensures
            *r == self.spec_layers()[i as int],
    {
        &self.layers[i]
    }

    /// The selected layer, which is always one of the stack's layers.
    pub fn selected_layer(&self) -> (r: usize)
        ensures
            r == self.spec_selected_layer(),
            self.wf() ==> r < self.spec_layers().len(),
    {
        self.selected_layer
    }

    /// Whether the composite image is out of date; when it is not, it was
    /// planned from the current stack.
    pub fn is_dirty(&self) -> (r: bool)
        ensures
            r == self.spec_dirty(),
            self.wf() && !r ==> self.spec_composited() == self.spec_layers(),
    {
        self.dirty
    }

    /// RGBA8 pixel data of the canvas size, all transparent black: what a
    /// new layer's texture starts with, and what an empty composite shows.
    pub fn blank_pixels(&self) -> (r: Vec<u8>)
        requires
            self.wf(),
        ensures
            r@ == filled_image(self.spec_width(), self.spec_height(), 0),
    {
        filled_pixels(self.width, self.height, 0)
    }

    /// Makes layer `i` the selected one.
    pub fn select_layer(&mut self, i: usize)
        requires
            old(self).wf(),
            i < old(self).spec_layers().len(),
        ensures
            final(self).wf(),
            final(self).same_canvas(old(self)),
            final(self).spec_layers() == old(self).spec_layers(),
            final(self).spec_selected_layer() == i,
            final(self).spec_dirty() == old(self).spec_dirty(),
            final(self).spec_composited() == old(self).spec_composited(),
    {
        self.selected_layer = i;
    }

    /// Shows or hides layer `i`; the composite is out of date when this
    /// changed the layer.
    pub fn set_visible(&mut self, i: usize, visible: bool)
        requires
            old(self).wf(),
            i < old(self).spec_layers().len(),
        ensures
            final(self).wf(),
            final(self).same_canvas(old(self)),
            final(self).spec_layers() == old(self).spec_layers().update(
                i as int,
                Layer { visible, ..old(self).spec_layers()[i as int] },
            ),
            final(self).spec_selected_layer() == old(self).spec_selected_layer(),
            final(self).spec_dirty() == (old(self).spec_dirty() || visible
                != old(self).spec_layers()[i as int].visible),
            final(self).spec_composited() == old(self).spec_composited(),
    {
        if self.layers[i].visible != visible {
            self.dirty = true;
            let layer = &mut self.layers[i];
            layer.visible = visible;
        }
    }

    /// Sets the blend mode of layer `i`; the composite is out of date when
    /// this changed the layer.
    pub fn set_blend_mode(&mut self, i: usize, mode: BlendMode)
        requires
            old(self).wf(),
            i < old(self).spec_layers().len(),
        ensures
            final(self).wf(),
            final(self).same_canvas(old(self)),
            final(self).spec_layers() == old(self).spec_layers().update(
                i as int,
                Layer { blend_mode: mode, ..old(self).spec_layers()[i as int] },
            ),
            final(self).spec_selected_layer() == old(self).spec_selected_layer(),
            final(self).spec_dirty() == (old(self).spec_dirty() || mode
                != old(self).spec_layers()[i as int].blend_mode),
            final(self).spec_composited() == old(self).spec_composited(),
    {
        if self.layers[i].blend_mode != mode {
            self.dirty = true;
            let layer = &mut self.layers[i];
            layer.blend_mode = mode;
        }
    }

    /// The resources kept with layer `i` (its texture and opacity), for the
    /// caller to change in place; since they feed the composite, the
    /// composite is out of date.
    pub fn resources_mut(&mut self, i: usize) -> (r: &mut T)
        requires
            old(self).wf(),
            i < old(self).spec_layers().len(),
        ensures
            final(self).wf(),
            *r == old(self).spec_layers()[i as int].resources,
            final(self).same_canvas(old(self)),
            final(self).spec_layers() == old(self).spec_layers().update(
                i as int,
                Layer { resources: *final(r), ..old(self).spec_layers()[i as int] },
            ),
            final(self).spec_selected_layer() == old(self).spec_selected_layer(),
            final(self).spec_dirty(),
            final(self).spec_composited() == old(self).spec_composited(),
    {
        self.dirty = true;
        &mut self.layers[i].resources
    }

    /// Puts a new visible layer in `Normal` mode on top of the stack, named
    /// "Layer n" where n is the number of layers before it, and selects it;
    /// the composite is out of date. The caller makes the layer's texture and
    /// hands its resources in; what comes back is the pixel data the texture
    /// starts with: transparent black of the canvas size.
    pub fn add_layer(&mut self, resources: T) -> (r: Vec<u8>)
        requires
            old(self).wf(),
            old(self).spec_layers().len() < usize::MAX,
        ensures
            final(self).wf(),
            r@ == filled_image(old(self).spec_width(), old(self).spec_height(), 0),
            final(self).same_canvas(old(self)),
            final(self).spec_layers().len() == old(self).spec_layers().len() + 1,
            final(self).spec_layers().drop_last() == old(self).spec_layers(),
            is_fresh_layer(
                final(self).spec_layers().last(),
                spec_layer_name(old(self).spec_layers().len()),
                resources,
            ),
            final(self).spec_selected_layer() == old(self).spec_layers().len(),
            final(self).spec_dirty(),
            final(self).spec_composited() == old(self).spec_composited(),
    {
        let pixels = filled_pixels(self.width, self.height, 0);
        let n = self.layers.len();
        let name = layer_name(n);
        let layer = Layer { name, visible: true, blend_mode: BlendMode::Normal, resources };
        self.dirty = true;
        self.layers.push(layer);
        assert(self.layers@.drop_last() == old(self).layers@);
        self.selected_layer = n;
        pixels
    }

    /// Removes the selected layer, unless it is the only one, and returns it.
    /// The selection stays at the same position, or moves to the new top
    /// layer when the removed one was the top; the composite is out of date.
    /// With a single layer nothing changes and `None` comes back.
    pub fn delete_selected_layer(&mut self) -> (r: Option<Layer<T>>)
        requires
            old(self).wf(),
        ensures
            final(self).wf(),
            final(self).same_canvas(old(self)),
            final(self).spec_composited() == old(self).spec_composited(),
            old(self).spec_layers().len() == 1 ==> {
                &&& r is None
                &&& final(self).spec_layers() == old(self).spec_layers()
                &&& final(self).spec_selected_layer() == old(self).spec_selected_layer()
                &&& final(self).spec_dirty() == old(self).spec_dirty()
            },
            old(self).spec_layers().len() > 1 ==> {
                &&& r == Some(old(self).spec_layers()[old(self).spec_selected_layer() as int])
                &&& final(self).spec_layers() == old(self).spec_layers().remove(
                    old(self).spec_selected_layer() as int,
                )
                &&& final(self).spec_selected_layer() == selection_after_delete(
                    old(self).spec_selected_layer(),
                    final(self).spec_layers().len(),
                )
                &&& old(self).spec_selected_layer() < final(self).spec_layers().len()
                    ==> final(self).spec_selected_layer() == old(self).spec_selected_layer()
                &&& old(self).spec_selected_layer() >= final(self).spec_layers().len()
                    ==> final(self).spec_selected_layer() == final(self).spec_layers().len() - 1
                &&& final(self).spec_dirty()
            },
    {
        if self.layers.len() > 1 {
            let i = self.selected_layer;
            let last = self.layers.len() - 2;
            self.dirty = true;
            if i > last {
                self.selected_layer = last;
            }
            let removed = self.layers.remove(i);
            Some(removed)
        } else {
            None
        }
    }

    fn visibility_flags(&self) -> (r: Vec<bool>)
        ensures
            r@ == visibility(self.spec_layers()),
    {
        let mut r: Vec<bool> = Vec::new();
        let mut i: usize = 0;
        while i < self.layers.len()
            invariant
                i <= self.layers.len(),
                r@ == visibility(self.layers@.take(i as int)),
            decreases self.layers.len() - i,
        {
            r.push(self.layers[i].visible);
            i = i + 1;
            assert(visibility(self.layers@.take(i as int)) =~= r@);
        }
        assert(self.layers@.take(i as int) == self.layers@);
        r
    }

    /// When the composite is out of date, returns the GPU operations that
    /// composite the visible layers (see `composite_plan`), records the stack
    /// they were planned from, and marks the composite up to date. Otherwise
    /// the composite was already planned from the current stack, and this
    /// returns `None` and changes nothing.
    pub fn recomposite(&mut self) -> (r: Option<Vec<CompositeStep>>)
        requires
            old(self).wf(),
        ensures
            final(self).wf(),
            final(self).same_canvas(old(self)),
            final(self).spec_layers() == old(self).spec_layers(),
            final(self).spec_selected_layer() == old(self).spec_selected_layer(),
            !final(self).spec_dirty(),
            final(self).spec_composited() == old(self).spec_layers(),
            !old(self).spec_dirty() ==> r is None && old(self).spec_composited() == old(
                self,
            ).spec_layers(),
            old(self).spec_dirty() ==> r is Some && r->0@ == composite_plan(
                visible_indices(visibility(old(self).spec_layers())),
            ),
    {
        if !self.dirty {
            return None;
        }
        let flags = self.visibility_flags();
        let visible = visible_layers(&flags);
        let steps = plan_composite(&visible);
        self.composited = Ghost(self.layers@);
        self.dirty = false;
        Some(steps)
    }
}

/// Whenever a document's composite is not out of date, running the plan it
/// was last given leaves in the composite texture exactly the document's
/// current visible layers, bottom to top, whatever the textures held before.
pub proof fn lemma_clean_document_shows_visible_layers<T>(doc: Document<T>, s: Textures)
    requires
        doc.wf(),
        !doc.spec_dirty(),
    ensures
        run_steps(composite_plan(visible_indices(visibility(doc.spec_composited()))), s).composite
            == visible_indices(visibility(doc.spec_layers())),
{
    lemma_plan_composites_exactly(visible_indices(visibility(doc.spec_composited())), s);
}

/// Deleting the layer that `add_layer` has just put on top (and selected)
/// gives back the stack as it was before the addition, with its top layer
/// selected.
pub proof fn lemma_delete_undoes_add<T>(before: Seq<Layer<T>>, after_add: Seq<Layer<T>>)
    requires
        before.len() >= 1,
        after_add.len() == before.len() + 1,
        after_add.drop_last() == before,
    ensures
        after_add.remove(before.len() as int) == before,
        selection_after_delete(before.len(), before.len()) == before.len() - 1,
{
    assert(after_add.remove(before.len() as int) =~= after_add.drop_last());
}

/// Deleting the selected layer keeps the selection at the same position
/// when a layer is left there, and otherwise moves it to the new top layer;
/// either way it names a layer of the new stack.
pub proof fn lemma_selection_after_delete(selected: nat, len: nat)
    requires
        len >= 1,
        selected <= len,
    ensures
        selected < len ==> selection_after_delete(selected, len) == selected,
        selected == len ==> selection_after_delete(selected, len) == len - 1,
        selection_after_delete(selected, len) < len,
        selection_after_delete(selected, len) <= selected,
{
}

/// The flags the compositing plan is built from are the layers' `visible`
/// fields, one per layer, whatever the layers' blend modes and resources.
pub proof fn lemma_visibility_is_visible_field<T>(layers: Seq<Layer<T>>)
    ensures
        visibility(layers).len() == layers.len(),
        forall|i: int| 0 <= i < layers.len() ==> #[trigger] visibility(layers)[i] == layers[i].visible,
{
}

/// Running the plan that `recomposite` gives for a stack leaves in the
/// composite texture the indices of exactly the visible layers, each once, in
/// increasing order (bottom to top), whatever the textures held before and
/// whatever the layers' blend modes.
pub proof fn lemma_recomposite_blends_exactly_visible<T>(layers: Seq<Layer<T>>, s: Textures)
    requires
        layers.len() <= usize::MAX,
    ensures
        ({
            let c = run_steps(composite_plan(visible_indices(visibility(layers))), s).composite;
            &&& forall|i: int| 0 <= i < layers.len() && (#[trigger] layers[i]).visible ==> c.contains(i as usize)
            &&& forall|k: int| 0 <= k < c.len() ==> (#[trigger] c[k]) < layers.len() && layers[c[k] as int].visible
            &&& forall|a: int, b: int| 0 <= a < b < c.len() ==> c[a] < c[b]
        }),
{
    let v = visibility(layers);
    lemma_visibility_is_visible_field(layers);
    lemma_plan_composites_exactly(visible_indices(v), s);
    lemma_visible_indices(v);
    let c = run_steps(composite_plan(visible_indices(v)), s).composite;
    assert forall|i: int| 0 <= i < layers.len() && (#[trigger] layers[i]).visible implies c.contains(i as usize) by {
        assert(v[i]);
    }
    assert forall|k: int| 0 <= k < c.len() implies (#[trigger] c[k]) < layers.len() && layers[c[k] as int].visible by {
        assert(v[c[k] as int]);
    }
}

} // verus!
