# layerrd

The document model of Layerrd, a GPU-accelerated, layer-based image editor,
as a library whose contracts are proved, with the editor window around it.

- `src/` — the verified library
  - `blend.rs`: blend modes, their names and the numbers the compositing shader reads
  - `layers.rs`: layers and the document (layer stack, selection, out-of-date flag)
  - `composite.rs`: the plan of GPU steps that composites the visible layers,
    ping-ponging between the composite and a scratch texture, with the proof
    that it leaves exactly the visible layers, bottom to top, in the composite
  - `pixels.rs`: the pixel data that new layers start with
  - `naming.rs`: decimal layer names ("Layer 3")
  - `tools.rs`, `view.rs`: toolbar names and labels, zoom shortcuts, pan gestures
- `app/` — the eframe/egui window, wgpu pipelines and canvas rendering; it
  runs the plans that the library hands out
- `tests/` — tests of the library
