//! Document model of a layer-based image editor: the layer stack, its blend
//! modes, the plan by which visible layers are composited, and the pixel data
//! that seeds a new document.

pub mod blend;
pub mod composite;
pub mod naming;
pub mod pixels;
pub mod layers;
pub mod tools;
pub mod view;
