//! Instanced ring rendering: ring tessellation, per-instance attributes,
//! vertex buffer layout, layers and the per-frame driver.

pub mod geometry;
pub mod instances;
pub mod layer;
pub mod layout;
pub mod random;
pub mod view;
