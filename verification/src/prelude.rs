//! The most used items of the library, for a single glob import.
pub use crate::bounded::BoundedInt;
pub use crate::ghost::{GhostProven, Ghosted, Proven, Unproven};
pub use crate::rand::Rng;
pub use crate::tensor::Tensor;
pub use crate::tensor2::Tensor2;
pub use crate::witness::Witness;
