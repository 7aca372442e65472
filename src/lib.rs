//! Host-side lifecycle and hot reload of natively compiled application
//! modules, with the decisions of each operation verified.
pub mod cli;
pub mod lifecycle;
pub mod lifecycle_proofs;
pub mod module;
pub mod renderer;
pub mod shader;
pub mod window;
