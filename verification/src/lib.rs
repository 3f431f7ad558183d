//! Lowering of a typed shader IR into a scalar/vector native code
//! representation, with every step stated as a contract over a ghost model
//! of the generator's state.
//!
//! [`ir`] holds the shader IR, [`codegen`] the generator, and [`wgpu`] what
//! a software backend records when it encodes commands.

pub mod codegen;
pub mod ir;
pub mod wgpu;
