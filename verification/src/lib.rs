//! Reverse-mode automatic differentiation over scalars.
//!
//! An expression is built from variables with sums and products. Every
//! node computes its value when it is built and keeps it in a cell of a
//! [`Tape`], next to a gradient that starts at zero. [`Backward::backward`]
//! sends a seed from a node down to the variables it was built from: each
//! cell on the way adds what reaches it to its gradient, a sum hands the
//! seed on as it is, and a product hands each operand the seed times the
//! value of the other. A variable that occurs several times collects from
//! every occurrence, because nodes name cells by position and copies of a
//! node name the same cell.
//!
//! The contracts are stated over `flow`: what a pass sends where, in which
//! order, and what the gradients are once it has all arrived. `laws` holds
//! what follows for every expression.

pub mod backward;
pub mod flow;
pub mod laws;
pub mod product;
pub mod scalar;
pub mod sum;
pub mod var;

pub use crate::backward::Backward;
pub use crate::product::Product;
pub use crate::scalar::{Exact, ExactSum, Scalar};
pub use crate::sum::Sum;
pub use crate::var::{Tape, Value, Var};
