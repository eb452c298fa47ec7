//! Black-box optimizers.

pub mod asha;
pub mod hyperband;
pub mod knn;
pub mod nsga2;
pub mod random;
