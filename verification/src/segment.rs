pub mod dof;
pub mod rbm;
pub mod units;
