//! A discrete-time predator-prey ecosystem: two prey species that grow, age,
//! fall ill and breed, and a single predator that feeds on them or starves.
//!
//! Weights and food reserves are held as whole milligrams.

pub mod especies;
pub mod crecimiento;
pub mod azar;
pub mod presas;
pub mod depredador;
pub mod simulacion;
