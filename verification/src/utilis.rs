pub mod adt;
pub mod discr;
