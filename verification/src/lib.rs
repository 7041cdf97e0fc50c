//! Rotors in three dimensions over the integers.
//!
//! A rotor is a scalar together with a bivector: an even element of the
//! geometric algebra of three-dimensional space. Rotors compose by the
//! geometric product and turn vectors by the sandwich product. Every
//! coordinate here is an integer, so that sums and products are exact: an
//! operation returns the true result, and its precondition asks that the true
//! result can be held in 32 bits. Division by an integer rounds toward zero
//! and asks for a divisor other than zero. Called without its precondition
//! from code that was not verified, an operation stops the program rather
//! than return another number.
//!
//! A rotor of norm one turns without rescaling; any other rotor turns and
//! multiplies lengths by its squared norm. [`model`] holds the algebra on
//! unbounded integers, in which the contracts are written; [`laws`] holds
//! what is proved of it.

mod arith;
pub mod bivector;
pub mod laws;
pub mod model;
pub mod rotor;
pub mod vector;
