//! Zero-sized markers that fix the variance of a type parameter.
//!
//! A generic type that mentions `T` only in a phantom field takes its variance
//! in `T` from that field. Each marker here stands for one stance:
//!
//! - [`DzCovariant<T>`]: a producer of `T`. Where `A` is a subtype of `B`,
//!   `DzCovariant<A>` is a subtype of `DzCovariant<B>`.
//! - [`DzContravariant<T>`]: a consumer of `T`. Where `A` is a subtype of `B`,
//!   `DzContravariant<B>` is a subtype of `DzContravariant<A>`.
//! - [`DzInvariant<T>`]: both at once. No two distinct instantiations are
//!   subtypes of one another.
//!
//! A marker holds no data. It has one value, made by `new`, and any two values
//! of one marker type are equal; each type proves this as
//! `lemma_single_valued`, so that a structure which embeds a marker is
//! determined by its other fields.
//!
//! In Rust the subtyping that variance acts on comes from lifetimes: `&'long U`
//! is a subtype of `&'short U` whenever `'long` outlives `'short`. The
//! substitutions that a marker permits are written down as functions whose
//! bodies only hand their argument back, so that they compile exactly because
//! the marker has the variance it claims: [`DzCovariant::shorten`] and
//! [`DzCovariant::shorten_ref`], [`DzContravariant::lengthen`] and
//! [`DzContravariant::lengthen_ref`]. Each pair holds its marker to one
//! variance: with any other, the pair does not compile.
//!
//! The invariant marker permits no substitution and has no such function. It
//! is made of the other two, which it hands out as
//! [`DzInvariant::producer`] and [`DzInvariant::consumer`]: what holds one
//! marker that varies one way only, and one that varies the other way only,
//! varies in neither.
//!
//! The substitutions that a marker forbids cannot stand in code that compiles;
//! the examples on each `new` show them.
//!
//! A marker's parameter is declared `#[verifier::reject_recursive_types]`, and
//! so is the parameter of a verified type that embeds the marker.

mod carrier;
pub mod contravariance;
pub mod covariance;
pub mod invariance;

pub use crate::contravariance::DzContravariant;
pub use crate::covariance::DzCovariant;
pub use crate::invariance::DzInvariant;
