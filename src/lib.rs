//! A catalog of items served through a data-access interface, wired into
//! request handlers in two ways: by a type parameter fixed at build time,
//! and by a shared polymorphic handle chosen at start-up.
pub mod ids;
pub mod store;
pub mod view;
pub mod handlers;
pub mod trait_static;
pub mod dynamic;
pub mod struct_static;
