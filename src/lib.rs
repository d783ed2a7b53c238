//! Specifier parsing and error diagnostics for a package manager front end.
pub mod diagnostics;
pub mod pack;
pub mod package_spec;
pub mod rogga;
pub mod sdlang;
