//! Build-time support for CXX-Qt: the naming rules, the cargo directives, the
//! builder state and the generated-file plans that a build script needs, and
//! the token-level rewrites that the code generator applies to bridge types.

pub mod text;
pub mod strings;
pub mod tokens;
pub mod references;
pub mod cfg;
pub mod naming;
pub mod builder;
pub mod generated;
pub mod steps;
pub mod signal;
pub mod application;
