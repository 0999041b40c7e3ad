use vstd::prelude::*;

pub mod analyzer;
pub mod annotations;
pub mod bridge;
pub mod bytecode;
pub mod classes;
pub mod convert;
pub mod domain;
pub mod error;
pub mod expr;
pub mod ffi;
pub mod infer;
pub mod lambda;
pub mod provider;
pub mod pyast;
pub mod registry;
pub mod score;
pub mod stream;
pub mod text;
pub mod types;
