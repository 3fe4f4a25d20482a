use vstd::prelude::*;

pub mod codec;
pub mod recipe;
pub mod schema;
pub mod wire;
