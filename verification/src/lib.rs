//! A directive-to-test-code compiler: it consumes an ordered sequence of
//! test-script directives describing modules and behavioral assertions, and
//! emits compilable test source exercising them — non-trapping assertions
//! batched per module, trap assertions isolated, and literal values rendered
//! deterministically with bit-exact NaN and infinity handling. A manifest
//! assembler gates large generated files out of the fast build mode.

pub mod text;
pub mod value;
pub mod directive;
pub mod emit;
pub mod generator;
pub mod manifest;
pub mod laws;
