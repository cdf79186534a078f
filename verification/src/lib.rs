//! Transparent delegation of selected functions to code running inside an
//! isolated execution environment. The boundary is the point: a generic,
//! self-describing value model both sides convert to and from; a translator
//! from native type descriptors to interface-description nodes; an
//! assembler that packages record definitions and one function signature
//! into a deterministic interface description; the build pipeline's
//! decisions as pure functions; and an invocation runtime that loads a
//! compiled guest module, binds an exported function, and marshals
//! arguments and the result across.

pub mod assemble;
pub mod pipeline;
pub mod runtime;
pub mod translate;
pub mod value;

pub use pipeline::offload;
pub use runtime::OffloadTarget;
pub use runtime::OffloaderState;
pub use runtime::WasmtimeOffload;
pub use runtime::WasmtimeOffloadError;
pub use value::Val;
