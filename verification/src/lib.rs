//! Verified core logic of the AVS toolkit: request parsing, task bookkeeping,
//! session rules and the component-model glue of the WASI tasks.
pub mod text;
pub mod deploy;
pub mod bindings;
pub mod verifier_helper;
pub mod task_queue;
pub mod bouncer;
pub mod status;
pub mod wasmatic;
pub mod oracle;
pub mod evm;
pub mod ollama_task;
