# avs_toolkit

Tools and WASI tasks for an actively validated service on a Cosmos chain:
deploying the task queue, verifier and operator contracts, listing and
adding tasks, driving Wasmatic operator nodes, and the tasks themselves (an
AI bouncer, a prompt completion, a BTC/USD oracle and an EVM balance query).

The decisions and data formats are written in Verus and proved against their
contracts:

- `src/deploy.rs`: the requestor syntax (`deployer`, `fixed(..)`,
  `payment(..)`), operator specs and the checks of deployment arguments.
- `src/task_queue.rs`: task listings (a stable merge sorted by id), the
  payment a new task needs, and the queue report.
- `src/verifier_helper.rs`: vote validity and the voting power a task needs.
- `src/bouncer/`: the bouncer's conversations, message ids, decisions and the
  model providers' message forms.
- `src/wasmatic.rs`, `src/evm.rs`, `src/ollama_task.rs`, `src/oracle.rs`,
  `src/status.rs`: request bodies and reply handling of the tasks and tools.
- `src/bindings/`: the component-model types of the `task-queue` world, the
  resources' handles, and the canonical-ABI lifting and flattening of the
  values the `wasi:http` and `wasi:io` imports exchange.

`app/` holds the rest: serde forms of the library's types, HTTP and file
access, the import and export glue of the WASI components, and the chain
clients. It needs `layer_wasi`, `layer_climb` and the `lavs-*` contract crates
besides the crates in `Cargo.toml`.
