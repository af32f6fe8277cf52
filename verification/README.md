# pocs

Verified building blocks from a set of blockchain and workflow proofs of
concept, written in Verus.

- `src/` is the library. Each module states its behaviour in `requires` /
  `ensures` contracts over mathematical views, and Verus proves them:
  - `enclave`, `authorization`, `kurtosis`: a pallet that matches enclave
    providers with users, its off-chain worker, the node's record of
    authorized enclave accounts, and the clients of the Kurtosis services;
  - `custom_token`, `guessing_game`, `student_registry`, `para_genesis`:
    smaller pallets, with `frame` for origins and dispatch errors;
  - `workflow_graph`, `runtime_types`, `state_manager`, `example`: running
    the tasks of a workflow and recording its state;
  - `generator`, `codegen_model`: generating Rust code for the tasks of a
    workflow configuration with the `codegen` crate;
  - `factorial`, `actor`, `counter`, `cross_contract`, `json`: the rest.
- `tests/` exercises the library on concrete values.
- `app/` is the command-line program around it: reading configuration files,
  writing generated code, publishing workflow state, and running work on
  threads.
