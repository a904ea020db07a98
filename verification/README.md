# cnear

A NEP-141 fungible token for NEAR with an owner, a pause switch, frozen accounts and a price, and
two tools that deploy it together with its controller.

- `src/` is the library, verified with Verus.
  - `contract.rs` is the token. Its state and calls are modelled in `model.rs`, and what holds over
    any history of calls is proved in `contract_laws.rs`. The ledger (`token.rs`), the frozen set
    (`frozen.rs`), the metadata cell (`metadata.rs`) and the runtime (`host.rs`) are near-sdk's and
    near-contract-standards', behind contracts that are stated and not proved.
  - `deploy_cli/` is the guided tool: options, questions, amounts, the course of a deployment, the
    removal of keys, reports.
  - `deploy/` is the tool with typed arguments: configuration, credentials, nonces, transactions
    and their fates, the course of a deployment.
  - `arguments.rs` writes the calls with which both tools set controller and token up.
- `app/` is what surrounds it: the contract's entry points, the terminal, files and JSON-RPC.
- `tests/` runs the library on concrete values.
