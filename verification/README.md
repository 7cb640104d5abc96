# sns_testing

The decisions of the SNS testing tool, verified with Verus.

- `src/` is the library. The long-running procedures (completing an SNS swap, upvoting an
  SNS proposal, waiting for NNS and SNS proposals to execute) are state machines: each step
  takes the outcome of the last canister call and names the next call to make. The library
  also locates SNSes by name, builds the developer neuron and the upgrade proposal the
  scenarios submit, and decides how the wasm-memory fault handler treats a faulting address.
- `app/` is the command-line program around it: argument parsing, the agents that make the
  canister calls, the loops that run the state machines, and the signal handler itself.
- `tests/` exercise the library on concrete values.
