# snp_attestation

The verified core of an AMD SEV-SNP attestation toolkit, written in Verus.

`src/` is the library; every function in it carries a contract that Verus proves:

- `stub`: the byte format of the verifier program's journal (encode, decode, and
  the laws that each undoes the other), the ABI-encoded verifier input, and the
  enums that the on-chain verifier numbers by byte.
- `snp`: the decisions of the SEV-SNP attestation flows: which key signed a
  report, where its certificates come from, which workflow verifies it, and how a
  host's certificate table is filed by kind.
- `config`, `cli`, `zkprover_cli`: prover configurations from environment
  settings and command-line arguments.
- `prover`, `onchain`, `contract`, `codec`, `polling`: Boundless request
  settings, on-chain proof bytes, the contract boundary, the guest codec, and
  block ranges for event polling.
- `bytes`, `text`: byte layouts of integers and the number parsing that the
  settings use.

A host's certificates are filed by kind in `snp::CertMap`, one optional slot
per certificate kind, under the same keys the kinds' names give (every "other"
certificate under the one key "OTHER"). A `HashMap` keyed by the kind's name
was not tried: with a `String` key Verus accepts the map's calls but proves
nothing of them, so the slots are what lets the contracts say which certificate
a lookup returns.

Calls into `alloy-primitives`, `alloy-sol-types`, `tiny-keccak` and `bincode`
stand behind small trusted wrappers whose contracts say what those crates do.

`app/` is the command-line program around the library: argument parsing, the
environment, files, the SEV guest device and threads. `tests/` runs the library
on concrete values.
