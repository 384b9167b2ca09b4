# xccute_decisions

The decision vocabulary of xccute, verified with Verus: what a process asks
before it acts (paths, observation tools, guide templates, context packs and
context requests), how runbooks tie a guide to a runtime plan and material
contract, and how runbook records and their journal keep what happened.

Layout:

- `src/` is the verified library. Every type carries a versioned,
  length-prefixed stable material, stated as a spec function; digests are the
  SHA-256 of that material, computed by `xccute_runtime::StableDigest`.
- `src/runtime_model.rs` holds, as plain values, the runtime values the
  decision logic builds (questions, requirements, guides, observation plans,
  connector calls, plan/material contracts) and the ones it only reads by
  identifier and digest (operation plans, manifests, contexts, receipts,
  traces).
- `app/` turns `xccute_runtime` values into those plain values and back.
- `tests/` runs the library against the real runtime crate.
