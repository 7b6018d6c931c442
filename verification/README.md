# tldhax

A library that assesses proposed domain registrations against a pinned
namespace catalog and explicitly sourced registry policy, with every decision
stated as a contract and proved.

An assessment answers whether a registration is statically `plausible`,
`conditional`, `impossible` or `indeterminate`. A delegated root or a Public
Suffix List entry is never treated as proof that public registration is open:
without a researched registration product, offering and access stay unknown.

## Layout

- `src/types.rs` — the public value types (claims, verdicts, assessments).
- `src/evaluator.rs` — the verdict as a function of the decision axes.
- `src/checker.rs` — DNS label and domain syntax over bytes.
- `src/normalize.rs` — trimming, IDNA conversion (through the `idna` crate)
  and ASCII lowercasing.
- `src/text.rs`, `src/lookup.rs` — label models of dotted names and
  first-match table lookups.
- `src/topology.rs` — Public Suffix List resolution (exact, wildcard,
  exception rules).
- `src/selection.rs` — registration-product selection and the registrable
  domain above a product suffix.
- `src/namespace.rs` — root state and special-use namespace facts.
- `src/eligibility.rs`, `src/requirement_set.rs` — three-valued eligibility
  evaluation over caller facts kept in a sorted, duplicate-free set.
- `src/label_policy.rs` — registry label-policy evaluation.
- `src/findings.rs`, `src/evidence.rs` — findings and aggregate evidence.
- `src/coverage.rs` — catalog statistics.
- `src/registry.rs` — the `Registry` API and the specification of a whole
  assessment; `src/laws.rs` — properties of assessments across inputs.
- `src/catalog.rs` — the pinned catalog data, a small sample (see below).
- `src/names.rs` — stable lowercase names of the enumerations.
- `app/lib.rs` — Python bindings (PyO3) over the library.

## The pinned catalog is a sample

`Catalog::pinned()` holds 20 roots, 16 exact, 1 wildcard and 1 exception PSL
rule, 13 special-use names and 7 registration products, not the full IANA
root list, Public Suffix List or product research. Absence from the root list
is read as verified absence, so a real root outside the sample, such as `fr`,
gets a verified `absent` root state and an `impossible` verdict here. The
contracts are proved for every catalog (`Registry` exposes its `catalog`), so a
registry built over complete data answers from that data.
