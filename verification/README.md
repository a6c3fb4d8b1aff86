# clomonitor-core (verified subset)

The checks of the CLOMonitor linter that read an AFDocs report, the bridge
from OpenSSF Scorecard checks to check outputs, and the output record every
check produces, written in Verus with their contracts proved.

- `src/check.rs`: `CheckOutput`, its constructors and setters, and the outputs
  graded from a Scorecard check and from an AFDocs category.
- `src/afdocs.rs`: the AFDocs report and `get_category`.
- `src/checks.rs`: check sets and `afdocs_required`.
- `src/authentication.rs`: the authentication check.
- `src/run.rs`, `src/input.rs`: the decisions around running a check.
- `src/text.rs`: string building with exact contracts.
- `src/laws.rs`: properties proved over all inputs.
- `app/lib.rs`: serde forms, the afdocs command and the tool lookup.
