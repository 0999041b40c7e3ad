# solverforge_bindings

The language-binding layer of the SolverForge constraint solver, with its
logic verified by Verus.

Python programs describe planning problems with decorated classes and
constraint streams whose filters and joiners are lambdas; the library turns
those lambdas (their syntax trees, or their bytecode when the source is not
available) into expression trees, builds the constraint and domain
descriptions, and provides the score types. Go programs reach the solver
through a handle registry and a bridge that calls back into Go.

## Layout

- `src/` — the verified library.
  - `pyast`, `classes`, `bytecode`: plain models of Python syntax trees, of
    the domain classes the analyzer consults, and of disassembled bytecode.
  - `expr`, `types`, `infer`: expression trees, inferred types, parameter
    substitution.
  - `analyzer` (specifications) and `convert` (code): the conversion of
    lambda and method bodies into expressions, with method and property
    inlining, local-variable substitution, conditionals, early returns,
    accumulation loops and sequential patterns.
  - `lambda`: lambda extraction from a source line, analysis entry points,
    unique lambda names.
  - `stream`, `score`, `annotations`, `domain`, `provider`: constraint
    streams and joiners, scores, annotation markers, domain classes and
    models, constraint providers.
  - `registry`, `bridge`, `ffi`: the handle registry, the decisions of the
    Go bridge, and the codes used across the C boundary.
- `tests/` — tests of the library.
- `app/` — the Python extension module (pyo3) and the C interface for Go:
  reading live Python objects into the library's models, process-wide state,
  JSON, and raw pointers.
