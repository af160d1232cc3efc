# falcato

Verified front-end passes and code-generation decisions of the Falcato
compiler, written in Verus.

- `src/ast.rs`: the syntax tree and its mathematical model (`Spec*` types and
  `vista_*` view functions); every contract is stated over the model.
- `src/clonar.rs`: deep copies of syntax trees, proved equal to the original.
- `src/texto.rs`: decimal rendering and parsing of integers, text comparison
  and concatenation.
- `src/args_tipados.rs`: typed command-line arguments for `principal`: the
  rewriting that `preprocesar` applies, specified as a whole and proved
  idempotent.
- `src/codegen/`: what the code generator decides before emitting machine
  code: generic instantiation and substitution, the rewriting of methods,
  indexing and text concatenation into built-in calls, closure captures,
  printing plans and the splitting of interpolated texts, the layout of
  dictionary buckets and of small enum values, the overflow test of
  arithmetic that reports overflow (each test proved exact at 8, 16, 32 and
  64 bits), the cache of specializations, the emitter of each built-in call,
  the errors reported for an expression before it is compiled, and the plan
  of each function and call, including the variables that a call moves.
- `tests/`: the test suite, run against the compiled library.
- `app/`: what the verified library does not hold. `math.rs` has the
  floating-point polynomial emitters built on Cranelift. `emision.rs` keeps the
  largest emitters of machine code as they are, outside the module tree: they
  extend a code-generator state (the `Codegen` struct, its helpers, the
  `futuros` module, `cranelift_module`) that this snapshot lacks. The rest of
  the emitters, which write Cranelift instructions one by one, are in neither
  place; only what they decide is in `src/codegen/`.
