# otter_sema

Semantic analysis for the Otter language, verified with Verus. The library takes
parsed modules and produces either diagnostics or a typed, resolved program.

## The pipeline

| Pass | Module | What it does |
|---|---|---|
| Derives | `derive` | writes the methods that `@Derive(..)` asks for |
| Defaults | `defaults`, `subst`, `respan` | copies interface default methods into their implementers |
| Hoisting | `anf` | moves every `await` to where the state machine can suspend |
| Collection | `symbols`, `resolve_ctx` | builds the definition table and resolves imports |
| Lowering | `lower`, `ty`, `solve`, `show` | turns written types into interned ones; inference |
| Checking | `check`, `checker`, `hir`, `results` | bidirectional type checking into typed nodes |

`analysis` runs them in this order. `ast`, `list`, `names`, `words`, `span`, `session`,
`diag`, `ids` and `text` hold the data that the passes share; `dup` and `same` copy and
compare syntax trees.

## How it is specified

Syntax trees, types and definition tables are plain mathematical values. Each pass is
a spec function on those values, and the executable function ensures that it returns
exactly that. The checker's state has a mathematical counterpart, `check::Ck`; a method
of the executable state `check::Cx` ensures the state and the answer that the spec
function of its name gives, and that the type table, the diagnostics and the node table
only grow.

Properties of whole passes are public proof functions whose names start with `law_`.
They stand beside the functions they speak of, and in `spans`, `derive_order`,
`derive_spans`, `suspend`, `again`, `order` and `check::laws`.

## Tests

`tests/check.rs` holds a small front end and runs programs through the pipeline;
`tests/parts.rs` exercises the parts on their own.
