# corpus_gen

A generator of C test programs for an optimising compiler, written in Verus. Each case is a
whole translation unit whose `main` computes values and prints them; the printed text is
worked out while the program is built, so every case carries its own answer and needs no
reference compiler. Cases are keyed by named axes (type, shape, hint, ...).

## Layout

- `src/text.rs`: decimal text.
- `src/lang.rs`: the C integer types, their ranges and conversions, and C's arithmetic on them.
- `src/emit.rs`: `Program`, one translation unit being built, and `ident`.
- `src/facets/`: one file per group of facets. Each facet function returns its cases, and its
  contract fixes every line of every program and every value it prints. `draws.rs` works out
  the first draws of the stream generator that the dispatch facets rely on.
- `tests/`: the scenarios, run on the compiled library.

Every function carries a contract proved by Verus. The laws that relate several functions,
such as the arithmetic identities, the agreement of cases that differ only in a hint, or the
values a dispatch stream takes, are public proof functions next to the code they speak of.

## Tables handed in

Constant folding, strength reduction, the algebraic identities and width narrowing lay out
one program per type and operator (or shape) for whatever operands they are given: which
values of a type are worth trying, and which shift counts, is a table of the corpus that
this crate does not fix, so each `*_case` function takes the operands as a slice and its
contract says what it writes for every one of them. The pruning facet is the same with its
samples: `prune_start` begins a program, the caller writes the array of samples, and
`prune_finish` writes the walk and checks the counts that `tally` adds up over the same
samples. The option filter that picks facets on the command line, and the sink that
collected cases, are not here: each phase's `generate` returns its batches instead.
