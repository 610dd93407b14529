# Octizys

The front end of Octizys, a small functional language, written in Verus.
The functions of the library carry contracts that Verus proves, except two
trusted wrappers in `src/matching.rs` (the calls into the `regex` crate and
std's `char::to_string`), whose contracts are believed.

## Layout

- `src/` — the verified library.
  - `span`, `text`: positions, spans and their union; text helpers
    (splitting, UTF-8 widths, decimal numbers).
  - `store`: the interner of identifiers and the store of comment lines.
  - `matching`: the Unicode classes of chars, through the `regex` crate.
  - `identifier`, `logic_path`, `module_logic_path`: names and paths,
    checked as they are built.
  - `cst`: the concrete syntax tree, which keeps every comment with the
    token it belongs to.
  - `parser`: the scanner (one lexeme at a time, each rule stated as a
    spec function), the lexer that attaches comments to tokens, the
    conversion of tokens, and the reports the lexer gives.
  - `generic_tree`: trees with any number of children, and where two of
    them first differ.
  - `equivalence`: comparing values and syntax trees without places,
    comments or what identifiers stand for.
  - `report`, `configuration`, `arguments`: reports (their whole text,
    with the piece of the source they point at and what was expected
    there), settings and the options of the command line, as plain values.
- `tests/` — tests of the library, run against the compiled crate.
- `app/` — the command line program: argument parsing with `clap`,
  logging with `simplelog`, reading files and lines, printing tokens and
  reports.

## Main properties

- The lexer never moves back, keeps its position consistent with the
  source, and hands every comment of the source to a token, in source
  order, until it reports a problem; `lex_all` runs it to the end, and
  its tokens then carry every comment of the source.
- Compacting comments merges each run of one kind into one block, keeps
  every line in order, and leaves no two neighbouring blocks of one kind.
- Span union is commutative, associative and idempotent, and covers both
  spans.
- Interning a text twice changes nothing and gives the same symbol.
- A tree does not differ from itself, and two trees differ in one order
  exactly when they differ in the other.
