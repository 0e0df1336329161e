# refraction

Front end and editor logic for PrSM, a Unity-first scripting language, written in Verus:
each function states in its contract what it computes, and Verus proves it.

## Layout

- `src/lexical.rs`: the lexical grammar as spec functions (`spec_lex`): the tokens of a
  source text, with their spans, as a function of its characters.
- `src/lexer.rs`: the lexer; `tokenize_source` gives exactly `spec_lex` of its input.
- `src/token.rs`, `src/ast.rs`: tokens, keywords and the syntax tree.
- `src/parser.rs` and `src/parser/`: the recursive-descent parser. Every method keeps the
  token stream and the diagnostics already reported. Stated exactly over spec grammars: the
  `using` section of a file; components with member lists, empty classes, plain enums; member lists
  of plain fields and lookups, with stray lines reported and skipped to the next line;
  arithmetic with precedence; member chains and calls with literal arguments; plain,
  qualified, generic, tuple and function types; the diagnostics of a file that reads cleanly
  (none), of a second declaration (E189) and of a missing declaration.
- `src/project.rs`, `src/project_graph.rs`: project files, source selection, language
  versions and features, watch roots, and the Unity package capabilities read from the text
  of the package manifest.
- `src/lsp.rs` and `src/lsp/`: language-server logic: completion, hover text, symbols,
  rename edits, organize-usings and explicit-type-argument code actions.
- `src/text.rs`: string helpers with their contracts.
- `app/`: the command-line program and the language-server loop (file and network I/O,
  argument handling, JSON), around the library.
- `tests/`: the test suite.
