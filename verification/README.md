# tama

The core logic of a Markdown-native agent framework, verified with Verus.

`src/` is the library: frontmatter splitting, `${VAR}` templates, the shared
memory and its action log for rollback, model-role resolution, the decisions of each
agent pattern (react, scatter, parallel, debate, reflexion, plan-execute,
chain-of-verification, best-of-n, critic, constitutional), linting, project
scaffolds and the model list. Verus checks every function there against its
contract (a few small helpers state none); the laws of the library are
public proof functions (`law_*`).

`app/` is the `tama` command line around it: reading files, calling the
LLM providers through `genai`, running tools that do input or output, and
recording traces in DuckDB.

`tests/` exercise the library on concrete values.
