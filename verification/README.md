# stmt_journal

Decides, for a SQL INSERT, UPDATE or DELETE inside an explicit transaction,
whether it needs a statement journal: the savepoint that lets a statement fail
half way without taking the transaction with it. A journal is needed when the
statement may write more than one row or table and may abort.

- `src/stmt_journal.rs`: the analysis, one function per kind of statement
- `src/laws.rs`: what holds of it for all statements
- `src/ast.rs`, `src/schema.rs`, `src/resolver.rs`, `src/plan.rs`: the facts it reads
- `src/program.rs`: the two flags it settles
- `tests/`: statements and what they need
