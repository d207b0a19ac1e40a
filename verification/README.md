# bigquery_backend

Google BigQuery backend binding for an MCP gateway (`kind: bigquery`), with its
logic verified by Verus. One binding is one operator-fixed SQL statement, run
over the REST `jobs.query` endpoint, and answers as a tool, a resource or a
prompt.

## Layout

- `src/` is the verified library. It decides and computes; it does no I/O.
  - `types`, `plugin`: the spec of a binding, its validation, the table of
    bindings.
  - `bigquery`, `table`: requests to `jobs.query`, and its rows as JSON documents
    typed by the result schema.
  - `envelope`, `surface`: the envelopes and bodies that a call answers with, and
    the classification of failures.
  - `call`, `params`, `execute`: a call as a machine. Each step takes what outside
    work brought and says what is to be done next.
  - `listing`: `resources/list` and completion.
  - `observe`: outcome labels and audit records.
  - `arguments`: the input schema of a binding.
  - `json`, `text`, `decimal`, `keyed`: documents, texts, numbers and name tables.
  - `outside`: the calls into `serde_json` and `base64`, with what is trusted of
    them.
- `tests/` are the library's tests.
- `app/` is ordinary Rust around the library: the driver, the gateway's plugin
  trait, the serde types of the configuration, and the one piece of floating
  point.

## Laws

Each law is a proof function named `law_..` beside what it speaks of. The main
ones: the SQL text never depends on the caller (`execute::law_statement_is_fixed`),
nothing is sent before the read-only guard has passed the statement that the
call runs (`execute::law_guarded_before_sent`; a dry-run resource binding with a
read statement plans its `statement` instead, which the guard passes at
registration unless it is blank), a dry-run binding runs nothing
(`execute::law_dry_run_runs_nothing`), an answer flags a failure exactly where
the call failed (`execute::law_sent_answer_flags_failure`), a spec is registered
exactly where it is acceptable (`plugin::law_registered_iff_acceptable`), and
following the cursors lists every resource once
(`listing::law_pages_list_everything`).
