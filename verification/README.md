# Lursystem

A self-hosted channel for whistleblower reports, with the case handling behind
it, for Swedish employers under lag (2021:890).

`src/` is the verified core, written in Verus: every rule, every decision and
every page, with a contract that is proved. `app/` puts the core behind
`rustio-admin` and PostgreSQL. `tests/` runs the core on concrete values.

## The core

| Module | What it holds |
|---|---|
| `handlers::public` | The public form: what is accepted, and the token a reporter gets |
| `handlers::triage` | The queue of new reports, and the opening of a case |
| `handlers::cases` | The page of a case, and who sees it |
| `handlers::disclosure` | The disclosure of a reporter's identity |
| `handlers::audit` | The audit log: filters, statements, pages |
| `handlers::export` | The signed export of the audit trail |
| `models` | The tables: what a row holds, how it is read and written |
| `auth_helper` | Roles, gates and elevated sessions |
| `markup` | The fixed text of the pages |
| `statement` | The statements that read rows: their text, and what they ask for |
| `html`, `form`, `text`, `labels`, `time`, `encoding`, `reply`, `records` | What the handlers share |

A request that reads or writes more than once is a function from a state and an
event to the next state and an action. The program performs the action and
hands back the event; what holds of every run is proved of the function.

## What is proved of the whole

Proof functions whose names begin with `law_` state what holds across functions:
that an identity is shown only once its disclosure is on record, that a case is
opened once and only from intake, that links keep the filters of the log, that
an auditor's export holds no bodies, that rows are read back as they were
written, and so on. Laws on what a page lists assume that the database gives what
a statement asks for.

## What is taken on trust

The contracts of a few functions of other crates, each with the function it
stands for: the clock, and the formatting and reading of dates (`chrono`), base64
(`base64`), HMAC (`hmac`, `sha2`), random bytes (`rand`), forms, cookies and roles
(`rustio-admin`), and `String::push` of the standard library.
