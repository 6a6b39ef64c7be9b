# notecli

A headless client for Misskey. The library in `src/` decides; its functions carry
contracts that Verus proves. Of what the machine alone decides, such as what the
credential store answers, nothing is claimed: functions beside those that ask
take the answer and say exactly what becomes of it. The program in `app/` does the input
and output around it: it sends the requests that the library writes, runs its
database statements, keeps the connections, and prints the lines it makes.

| Module | What it holds |
|--------|---------------|
| `api` | the requests to a server, and what is made of its answers |
| `db` | the statements for the SQLite database, and how rows are read |
| `streaming` | subscriptions, messages, reconnection, polling, events |
| `http_server` | who may ask the local server for what |
| `commands`, `cli` | what a command asks for and reports |
| `format`, `emoji`, `theme` | the lines that are shown, and their colours |
| `keychain`, `credentials` | where tokens are kept, and which one is used |
| `error` | the error type, and what of it a user may see |
| `json`, `table`, `text`, `models` | the data that the rest works on |

A function whose name begins with `law_` states something that holds of several
functions together, or of every state.

The functions marked `#[verifier::external_body]`, the `assume_specification`
items and the functions without a body are the ends of what is proved: each
names the function of another crate that it stands for, and says what is taken
of it without proof.

`tests/` runs the library on concrete values, with the real crates behind it.
