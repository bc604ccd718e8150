# predict-agent

A command-line agent for AWP Predict WorkNet: it reads the coordinator's
markets, asks a language model (through the `openclaw` runner) for a
prediction, signs and submits it, and keeps a background loop going.

The decision logic is a Verus library in `src/`.  Its functions are
verified against their `requires`/`ensures` contracts, except the few
trusted wrappers (marked `#[verifier::external_body]`) that call the hex,
SHA-256, Keccak-256, secp256k1, JSON-parsing, date and case-mapping code of
std and the outside crates; their contracts are taken on trust:

| module       | what it decides |
|--------------|-----------------|
| `text`       | character-level string work: search, trimming, truncation, decimal numbers |
| `json`       | a plain-value model of JSON documents and lookups in them |
| `crypto`     | hex, SHA-256, Keccak-256 and secp256k1, through the outside crates |
| `auth`       | the EIP-191 request message, key signing, wallet-tool arguments and answers |
| `client`     | request URLs, the signed path, reading responses |
| `output`     | the JSON object every command prints |
| `prediction` | checking, canonicalising and reporting a submission |
| `commands`   | the account commands (cancel, challenge, orders, result, persona, status, history) |
| `context`    | which markets are open to a prediction, and in which order |
| `worker`     | the loop's pacing and each round's decisions |
| `prompt`     | the state-dependent sections of the model prompt |
| `llm`        | finding and reading the model's decision |
| `tools`      | where `awp-wallet` and `openclaw` are looked for, and how they are driven |
| `register`   | registration on the AWP network through the gasless relay |
| `wallet`     | wallet safety: when `awp-wallet init` may be suggested |

`app/` is the program around it: argument parsing, HTTP, subprocesses,
environment variables, sleeping, and the floating-point figures of the prompt
and of a few outputs.  `tests/` exercises the library on concrete values.
