# deno_parts

Parts of a JavaScript runtime, as a library whose behaviour is stated in
contracts and proved with Verus.

| module | what it is |
| --- | --- |
| `keys` | key objects: reading (PEM, PKCS#8, PKCS#1, SEC1, SPKI), writing, generating and describing RSA, RSASSA-PSS, DSA, EC, X25519, Ed25519, Diffie-Hellman and secret keys |
| `lsp` | the language server's side of the TypeScript compiler: requests, the state that the compiler asks for, answers turned into what the editor is sent, the order of requests, a session with an editor |
| `kv` | the key-value database: keys and values as they are stored, atomic writes step by step, reads, the schema |
| `http` | requests on their way to JavaScript, responses on their way back |
| `resources` | what JavaScript holds by number between calls |
| `transpile` | modules that are compiled for a snapshot, and the cache of what they were compiled to |
| `media_type`, `specifier`, `text`, `error`, `fs`, `js` | what the others share |

Every contract speaks of mathematical values: sequences, maps, and views of the
library's types. What the crates for cryptography, regular expressions, URLs and
TypeScript compute is called through small functions whose contracts are
believed; they stand in `keys/outside.rs`, `keys/ec.rs`, `lsp/patterns.rs`,
`lsp/session.rs`, `kv/js.rs`, `http.rs`, `media_type.rs`, `specifier.rs`,
`text.rs` and `transpile.rs`, each with what it claims of the call.

Properties that span several functions are proof functions whose names begin
with `law_`; that what is exported is read back the same is part of the
contracts of the functions that export.

`app/` holds what touches files, sockets, databases, threads and the compiler
isolate. `tests/` runs the library against the real crates.
