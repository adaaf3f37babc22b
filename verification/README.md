# vault-provider

Secrets kept in a HashiCorp Vault or OpenBao server, with the KV engine (version 1
or 2). The library decides what a provider URI configures, where a secret is
stored, how a token is obtained, what is sent, and what each reply means. It is
verified with Verus, and does no input or output of its own.

- `config`, `provider_url`: from a URI and the environment to a configuration.
- `provider`: paths, URLs, headers and documents.
- `step`, `session`: reading and writing a secret as a sequence of steps. A step
  names the one thing that is to be done next; the answer is handed back to the
  provider, which gives the next step.
- `run`: the result that the steps of a whole session lead to, with the proof that
  they do.
- `laws`: what holds of the provider as a whole.
- `json`, `http`, `secret` and `provider_url`: the few functions of `serde_json`,
  `reqwest`, `secrecy` and `url` that the library rests on, with what is taken for
  granted of each.
- `text`, `error`: small helpers.

`app/` is a client around the library. It reads variables and files and sends
requests with `reqwest`. It also finds the token file in the home directory: it
falls back from `HOME` to `USERPROFILE` and joins the directory with the name of
the file, since a path need not be Unicode.
