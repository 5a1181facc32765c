# imap_mcp_lite

The core of a small, self-hosted service that exposes one IMAP mailbox over the
MCP Streamable HTTP transport, written in Rust and verified with Verus.

- `src/` is the verified library: bearer-token authentication, one-shot download
  tickets, the download endpoint, host lists, configuration.
- `app/` is the server around it: command line, sockets, Redis connections and
  JSON.
- `tests/` runs the library on concrete values.

## What is proved

- A request reaches the MCP transport exactly when the SHA-256 digest of the
  token it presents equals that of the configured one; every refusal is a 401
  that asks for a bearer token.
- A staged attachment is redeemed with the metadata and bytes it was staged
  with, once: in whatever order the commands of any number of stagings and
  requests reach Redis, exactly one request gets the ticket and all of its bytes,
  and every other one nothing.
- Every Redis command is a `SET` with a fifteen-minute expiry or a `GETDEL`, on
  a key under the configured prefix.
- The log records of a download do not depend on its token, and a served file is
  logged with the account that staged it.
- Every token that staging hands out is accepted by the download endpoint.
- The headers of a download are visible ASCII whatever the mail says, carry no
  path, and the extended file name decodes to the name exactly.
- Errors never show their detail to the client, and account listings do not
  depend on the password.
- The server starts only on a configuration with static authentication, a token
  of at least 32 bytes, credentials and a key prefix.

Calls into `http`, `redis`, `secrecy`, `sha2`, `subtle`, `url` and `uuid` stand
behind declarations whose contracts are believed, each documented where it
stands.
