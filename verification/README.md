# rift

Deep links for humans and agents: the decisions of the Rift link server,
written in Verus and proved against their contracts.

## Layout

- `src/` — the verified library.
  - `text`, `num`, `weburl` — string, number and URL building blocks.
  - `validation`, `email`, `config`, `platform`, `origin` — input checks,
    email chrome, configuration from the environment, OS and client-IP
    detection, the CORS origin matcher.
  - `public_id` — typed, prefixed identifiers over 12-byte storage ids.
  - `links` — link ids, status, resolvability, redirect targets, the choice
    of answer to a resolve request, custom-domain routing.
  - `palette`, `brand`, `themes`, `landing`, `escape`, `render`, `jsonld`,
    `smart_landing` — colours, stored themes and their updates, the
    effective theme of a landing page, escaping, the two landing pages and
    their JSON-LD.
  - `qr` — options of the styled QR endpoint.
  - `webhooks`, `events`, `error`, `mcp` — webhook subscriptions, event
    payloads, the error envelope, the MCP tool shapes.
  - `migrations`, `architecture`, `threat`, `cdp` — the migration registry
    and per-record decisions, the source-layout scanners, the threat feeds,
    the facilitator path.
- `tests/` — tests of the library against concrete values.
- `app/` — the server around the library: command line, environment, HTTP
  layers, feed fetching, and the floating-point palette and rate limiter.
