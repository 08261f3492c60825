# turbosheet

The decision logic of a browser-testing toolkit, verified with Verus.

- `src/` is the library. Every function in it is verified against its
  `requires`/`ensures` contract; the laws the library keeps are public proof
  functions named `law_*`. Outside crates (`regex`, `glob`, `http`, `uuid`,
  `num_cpus`, `serde_json`, `base64`) are reached only through small trusted wrappers
  whose doc comments say what is assumed of them.
  - `assertions`: retry and back-off decisions, matcher verdicts and messages.
  - `reporters`: result aggregation and the dot, line, list, GitHub, JUnit
    and HTML outputs.
  - `migrate`: the rewrite rules from Cypress, Playwright and Puppeteer,
    and their API mapping tables and to-dos.
  - `edge`: the job queue of the edge orchestrator, its wire protocol,
    runtime detection and latency routing.
  - `engine`: key codes, page scripts, cookie matching, BiDi message kinds,
    waiters and event batching.
  - `encoding`: base64 screenshots, request bodies and fulfilment bodies.
  - `network`: URL patterns, route decisions, CONNECT targets, event JSON
    and listener registries.
  - `component`, `injection`, `locator`, `plugin`, `binary_manager`,
    `events`, `keyed`, `text`: component mounting, script injection and
    bindings, locator scripts, plugin registry and discovery, driver
    downloads, the URL cache, a verified string-keyed map, and text helpers.
- `tests/` runs the library on concrete values.
- `app/` is the unverified shell around it: clocks and sleeps, files,
  downloads, channels, serialisation, and the floating-point device table.
