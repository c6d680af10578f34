# core_service

The decision logic of the WireSentinel core service, written in Verus and
verified: domain caching, per-app exit-route failover, enforcement backend
mapping, anonymity and mixnet security policies, leak classification, privacy
scoring, the application registry caches, log rotation and retention, the
request gating of the local API, and the planning side of the cloud and
controller agents.

- `src/` is the verified library. Each public function states its result in
  its `ensures`; the public `law_*` proof functions state properties that span
  several calls (what a cache serves after a write, when entries expire, what a
  failover step advances, what releasing a connection slot restores).
- Calls into outside crates (`sha2`, `hex`, `md5`, `uuid`, `chrono`,
  `serde_json`) and a few std path operations stand behind small trusted
  wrappers whose doc comments say what their contracts claim.
- `app/` is the service binary: it reads the host (environment, files,
  processes), hands plain values to the library and performs the work the
  library plans.
- `tests/` runs the library on concrete values.
