# sip_edge

The signalling decisions of a SIP edge (B2BUA) for a VoIP softswitch, written
in Verus: every function in `src/` carries a contract and is proved.

Layout:

- `src/text.rs` — sequence and string helpers, and the few std string calls
  the library trusts.
- `src/sip.rs` — requests, methods, header maps and URIs.
- `src/outbound.rs` — the requests the edge builds on each leg (INVITE,
  in-dialog requests, OPTIONS probes, PRACK, REFER NOTIFYs, caller identity
  headers).
- `src/handlers.rs`, `src/register.rs`, `src/invite.rs`, `src/in_dialog.rs`,
  `src/refer.rs`, `src/subscribe.rs` — what each kind of request decides.
- `src/admission.rs`, `src/command_flow.rs`, `src/message.rs`, and the step
  functions in `src/in_dialog.rs` and `src/refer.rs` — the request handlers as
  step functions: state and answer in, next state and action out.
- `src/commands.rs`, `src/vci.rs` — call control from the command channel and
  from the control webhook.
- `src/voice.rs` — voice engine settings.
- `src/ivr/` — IVR menus and the node-graph IVR engine with its executors.
- `tests/` — tests run against the compiled library.
- `app/` — the unverified shell: JSON wire formats, HTTP calls, the
  environment, files, and the loops that drive the library (`app/sip.rs` runs
  the SIP handlers against a host that owns sockets and stores).
