# satspath

A verified library for resolving human-readable identifiers (such as
`alice@example.com`) to signed Bitcoin payment profiles, written in Verus.

- `src/` is the library. Every function carries a `requires`/`ensures`
  contract that Verus proves; calls into `secp256k1`, `sha2`, `hex`,
  `base64`, `url`, `bitcoin`, `chrono` and `uuid` go through small trusted
  wrappers whose doc comments say what is assumed of them.
  - `privacy`, `validation`, `crypto`, `profile`, `codec`: identifiers,
    public-data checks, signatures and payment URIs.
  - `registry`, `resolver`, `rotation`, `invite`, `ark`: the profile
    registry, the resolver chain, identity-key rotation, invites and Ark
    ownership proofs.
  - `transparency`: the append-only name log, Merkle inclusion and
    consistency proofs, identifier histories and signed checkpoints.
  - `cli`, `ffi`, `escrow`: what the command-line tool and the foreign
    bindings compute, and the escrow service's messages.
- `tests/` exercises the library with the real outside crates linked.
- `app/` is the `satspath` command-line tool: argument parsing, files under
  `.satspath/`, JSON, HTTP and QR output around the library.

What the library takes on trust from its caller:

- The transparency checks of an identifier's history (`transparency::history`)
  take each event's hash, its signing message and the verdict on a rotation's
  dual proof as evidence supplied by the caller; the library checks how the
  events chain, who signed them and that the evidence is consistent, but it
  does not compute those three values itself.
- Resolvers are the caller's: the resolver chain is proved to ask them in
  order for the requested alias and to act on their answers as stated, and
  what a resolver answers is whatever its own `answered` relation admits.
- Payment routing (choosing and invoking a rail for a quote or a payment) is
  not part of this crate; the tool checks a resolved profile's signature and
  reports the result when it shows the profile.
