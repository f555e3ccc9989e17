# Cortex

Cortex is a data-driven Utility AI library for games and simulations, built on the
Bevy engine. AIs pick Actions (an ActionTemplate plus a Context) by scoring the
candidates that their SmartObjects offer with Considerations shaped by Utility Curves.

## Layout

- `src/` — the library proper, with contracts and proofs: Action lifecycle states and how
  batches of state changes are applied (the lifecycle never goes back), ActionTracker configuration and upkeep, AI
  levels of detail, the gates of the decision loop and the ActionSets an AI gathers,
  registries by key, identifiers, the Curve-key rules and the handling of unresolved
  Curve keys, the autorun heartbeat rule. ECS entities appear as their 64-bit identities.
- `app/` — the Bevy integration: Components, Resources, Events and Messages carrying
  the library's values, the Systems and Observers that run the library's rules, the
  numeric Utility Curves and the scoring of candidates (floating point), the ActionSet
  asset loaders (JSON, TOML, MessagePack, CBOR, Postcard), and the plugins.
- `tests/` — tests of the library on concrete values.
