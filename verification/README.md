# bevy_luna

Real-time raytraced shadow replacement for Bevy, without temporal history.

`src/` is the verified library: the decisions of the raytraced path, each with
a contract, and the laws that tie them together.

- `realtime/mod.rs`: settings, modes, quality and debug presets, managed-view
  updates, adapter capabilities.
- `realtime/lights.rs`: capture of authored light values and the render state
  of supported lights in each mode; the mode-switch laws.
- `realtime/selection.rs`: the per-view light selection (fixed slots with
  counts), the stable descending sort of punctual lights by score, and the
  score sort key.
- `realtime/node.rs`, `realtime/prepare.rs`: dispatch sizes, composite pass
  choice, output texture (re)creation.
- `scene/proxy.rs`: raytracing proxy meshes, the per-source proxy cache and
  the tagging step.

`app/` holds the Bevy plugins, components and systems that carry out those
decisions, the GPU passes, and the floating-point light packing.
