# deepseek_v4

Loading of DeepSeek-V4 checkpoints, with the decisions proved in Verus.

- `src/` is the library. `parse` and `config` turn a `config.json` into a model
  configuration. `weight_loader`, `load_layers`, `attention` and `assemble`
  decide which tensors are loaded, in which order, and what each layer is built
  from. They hold a conversation with a runtime, in the terms of `request`:
  a run names its next request, and takes the outcome to its next state.
  `provenance` states what every such conversation comes to: each weight of each
  layer is what the runtime answered when asked for it under its name.
- `json` holds the calls into `serde_json`, with what is assumed of them.
- `app/` performs the requests on a runtime, and decodes the configuration with
  serde. Floating point stays there; the library passes on integers and bits.
- `tests/` runs the library.
