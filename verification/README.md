# fanwaave_desktop_core

Verified core of the Fanwaave desktop application.

- `src/parity_contract_v1.rs`: the cross-platform capability parity contract and its check.
- `src/config.rs`: admission of the parsed command line and of the resolved `api_base_url` binding.
- `src/env_map.rs`: the name-to-value map used for command-line overrides.
- `src/dnd.rs`, `src/native_dnd.rs`: the lifecycle events of the desktop drag-and-drop controller and its default drop policy.
- `app/`: the program, which runs the command-line parser, the configuration resolver and the ORES drag-and-drop crates around the library.
