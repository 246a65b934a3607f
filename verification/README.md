# mihomo_tui

The verified core of a terminal dashboard for the mihomo proxy kernel, written
in Verus. Every function in `src/` carries a contract that Verus proves.

## Layout

- `src/` — the library, one module per concern:
  - configuration: `config`, `schema`, `config_text`, `runtime`, `snapshot`,
    `connections_setting`, `columns`, `columns_setting`, `sort`, `pairs`,
    `url_support`, `cli`;
  - views and their keys: `root`, `tabs`, `navigator`, `scroller`,
    `connections_view`, `column_layout`, `settings_dialog`, `source_ip_alias`,
    `proxies`, `providers`, `card_views`, `proxy_detail`, `proxy_setting`,
    `logs`, `dns`, `core_config`, `updates`, `terminate`, `filter`, `input`,
    `detail`;
  - text and labels: `text`, `highlight`, `shortcut`, `message`, `key`,
    `action`, `github`.
- `tests/` — tests on concrete values, run against the compiled library.
- `app/` — the program around the library: command line (clap), reading and
  writing the YAML configuration and its sidecar (serde, serde_yaml_ng), and
  the platform's directories.

The laws of the library are the public proof functions whose names start with
`law_`.
