# tauri-plugin-bare-kit

A Tauri plugin that runs [Bare](https://github.com/holepunchto/bare) JavaScript
worklets through BareKit, with a core whose behaviour is proved with Verus.

- `src/` is the verified core. It holds every decision the plugin makes, as
  functions from plain values to plain values: the life cycle of a worklet
  (`worklet`), the table of worklets and the plugin's requests (`plugin`,
  `commands`, `models`), the buffered IPC channel (`ipc`), poll events and IPC
  status codes (`events`), request payloads and their base64 form (`payload`),
  the scripts evaluated in the webview (`script`, `decimal`), error messages
  (`error`) and the naming rules and link plan of build-time addon linking
  (`autolink`).
  Each request answers with the native calls to make, in order.
- `app/` makes those calls: the BareKit C API, the Tauri commands and plugin
  builder, the webview callbacks, and the file and process work of addon
  linking.
- `tests/` exercises the core on concrete values.
