# tokio-file-watch

Watching a JSON file and reloading it when it changes.

- `src/` is the verified library: what to do when a file or its folder changes. It is told what
  happened and says what is to be done next.
- `app/` does the work with tokio, notify and serde, and offers it as async functions.
- `tests/` runs the library.

```rust
let config_watch: JsonWatch<Config> = json_watch("./config.json").await?;
```
