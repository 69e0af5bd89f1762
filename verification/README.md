# mihomo-tui

A terminal workspace for a running mihomo (Clash.Meta) kernel: proxy groups
and latency tests, connections, rules, logs, providers, the running config and
kernel versions, driven through mihomo's external-controller API.

## Layout

- `src/` is the library, verified with Verus. It holds the application state
  and every decision the program makes: what each key and click does, which
  data a refresh fetches and how the answers change the state, the text each
  panel shows (filtering, sorting, scrolling, truncation to a display width),
  the configuration overlay of file and command line, API paths, subscription
  parsing (YAML and base64 URI lists), the subscription store, config file
  validation, and the choice of kernel release assets and archive entries.
- `app/` is the program around it: the command line, the terminal and its
  event loop, HTTP and WebSocket transport, JSON and YAML (de)serialisation,
  files and processes, and drawing with ratatui.
- `tests/` exercises the library through its public interface.

## Display widths

`truncate_str` measures text character by character, with each
character's own display width. When a string is wider than `max_width`
columns, it keeps the longest prefix whose characters fit in
`max_width - 1` columns, so that the ellipsis takes the last one. A wide
character that does not fit is cut together with what follows it, so
`truncate_str("hello你好", 8)` is `"hello你…"` (the whole string is nine
columns wide) and `truncate_str("hello你好", 5)` is `"hell…"`. Sequences
that a terminal draws wider than their characters add up to (an emoji
with a presentation selector) can make the result wider than counted.
