# geltui

A terminal browser for a Jellyfin server: walk the libraries, read an item's
details, mark items watched or favorite, and play movies and episodes (or a
shuffled run of a show) in mpv.

## Layout

- `src/` is the library, verified with Verus:
  - `config.rs`: the settings and their validation;
  - `jellyfin.rs`: media items, the session, request addresses and queries,
    the sign-in rules;
  - `state.rs`: the browser views and the navigation stack;
  - `style.rs`, `theme.rs`: colors, styles, color parsing and the theme;
  - `text.rs`: the string helpers the rest is built on;
  - `ui/`: what each pane shows (breadcrumb, list, details, footer, menus)
    as styled text, and the screen layout;
  - `app.rs`: the controller, a state machine from terminal events and
    server answers to the next request.
- `app/` is the program around it: reading `config.toml`, HTTP, the
  terminal, and starting mpv.
- `tests/` runs the library on concrete values.

## Configuration

`$GELTUI_CONFIG`, or `config.toml` under the user's configuration directory
in `geltui/`:

```toml
server_url = "https://jellyfin.example"
api_key = "..."            # or username and password
# user_id = "..."

[general]
autoplay_next = false
mouse = true

[mpv]
# bin = "mpv"
args = ["--fs"]
ontop = false

[theme]
accent = "cyan"            # a color name, "bright <name>" or "#rrggbb"
terminal_colors = false
```
