# SkyWatch

A situational-awareness dashboard that polls federal data feeds (NWS alerts,
USGS earthquakes) and FL Mesh node positions, stores them in SQLite, and serves
HTMX partials and JSON to a Leaflet map.

- `src/` is the verified library (Verus): severity labels, the per-feed
  normalization of upstream records, HTML rendering of the dashboard partials,
  the SQL text whose shape depends on its arguments, and the poll cycle that
  decides what each poller does next.
- `app/` is the program around it: HTTP fetching, JSON extraction, SQLite,
  the Axum server, the Tokio tasks that drive each poll cycle, and the
  floating-point work (coordinates, magnitudes).
- `tests/` exercises the library on concrete values.
