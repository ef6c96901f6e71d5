# geoviewer

The GeoKernel viewer samples: small map programs that load layers, style
and label them, edit features, route over a road network, query cloud and
GeoParquet sources, and run AI inference over rasters.

`src/` is the verified library, checked by Verus. It holds what the samples
decide and compute: which control does what, the state of each panel, the
texts shown in the status bar and the log, the checks made before a layer is
added, the routing graph's topology and the route read back from a search,
the tile presets and their cache folders, the ordering of sample files, the
decoding of hex and base64 geometry columns, and more. Each public function
states its result in its contract; the `lemma_` proof functions state what
holds across calls.

`app/` is the program around the library: it opens the viewer windows
through the `geokernel` SDK, reads and writes files, parses JSON with
`serde_json`, and keeps the real-valued map arithmetic (coordinates,
extents, distances), handing the library plain values. The first argument
names the sample to open.

`tests/` runs the library on concrete values.
