# galaxy_map

The logic of a small Bevy galaxy map, verified with Verus.

- `src/camera.rs`: the once-a-second update counter, the camera's drag flag, and the plan of
  one frame of camera input (keyboard direction, mouse panning, wheel zoom steps).
- `src/map/`: the star catalogue, the graph of links between stars and which links are
  highlighted, the click-and-drag selection of stars with the info menu that follows the
  selected star, node and link colours, and the text of
  a star's info menu (with digit grouping of populations).
- `app/`: the Bevy systems. They read the engine's state, call the library, and carry out
  what it returns; all floating-point work (positions, distances, zoom factors) stays there.
