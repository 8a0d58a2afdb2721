# tao_ohos

The OpenHarmony backend logic of a windowing library, verified with Verus.

`src/` is the verified library:

- `keyboard`, `keycodes`: key types and the mapping of NDK key codes to
  logical keys, physical keys and key locations.
- `input`: held keys, held modifiers and focus, and the events each key,
  mouse, axis, touch and input-method event becomes.
- `event`, `want`: the events handed to the application, and the URL list of
  a relaunch request (parsed with the `url` crate).
- `event_loop`: the dispatch of every ability event, window rect tracking
  (move/resize split), the app-wide theme and exit.
- `window`: each window's state (system state mirror, decoration flags,
  size-constraint cache) and the bridge operations each window call sends.
- `monitor`: monitor handles over snapshots of the display list.

`app/` is the platform side: it reads the system's events, displays and
rects, converts logical to physical pixels, runs the loop and carries out
the window operations over the ArkTS bridge.

`tests/` exercises the library with concrete values.
