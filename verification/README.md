# tauri-plugin-video

Native video for Tauri windows, below a transparent web view. On Linux the
video comes from GStreamer, or from mpv for those who ask for it; on Windows it
is presented through WebView2 texture streams.

`src/` is the verified library. It holds what is decided: which engine
answers a request, which requests are turned away, what the engines are told
and in which order, what their answers mean, how tracks are listed and chosen,
what a report says, and how textures are pooled. Its functions take and give
plain values: calls to perform, and readings of what was observed.

`app/` is the plugin around it: it performs the calls on GTK, GStreamer, mpv,
WebView2 and Tauri, hands the outcomes back, and does the floating-point
arithmetic. Playback numbers cross the border as the bit patterns of doubles.

- `desktop::linux` routes requests to the engine in use.
- `desktop::linux_gstreamer` and `desktop::linux_mpv` hold one engine each, with
  its open player in `session` and what holds of it as a whole in `laws`.
- `desktop::linux_surface` places the video below the web view.
- `desktop::windows` routes requests on Windows and pools textures.
- `double`, `text`, `ordered`, `tracks`, `meter` and `latch` serve all of them.
