# desktop_cat

The behaviour of a small cat that lives on the desktop, verified with Verus.

- `src/ai.rs`: the brain. Rolled event numbers pick the animation (idle,
  falling asleep, sleeping, waking up, walking left or right) and its frame
  delay; walking cats roam and turn at the edges of their area.
- `src/intro.rs`: the opening scene (walk out left, reappear on the right,
  walk back in) as a phase machine.
- `src/roll.rs`: the random roll of the next event number.
- `src/ket.rs`: the cat as a whole. Its type invariant keeps the frame on
  screen inside the animation on screen and keeps animations following each
  other along the allowed graph.
- `src/desktop.rs`: the work-area size, with its 1920 x 1080 fallback.
- `app/`: the window, the images, floating-point positions, the Windows
  display queries and the resource monitor.
