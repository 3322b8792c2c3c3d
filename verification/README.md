# soccer

The decision logic of a two-team soccer simulation, verified with Verus.

- `src/` is the library. Each state of a team, a field player or a goal
  keeper is a function that takes what the player sees of the pitch as plain
  values (whether the ball is in range, whether a pass is safe, who is
  closest) and decides the next state, the messages to send and the roles
  the players hold. The library also holds the state machine that drives
  them, the dispatcher that delivers messages, the kick cooldown, the score,
  and how the pitch is cut into regions.
- `app/` is a headless Bevy program around the library: the physics, the
  steering behaviors and the geometry of passes and shots, all in floating
  point, and the systems that feed the library's decisions.
- `tests/` exercise the library on concrete values.
