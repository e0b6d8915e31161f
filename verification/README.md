# aim_trainer

The rules of a small first-person aim-training game, verified with Verus,
and the engine program around them.

- `src/` is the verified library: the player controller's per-frame
  decisions (`controls`), the fuse of a rocket blast on the engine's one-shot
  timer (`blast`), where a shot target reappears (`targets`), the bloom
  switch (`view`) and the arrow-key steering of the test sphere (`sphere`).
- `app/` is the game itself: the engine plugins, spawning of the world,
  physics ray casts, the pause menu, and the floating-point movement, mouse
  look and blast push that read the library's decisions.
