# starship_core

The decision logic of a 2D top-down spaceship game, verified with Verus.

- `src/` — the verified library:
  - `energy` — reactor cells split across shields, weapons and engines (1/2/3 keys).
  - `weapon_power` — weapon cells handed to turrets in slot-index order.
  - `firing` — missile and primary firing decisions, ammunition.
  - `targets` — shooter targets, target inheritance, the player's lock.
  - `picking` — the nearest hit among candidates (bullets, rays, cursor).
  - `controls` — pause, game speed steps, auto-fire, mouse buttons, movement keys.
  - `weapon_panel` — turret enable switches, switch state, ammunition readout.
  - `display` — HUD texts, targeting rings, team tint, thruster levels.
  - `loadout` — the player ship's turrets and reactor.
- `tests/` — tests of the library on concrete values.
- `app/` — the Bevy systems around the library: input sampling, ECS reads
  and writes, UI construction, and the floating-point motion, damage,
  shields and visual effects.
