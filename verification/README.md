# nmsr_player_parts

The player-part logic of a Minecraft skin renderer, verified with Verus.

`src/` is the verified library:

- `types`, `model`: body parts, their outer layers, texture kinds, armor slots.
- `uv`, `texture_transform`: texture corners of faces, flips, quarter turns and
  the box layout of skin cubes.
- `minecraft`: the vanilla body, its layers, cape, deadmau5 ears and armor.
- `ears`, `ears_providers`, `ears_layout`: the Ears mod features, which of them
  a body part gets, and the builder instructions that lay them out (proved to
  keep the builder's stacks balanced and, for Ears-sized snouts, to cut every
  quad from inside the skin).
- `tracking`: the texture and group stacks of the part builder.
- `textures`, `mesh`, `graphics`, `scene`: integer bookkeeping of the renderer:
  padded output rows, merged mesh indices, the choice of anti-aliasing, what a
  resize rebuilds and how parts are batched into render passes.

`app/` places the parts in space with floating-point transforms and draws them
with wgpu; it calls the library for every decision it makes.
