# airplane

A GPU slime mold (Physarum) simulation in Rust, wgpu and Verus.

What runs on the GPU is decided on the CPU, and that part is verified. The
library in `src/` hands out plain values: the buffers, layouts, bind groups and
pipelines to create, the commands of each step and frame, and the reaction to
each window event. The program in `app/` owns the window and the GPU, and
carries them out.

| Module | What it holds |
|---|---|
| `dispatch` | cutting work into workgroups, in one dimension or two |
| `shader` | whether a WGSL file declares the entry points a pass needs |
| `single`, `wire`, `layout` | numbers by their bits, the bytes that are uploaded, where struct members lie |
| `params`, `camera`, `agent` | the data the shaders see |
| `resources`, `pipeline` | buffers, layouts, bind groups, pipelines |
| `gpu` | which adapter and which device are asked for |
| `sim` | setting up, seeding and stepping the simulation |
| `world` | what the recorded commands do to the buffers |
| `renderer` | what is drawn |
| `state` | the running program and its events |

The proof functions named `law_*` state what holds of the library as a whole:
every agent is dispatched exactly once, a step takes the live state one step
further whichever half it is in, a comment in a shader never matters, and so on.

Two outside crates are called from `src/`: `bytemuck`, for the bytes of a word,
and `wgpu`, for its sets of features. The contracts of those calls are trusted.
