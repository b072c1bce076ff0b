# game_renderer

The decision logic of a small wgpu game renderer, verified with Verus.

- `src/options.rs`: the command-line options (`debug`, `vsync`, `screenmode`)
  and the presentation mode that the vsync setting selects.
- `src/events.rs`: the action for each event of the window loop, and what
  follows a frame that could not be presented.
- `src/surface.rs`: the window size and swap chain size that the renderer
  keeps in step.
- `src/render_plan.rs`: the bind, buffer and draw commands of one render pass.
- `src/component.rs`: the interface of entity components.
- `src/text.rs`: string equality used to read option values.

`app/` is the program around it: argument parsing with clap, logging with
log4rs, the window with winit, the GPU work with wgpu, and the floating-point
camera and material code.
