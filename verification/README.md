# rust_boids

A flocking simulation ("boids") whose decisions are verified with Verus.

- `src/` is the verified library: the probe fan and wall scan that decide when
  a boid turns away from a wall (`steering`), the choice of the neighbours a boid
  follows and of when it follows them (`flock`), the frame's time step
  (`motion`), and the named boid worlds with their double buffering (`world`).
- `app/` is the bevy program around it: rendering, input, and the floating-point
  vector arithmetic of the simulation.
