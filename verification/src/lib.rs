//! Game rules of a first-person aim trainer, kept apart from the engine that
//! renders them: the per-frame decisions of the player controller, where a
//! shot target reappears, how long a rocket blast lives, the bloom switch and
//! the arrow-key steering of the test sphere.
pub mod blast;
pub mod controls;
pub mod sphere;
pub mod targets;
pub mod view;
