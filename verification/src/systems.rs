//! The systems that implement the rules and procedures of the game.
//!
//! Each struct in this module is one system. A system takes the
//! components, entities and resources it declares, and performs one pass
//! over them; the scheduler in [`crate::bundle`] runs the systems in
//! dependency order once per fixed tick.

pub mod asteroid;
pub mod collision;
pub mod laser;
pub mod laser_collision;
pub mod lives;
pub mod ship;
pub mod ship_collision;

pub use self::asteroid::AsteroidSystem;
pub use self::collision::CollisionSystem;
pub use self::laser::LaserSystem;
pub use self::laser_collision::LaserCollisionSystem;
pub use self::lives::LivesSystem;
pub use self::ship::ShipSystem;
pub use self::ship_collision::ShipCollisionSystem;
