//! A verified core for a sports-playbook document: named formations, routes,
//! categories and plays, the play/category relation, and an edit-session
//! controller with an independent draft play.

pub mod bridge;
pub mod category;
pub mod color;
pub mod controller;
pub mod default_playbook;
pub mod error;
pub mod formation;
pub mod motion;
pub mod movement;
pub mod names;
pub mod path;
pub mod play;
pub mod playbook;
pub mod player;
pub mod point;
pub mod relation;
pub mod role;
pub mod route;
pub mod store;
pub mod updater;

pub use category::PBCCategory;
pub use color::PBCColor;
pub use controller::PBCController;
pub use error::PbcError;
pub use formation::PBCFormation;
pub use motion::PBCMotion;
pub use movement::PBCAbstractMovement;
pub use names::{CategoryName, FormationName, PlayName, RouteName};
pub use path::PBCPath;
pub use play::PBCPlay;
pub use playbook::PBCPlaybook;
pub use player::PBCPlayer;
pub use point::Point2D;
pub use role::PBCRole;
pub use route::PBCRoute;
pub use updater::UpdateCheckingStatus;
