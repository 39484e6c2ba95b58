pub mod adnum;
pub mod node;
pub mod sweep;
pub mod tape;

pub use adnum::ADNum;
pub use node::ADNode;
pub use sweep::Step;
pub use tape::Tape;
pub mod laws;
