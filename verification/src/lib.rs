pub mod decay;
pub mod frame;
pub mod geometry;
pub mod graphics;
pub mod ingest;
pub mod key;
pub mod keyboard;
pub mod keystroke;
pub mod pose;
pub mod registry;
pub mod scheduler;
pub mod store;
pub mod theme;
