pub mod text;
pub mod paths;
pub mod profile;
pub mod container;
pub mod proto;
pub mod results;
pub mod sandbox;
pub mod worker;
