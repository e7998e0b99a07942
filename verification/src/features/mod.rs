pub mod votes;
pub mod windows;
pub mod procedure;
pub mod domains;
pub mod senator;
pub mod materialize;
