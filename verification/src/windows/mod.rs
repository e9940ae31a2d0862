pub mod external_link;
pub mod proxy;
