//! The server-rendered dashboard: the page's HTML and the headers of its
//! content-hashed assets.
pub mod assets;
pub mod components;
pub mod layouts;
pub mod markup;
pub mod pages;
