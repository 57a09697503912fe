//! Client logic for a webcomic service: request addresses, the projection of
//! a service response onto a display model, its text and JSON renderings, the
//! file name under which a comic's image is stored, and the run's sequencing.

pub mod client;
pub mod decimal;
pub mod model;
pub mod persist;
pub mod render;

pub use client::{Action, Event, Stage, XkcdClient, BASE_URL};
pub use model::{Args, Comic, ComicError, ComicResponse, OutFormat};
