//! The core of a rendering backend for a tree of items: what is cached,
//! what is laid out where, and which commands a canvas is given, frame by
//! frame. The core draws nothing itself. It is handed measurements and
//! decoded images, decides, and hands back commands; lengths are integers
//! in units of a sixty-fourth of a pixel.

pub mod backend;
pub mod cached_image;
pub mod draw_image;
pub mod draw_pixmap;
pub mod draw_text;
pub mod elide;
pub mod font;
pub mod geometry;
pub mod image_cache;
pub mod item_cache;
pub mod keyed;
pub mod layout;
pub mod lines;
pub mod path;
pub mod renderer;
pub mod resource;
pub mod text;
pub mod text_input;
pub mod units;
pub mod wrap;
