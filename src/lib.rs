//! A drawing layer over a raster image: freehand strokes kept as an ordered
//! history with undo and redo, image loading and PNG encoding, and what the
//! display and the export need to know of the strokes.

pub mod bitmap;
pub mod mode;
pub mod painter;
pub mod stroke;

pub use bitmap::{decode_image, encode_image, Bitmap, EncodeError, LoadError};
pub use mode::{edit_modes, Mode};
pub use painter::Painter;
pub use stroke::{Line, Point, CANVAS_UNIT};
