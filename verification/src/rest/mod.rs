//! REST resource infrastructure: path selection and interpolation,
//! request parameters, resource errors and the resources themselves.
pub mod errors;
pub mod params;
pub mod path;
pub mod resource;
pub mod template;

pub use errors::ResourceError;
pub use params::{FieldErrors, StringMap};
pub use path::{build_path, build_path_from_resource_path, get_path, ResourceOperation, ResourcePath};
pub mod resources;
