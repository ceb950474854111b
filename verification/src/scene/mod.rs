mod camera;
mod transform;

pub use camera::{
    lemma_orthographic_corners, ortho_scale_m, ortho_translate_m, orthographic_m, perspective_m,
    Camera, CameraProjectionType,
};
pub use transform::{rotated_dir_m, Transform};
