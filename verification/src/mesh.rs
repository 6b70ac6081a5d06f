//! 3D model pipeline via Meshy: remesh → retexture → rig → animate.
//!
//! All operations run through the async job system. Each method submits a job
//! and polls until completion. Use the typed request structs or call
//! `Client::create_job` directly with the appropriate `job_type`. Text- and
//! image-to-3D generation is `Client::generate_3d` in the jobs module.

use vstd::prelude::*;

use crate::jobs::JobStatusResponse;
use crate::json::{value_get, value_is_null, value_member, value_null};

verus! {

/// URLs for each exported format in a remesh result.
#[derive(Debug, Clone, Default)]
pub struct ModelUrls {
    pub glb: String,
    pub fbx: String,
    pub obj: String,
    pub usdz: String,
    pub stl: String,
    pub blend: String,
}

/// Request for AI retexturing of an existing 3D model.
///
/// One of `text_style_prompt` and `image_style_url` is required; the job
/// fails otherwise.
#[derive(Debug, Clone, Default)]
pub struct RetextureRequest {
    /// ID of a completed 3D task to retexture.
    pub input_task_id: Option<String>,

    /// Direct URL to a 3D model file.
    pub model_url: Option<String>,

    /// Text prompt describing the desired texture.
    pub text_style_prompt: Option<String>,

    /// URL of a reference image whose style the texture follows.
    pub image_style_url: Option<String>,

    /// Meshy AI model to use. Omitted when unset; Meshy applies its own
    /// default.
    pub ai_model: Option<String>,

    /// Keep the model's existing UV layout.
    pub enable_original_uv: Option<bool>,

    /// Enable PBR texture maps (metallic, roughness, normal).
    pub enable_pbr: Option<bool>,

    /// Strip baked lighting from the generated texture.
    pub remove_lighting: Option<bool>,

    /// Output formats: "glb", "fbx", "obj", "usdz", "stl", "blend".
    pub target_formats: Option<Vec<String>>,
}

/// Request for applying an animation to a rigged character.
#[derive(Debug, Clone, Default)]
pub struct AnimateRequest {
    /// ID of a completed rigging task.
    pub rig_task_id: String,

    /// Animation action ID from Meshy's animation library.
    pub action_id: i32,

    /// Optional post-processing (e.g. FPS conversion, format conversion).
    pub post_process: Option<AnimationPostProcess>,
}

/// Post-processing options for animation export.
#[derive(Debug, Clone, Default)]
pub struct AnimationPostProcess {
    /// Operation: "change_fps", "fbx2usdz", "extract_armature".
    pub operation_type: String,
    /// Target FPS (for "change_fps"): 24, 25, 30, 60.
    pub fps: Option<i32>,
}

/// Backwards-compatible alias for [`AnimationPostProcess`].
pub type PostProcess = AnimationPostProcess;

/// URLs for the walk and run cycles Meshy bakes into every rigging result.
/// There are no idle animations; use `Client::animate` for anything else.
#[derive(Debug, Clone, Default)]
pub struct BasicAnimations {
    /// Walking animation in GLB format.
    pub walking_glb_url: String,

    /// Walking animation in FBX format.
    pub walking_fbx_url: String,

    /// Walking animation as an armature-only GLB.
    pub walking_armature_glb_url: String,

    /// Running animation in GLB format.
    pub running_glb_url: String,

    /// Running animation in FBX format.
    pub running_fbx_url: String,

    /// Running animation as an armature-only GLB.
    pub running_armature_glb_url: String,
}

/// The rigging output of a completed job. The job's `result` is an envelope
/// (`result`, `task_id`, `cost_ticks`, `request_id`); this is its `result`
/// member.
#[derive(Debug, Clone, Default)]
pub struct RigOutput {
    /// The rigged character in FBX format.
    pub rigged_character_fbx_url: String,

    /// The rigged character in GLB format.
    pub rigged_character_glb_url: String,

    /// Walk and run cycles, when Meshy produced them.
    pub basic_animations: Option<BasicAnimations>,
}

/// The rigging output a finished job carries: the `result` member of its
/// result envelope, when there is one and it is not `null`.
pub open spec fn rig_output_member(job: JobStatusResponse) -> Option<serde_json::Value> {
    match job.result {
        Some(envelope) => match value_member(envelope, "result"@) {
            Some(output) => if value_null(output) {
                None
            } else {
                Some(output)
            },
            None => None,
        },
        None => None,
    }
}

/// The JSON of a finished rigging job's output, for decoding as a
/// [`RigOutput`]; `None` when the job carries no result (it failed or is
/// still running).
pub fn rig_output_json(job: &JobStatusResponse) -> (r: Option<serde_json::Value>)
    ensures
        r == rig_output_member(*job),
{
    match &job.result {
        Some(envelope) => match value_get(envelope, "result") {
            Some(output) => if value_is_null(output) {
                None
            } else {
                Some(output.clone())
            },
            None => None,
        },
        None => None,
    }
}

} // verus!
