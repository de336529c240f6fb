//! What a generation run needs decided up front: the seed to use, which
//! stages run, how long the progress bar expects them to take, and the
//! values to patch into the job document sent to the generation server.

use vstd::prelude::*;

use crate::paths::{file_name_part, file_name_spec};

verus! {

/// How long the progress bar expects an image stage to take, in seconds.
pub const IMAGE_TIME_SECS: u64 = 10;

/// How long the progress bar expects a model stage to take, in seconds.
pub const MODEL_TIME_SECS: u64 = 90;

/// How long asset reloads are delayed after a result file lands, in
/// seconds.
pub const FILE_DELAY_SECS: u64 = 1;

/// Picks the seed for a generation run: a randomized workflow takes the
/// freshly drawn value and remembers it, a fixed one keeps its stored
/// seed. Returns the seed the run uses.
pub fn update_seed(seed: &mut u32, seed_random: bool, drawn: u32) -> (r: u32)
    ensures
        seed_random ==> *final(seed) == drawn && r == drawn,
        !seed_random ==> *final(seed) == *old(seed) && r == *old(seed),
{
    if seed_random {
        *seed = drawn;
        drawn
    } else {
        *seed
    }
}

/// Whether a requested stage runs the image step: a full run (no stage
/// picked) does, and so does stage zero.
pub fn runs_image_stage(stage: Option<u8>) -> (r: bool)
    ensures
        r == (stage is None || stage == Some(0u8)),
{
    match stage {
        None => true,
        Some(s) => s == 0,
    }
}

/// Whether a requested stage runs the model step: a full run does, and so
/// does stage one.
pub fn runs_model_stage(stage: Option<u8>) -> (r: bool)
    ensures
        r == (stage is None || stage == Some(1u8)),
{
    match stage {
        None => true,
        Some(s) => s == 1,
    }
}

/// How long the progress bar runs for a model workflow's generation:
/// the image stage alone, the model stage alone, or both in sequence.
pub fn model_progress_secs(stage: Option<u8>) -> (r: u64)
    ensures
        stage == Some(0u8) ==> r == IMAGE_TIME_SECS,
        stage == Some(1u8) ==> r == MODEL_TIME_SECS,
        (match stage {
            Some(s) => s != 0 && s != 1,
            None => true,
        }) ==> r == IMAGE_TIME_SECS + MODEL_TIME_SECS,
{
    match stage {
        Some(s) => {
            if s == 0 {
                IMAGE_TIME_SECS
            } else if s == 1 {
                MODEL_TIME_SECS
            } else {
                IMAGE_TIME_SECS + MODEL_TIME_SECS
            }
        },
        None => IMAGE_TIME_SECS + MODEL_TIME_SECS,
    }
}

/// How long the progress bar runs for an image workflow's generation.
pub fn image_progress_secs() -> (r: u64)
    ensures
        r == IMAGE_TIME_SECS,
{
    IMAGE_TIME_SECS
}

/// A value written into the job document.
#[derive(Debug, Clone, PartialEq)]
pub enum PatchValue {
    Num(u64),
    Text(String),
}

/// One edit to the job document: the value at `pointer` becomes `value`.
#[derive(Debug, Clone, PartialEq)]
pub struct JobPatch {
    pub pointer: String,
    pub value: PatchValue,
}

/// The edits that turn the stock image job into this run's job: its
/// sampler seed, its prompt text, and the name the server saves under.
pub fn image_job_patches(name: &str, seed: u32, prompt: &str) -> (r: Vec<JobPatch>)
    ensures
        r@.len() == 3,
        r@[0].pointer@ == "/9/inputs/seed"@,
        r@[0].value matches PatchValue::Num(v) && v == seed,
        r@[1].pointer@ == "/11/inputs/text"@,
        r@[1].value matches PatchValue::Text(t) && t@ == prompt@,
        r@[2].pointer@ == "/13/inputs/value"@,
        r@[2].value matches PatchValue::Text(t) && t@ == name@,
{
    let mut r: Vec<JobPatch> = Vec::new();
    r.push(
        JobPatch {
            pointer: String::from_str("/9/inputs/seed"),
            value: PatchValue::Num(seed as u64),
        },
    );
    r.push(
        JobPatch {
            pointer: String::from_str("/11/inputs/text"),
            value: PatchValue::Text(String::from_str(prompt)),
        },
    );
    r.push(
        JobPatch {
            pointer: String::from_str("/13/inputs/value"),
            value: PatchValue::Text(String::from_str(name)),
        },
    );
    r
}

/// The edits that turn the stock model job into this run's job: its mesh
/// seed, the uploaded image it starts from (the image path's file name),
/// the name the server saves under, and the face budget.
pub fn model_job_patches(name: &str, image_path: &str, seed: u32, num_faces: u32) -> (r: Vec<
    JobPatch,
>)
    ensures
        r@.len() == 4,
        r@[0].pointer@ == "/141/inputs/seed"@,
        r@[0].value matches PatchValue::Num(v) && v == seed,
        r@[1].pointer@ == "/174/inputs/image"@,
        r@[1].value matches PatchValue::Text(t) && t@ == file_name_spec(image_path@),
        r@[2].pointer@ == "/175/inputs/value"@,
        r@[2].value matches PatchValue::Text(t) && t@ == name@,
        r@[3].pointer@ == "/59/inputs/max_facenum"@,
        r@[3].value matches PatchValue::Num(v) && v == num_faces,
{
    let filename = file_name_part(image_path);
    let mut r: Vec<JobPatch> = Vec::new();
    r.push(
        JobPatch {
            pointer: String::from_str("/141/inputs/seed"),
            value: PatchValue::Num(seed as u64),
        },
    );
    r.push(
        JobPatch {
            pointer: String::from_str("/174/inputs/image"),
            value: PatchValue::Text(filename),
        },
    );
    r.push(
        JobPatch {
            pointer: String::from_str("/175/inputs/value"),
            value: PatchValue::Text(String::from_str(name)),
        },
    );
    r.push(
        JobPatch {
            pointer: String::from_str("/59/inputs/max_facenum"),
            value: PatchValue::Num(num_faces as u64),
        },
    );
    r
}

} // verus!
