use ref_editor::generation::{
    image_job_patches, model_job_patches, model_progress_secs, runs_image_stage, runs_model_stage,
    update_seed, JobPatch, PatchValue, IMAGE_TIME_SECS, MODEL_TIME_SECS,
};

#[test]
fn randomized_seed_takes_drawn_value() {
    let mut seed: u32 = 5;
    let used = update_seed(&mut seed, true, 99);
    assert_eq!(used, 99);
    assert_eq!(seed, 99);
}

#[test]
fn fixed_seed_is_kept() {
    let mut seed: u32 = 5;
    let used = update_seed(&mut seed, false, 99);
    assert_eq!(used, 5);
    assert_eq!(seed, 5);
}

#[test]
fn stage_selection() {
    assert!(runs_image_stage(None));
    assert!(runs_image_stage(Some(0)));
    assert!(!runs_image_stage(Some(1)));
    assert!(runs_model_stage(None));
    assert!(!runs_model_stage(Some(0)));
    assert!(runs_model_stage(Some(1)));
}

#[test]
fn progress_durations() {
    assert_eq!(model_progress_secs(Some(0)), IMAGE_TIME_SECS);
    assert_eq!(model_progress_secs(Some(1)), MODEL_TIME_SECS);
    assert_eq!(model_progress_secs(Some(7)), IMAGE_TIME_SECS + MODEL_TIME_SECS);
    assert_eq!(model_progress_secs(None), 100);
}

fn patch(pointer: &str, value: PatchValue) -> JobPatch {
    JobPatch { pointer: pointer.to_string(), value }
}

#[test]
fn image_job_patch_list() {
    let r = image_job_patches("tree", 42, "a tall tree");
    assert_eq!(
        r,
        vec![
            patch("/9/inputs/seed", PatchValue::Num(42)),
            patch("/11/inputs/text", PatchValue::Text("a tall tree".to_string())),
            patch("/13/inputs/value", PatchValue::Text("tree".to_string())),
        ]
    );
}

#[test]
fn model_job_patch_list() {
    let r = model_job_patches("rock", "ref/rock.png", 7, 50000);
    assert_eq!(
        r,
        vec![
            patch("/141/inputs/seed", PatchValue::Num(7)),
            patch("/174/inputs/image", PatchValue::Text("rock.png".to_string())),
            patch("/175/inputs/value", PatchValue::Text("rock".to_string())),
            patch("/59/inputs/max_facenum", PatchValue::Num(50000)),
        ]
    );
}
