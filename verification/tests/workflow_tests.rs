use ref_editor::workflow::{Workflow, WorkflowKind, DEFAULT_NUM_FACES};

fn text_to_image() -> Workflow {
    Workflow::TextToImage {
        seed: 11,
        seed_random: true,
        prompt: "a tree".to_string(),
        image: Some("ref/tree.png".to_string()),
    }
}

fn text_to_model() -> Workflow {
    Workflow::TextToModel {
        seed: 22,
        seed_random: false,
        prompt: "a rock".to_string(),
        num_faces: 1000,
        image: Some("ref/rock.png".to_string()),
        model: Some("ref/rock.glb".to_string()),
    }
}

#[test]
fn kinds_and_labels() {
    assert_eq!(Workflow::default().kind(), WorkflowKind::StaticImage);
    assert_eq!(text_to_image().kind(), WorkflowKind::TextToImage);
    assert_eq!(text_to_model().kind(), WorkflowKind::TextToModel);
    assert_eq!(Workflow::default().label(), "Static Image");
    assert_eq!(text_to_image().label(), "Text To Image");
    assert_eq!(text_to_model().label(), "Text To Model");
}

#[test]
fn default_is_empty_static_image() {
    assert_eq!(Workflow::default(), Workflow::StaticImage { image: None });
}

#[test]
fn all_kinds_listed() {
    assert_eq!(
        WorkflowKind::all(),
        vec![WorkflowKind::StaticImage, WorkflowKind::TextToImage, WorkflowKind::TextToModel]
    );
}

#[test]
fn generate_applies_to_generating_kinds() {
    assert!(!Workflow::default().can_generate());
    assert!(text_to_image().can_generate());
    assert!(text_to_model().can_generate());
}

#[test]
fn switch_to_static_keeps_image() {
    let w = text_to_image().switch_kind(WorkflowKind::StaticImage);
    assert_eq!(w, Workflow::StaticImage { image: Some("ref/tree.png".to_string()) });
    let w = text_to_model().switch_kind(WorkflowKind::StaticImage);
    assert_eq!(w, Workflow::StaticImage { image: Some("ref/rock.png".to_string()) });
}

#[test]
fn switch_static_to_image_starts_fresh() {
    let s = Workflow::StaticImage { image: Some("ref/a.png".to_string()) };
    let w = s.switch_kind(WorkflowKind::TextToImage);
    assert_eq!(
        w,
        Workflow::TextToImage {
            seed: 0,
            seed_random: false,
            prompt: String::new(),
            image: Some("ref/a.png".to_string()),
        }
    );
}

#[test]
fn switch_model_to_image_keeps_prompt_and_seed() {
    let w = text_to_model().switch_kind(WorkflowKind::TextToImage);
    assert_eq!(
        w,
        Workflow::TextToImage {
            seed: 22,
            seed_random: false,
            prompt: "a rock".to_string(),
            image: Some("ref/rock.png".to_string()),
        }
    );
}

#[test]
fn switch_static_to_model_starts_fresh() {
    let s = Workflow::StaticImage { image: Some("ref/a.png".to_string()) };
    let w = s.switch_kind(WorkflowKind::TextToModel);
    assert_eq!(
        w,
        Workflow::TextToModel {
            seed: 0,
            seed_random: false,
            prompt: String::new(),
            num_faces: DEFAULT_NUM_FACES,
            image: Some("ref/a.png".to_string()),
            model: None,
        }
    );
}

#[test]
fn switch_image_to_model_keeps_prompt_and_seed() {
    let w = text_to_image().switch_kind(WorkflowKind::TextToModel);
    assert_eq!(
        w,
        Workflow::TextToModel {
            seed: 11,
            seed_random: true,
            prompt: "a tree".to_string(),
            num_faces: DEFAULT_NUM_FACES,
            image: Some("ref/tree.png".to_string()),
            model: None,
        }
    );
}

#[test]
fn refresh_image_updates_stored_path() {
    let mut w = text_to_image();
    w.set_image("ref/tree_fresh.png".to_string());
    assert_eq!(w.image(), &Some("ref/tree_fresh.png".to_string()));
    let mut w = text_to_model();
    w.set_image("ref/rock_fresh.png".to_string());
    assert_eq!(w.image(), &Some("ref/rock_fresh.png".to_string()));
    assert_eq!(w.model(), &Some("ref/rock.glb".to_string()));
}

#[test]
fn refresh_model_updates_stored_path() {
    let mut w = text_to_model();
    w.set_model("ref/rock_fresh.glb".to_string());
    assert_eq!(w.model(), &Some("ref/rock_fresh.glb".to_string()));
    assert_eq!(w.image(), &Some("ref/rock.png".to_string()));
}
