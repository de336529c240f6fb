use ref_editor::prefab::{delete_plan, duplicate_plan, paste_plan, rename_plan, AssetOp, Prefab};
use ref_editor::workflow::Workflow;

fn strings(items: &[&str]) -> Vec<String> {
    items.iter().map(|s| s.to_string()).collect()
}

fn op(src: &str, dst: &str) -> AssetOp {
    AssetOp { src: src.to_string(), dst: dst.to_string() }
}

#[test]
fn duplicate_copies_asset_under_new_name() {
    let prefab = Prefab {
        name: "tree".to_string(),
        workflow: Workflow::StaticImage { image: Some("ref/tree.png".to_string()) },
    };
    let (copy, ops) = duplicate_plan(&prefab, strings(&["tree"]));
    assert_eq!(copy.name, "tree_2");
    assert_eq!(copy.workflow, Workflow::StaticImage { image: Some("ref/tree_2.png".to_string()) });
    assert_eq!(ops, vec![op("./assets/ref/tree.png", "./assets/ref/tree_2.png")]);
}

#[test]
fn duplicate_without_assets_copies_nothing() {
    let prefab = Prefab { name: "tree".to_string(), workflow: Workflow::StaticImage {
        image: None,
    } };
    let (copy, ops) = duplicate_plan(&prefab, strings(&["tree", "rock"]));
    assert_eq!(copy.name, "tree_2");
    assert_eq!(copy.workflow, Workflow::StaticImage { image: None });
    assert!(ops.is_empty());
}

#[test]
fn duplicate_model_workflow_copies_both_assets() {
    let prefab = Prefab {
        name: "rock".to_string(),
        workflow: Workflow::TextToModel {
            seed: 5,
            seed_random: true,
            prompt: "a rock".to_string(),
            num_faces: 2000,
            image: Some("ref/rock.png".to_string()),
            model: Some("ref/rock.glb".to_string()),
        },
    };
    let (copy, ops) = duplicate_plan(&prefab, strings(&["rock"]));
    assert_eq!(copy.name, "rock_2");
    assert_eq!(
        copy.workflow,
        Workflow::TextToModel {
            seed: 5,
            seed_random: true,
            prompt: "a rock".to_string(),
            num_faces: 2000,
            image: Some("ref/rock_2.png".to_string()),
            model: Some("ref/rock_2.glb".to_string()),
        }
    );
    assert_eq!(
        ops,
        vec![
            op("./assets/ref/rock.png", "./assets/ref/rock_2.png"),
            op("./assets/ref/rock.glb", "./assets/ref/rock_2.glb"),
        ]
    );
}

#[test]
fn rename_moves_assets_and_dedups_name() {
    let mut prefab = Prefab {
        name: "tree".to_string(),
        workflow: Workflow::TextToImage {
            seed: 1,
            seed_random: false,
            prompt: "p".to_string(),
            image: Some("ref/tree.png".to_string()),
        },
    };
    let ops = rename_plan(&mut prefab, &"rock".to_string(), strings(&["tree", "rock"]));
    assert_eq!(prefab.name, "rock_2");
    assert_eq!(
        prefab.workflow,
        Workflow::TextToImage {
            seed: 1,
            seed_random: false,
            prompt: "p".to_string(),
            image: Some("ref/rock_2.png".to_string()),
        }
    );
    assert_eq!(ops, vec![op("./assets/ref/tree.png", "./assets/ref/rock_2.png")]);
}

#[test]
fn delete_lists_stored_assets() {
    let w = Workflow::TextToModel {
        seed: 0,
        seed_random: false,
        prompt: String::new(),
        num_faces: 1,
        image: Some("ref/a.png".to_string()),
        model: Some("ref/a.glb".to_string()),
    };
    assert_eq!(delete_plan(&w), vec!["assets/ref/a.png".to_string(), "assets/ref/a.glb"
        .to_string()]);
    assert!(delete_plan(&Workflow::StaticImage { image: None }).is_empty());
    assert_eq!(
        delete_plan(&Workflow::StaticImage { image: Some("ref/b.png".to_string()) }),
        vec!["assets/ref/b.png".to_string()]
    );
}

#[test]
fn paste_accepts_png_paths() {
    let plan = paste_plan("/home/someone/shots/tree.png").expect("png paste");
    assert_eq!(plan.src, "/home/someone/shots/tree.png");
    assert_eq!(plan.dst, "assets/ref/tree.png");
    assert_eq!(plan.prefab.name, "tree");
    assert_eq!(
        plan.prefab.workflow,
        Workflow::StaticImage { image: Some("ref/tree.png".to_string()) }
    );
}

#[test]
fn paste_refuses_other_text() {
    assert!(paste_plan("not an image").is_none());
    assert!(paste_plan("photo.jpg").is_none());
    assert!(paste_plan("").is_none());
}

#[test]
fn spawned_prefab_is_bare() {
    let p = Prefab::spawned();
    assert_eq!(p.name, "Prefab");
    assert_eq!(p.workflow, Workflow::StaticImage { image: None });
}
