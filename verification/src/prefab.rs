//! Placeable prefabs and the editor actions on them: duplicating,
//! renaming, deleting and pasting.
//!
//! Each action is planned here as plain data — the new prefab value and
//! the file moves it entails — and the file system work happens outside
//! the library, step by step as planned.

use vstd::prelude::*;

use crate::naming::{create_unique_name, unique_name_ok};
use crate::paths::{
    ext_or_png_spec, file_name_spec, file_stem_part, join_path, joined, ref_asset_path_spec,
    replaced_asset_path, stem_spec,
};
use crate::text::{ends_with_spec, str_ends_with};
use crate::workflow::Workflow;

verus! {

/// A placeable scene entity: a name and the workflow that produces its
/// visual content.
#[derive(Debug, Clone, PartialEq)]
pub struct Prefab {
    pub name: String,
    pub workflow: Workflow,
}

/// One file move an action entails, with both ends as on-disk paths.
#[derive(Debug, Clone, PartialEq)]
pub struct AssetOp {
    pub src: String,
    pub dst: String,
}

/// Where an asset lands when it follows a prefab onto a new name: under
/// `ref/`, named after the prefab, keeping its extension (`png` when it
/// had none).
pub open spec fn moved_path(old_path: Seq<char>, new_name: Seq<char>) -> Seq<char> {
    ref_asset_path_spec(new_name, ext_or_png_spec(old_path))
}

/// What one planned file move must say: from the stored asset, to its
/// place under the new name, both resolved against the editor's asset
/// folder.
pub open spec fn asset_op_ok(op: AssetOp, old_path: Seq<char>, new_name: Seq<char>) -> bool {
    op.src@ == joined("./assets/"@, old_path) && op.dst@ == joined(
        "./assets/"@,
        moved_path(old_path, new_name),
    )
}

/// How a stored asset path changes when its prefab takes a new name: an
/// absent asset stays absent, a present one moves to `moved_path`.
pub open spec fn opt_moved(old: Option<String>, new: Option<String>, new_name: Seq<char>) -> bool {
    match (old, new) {
        (Option::None, Option::None) => true,
        (Option::Some(o), Option::Some(n)) => n@ == moved_path(o@, new_name),
        _ => false,
    }
}

/// Plans the move of one optional asset: records the file move and
/// returns the new stored path.
fn plan_asset_move(asset: &Option<String>, new_name: &str, ops: &mut Vec<AssetOp>) -> (r: Option<
    String,
>)
    ensures
        opt_moved(*asset, r, new_name@),
        asset is None ==> final(ops)@ == old(ops)@,
        asset is Some ==> final(ops)@.len() == old(ops)@.len() + 1 && final(ops)@.subrange(
            0,
            old(ops)@.len() as int,
        ) == old(ops)@ && asset_op_ok(final(ops)@.last(), asset.unwrap()@, new_name@),
{
    match asset {
        Some(o) => {
            let new_path = replaced_asset_path(o.as_str(), new_name);
            let op = AssetOp {
                src: join_path("./assets/", o.as_str()),
                dst: join_path("./assets/", new_path.as_str()),
            };
            ops.push(op);
            proof {
                assert(final(ops)@.subrange(0, old(ops)@.len() as int) =~= old(ops)@);
            }
            Some(new_path)
        },
        None => None,
    }
}

/// How a workflow follows its prefab onto a new name, and which file
/// moves that entails: every stored asset moves to `moved_path`, image
/// first, model second; everything else is kept.
pub open spec fn workflow_moved(
    old: Workflow,
    new: Workflow,
    new_name: Seq<char>,
    ops: Seq<AssetOp>,
) -> bool {
    &&& new.kind_spec() == old.kind_spec()
    &&& opt_moved(old.image_spec(), new.image_spec(), new_name)
    &&& opt_moved(old.model_spec(), new.model_spec(), new_name)
    &&& (old matches Workflow::TextToImage { seed, seed_random, prompt, .. } ==> (
    new matches Workflow::TextToImage { seed: s1, seed_random: r1, prompt: p1, .. } && s1 == seed
        && r1 == seed_random && p1@ == prompt@))
    &&& (old matches Workflow::TextToModel { seed, seed_random, prompt, num_faces, .. } ==> (
    new matches Workflow::TextToModel {
        seed: s1,
        seed_random: r1,
        prompt: p1,
        num_faces: n1,
        ..
    } && s1 == seed && r1 == seed_random && p1@ == prompt@ && n1 == num_faces))
    &&& match (old.image_spec(), old.model_spec()) {
        (Option::None, Option::None) => ops.len() == 0,
        (Option::Some(i), Option::None) => ops.len() == 1 && asset_op_ok(ops[0], i@, new_name),
        (Option::None, Option::Some(m)) => ops.len() == 1 && asset_op_ok(ops[0], m@, new_name),
        (Option::Some(i), Option::Some(m)) => ops.len() == 2 && asset_op_ok(ops[0], i@, new_name)
            && asset_op_ok(ops[1], m@, new_name),
    }
}

/// Rebuilds a workflow for a prefab that takes a new name, planning the
/// file moves its assets need.
fn move_workflow(workflow: &Workflow, new_name: &str) -> (r: (Workflow, Vec<AssetOp>))
    ensures
        workflow_moved(*workflow, r.0, new_name@, r.1@),
{
    let mut ops: Vec<AssetOp> = Vec::new();
    let w = match workflow {
        Workflow::StaticImage { image } => {
            let image = plan_asset_move(image, new_name, &mut ops);
            Workflow::StaticImage { image }
        },
        Workflow::TextToImage { seed, seed_random, prompt, image } => {
            let image = plan_asset_move(image, new_name, &mut ops);
            Workflow::TextToImage {
                seed: *seed,
                seed_random: *seed_random,
                prompt: prompt.clone(),
                image,
            }
        },
        Workflow::TextToModel { seed, seed_random, prompt, num_faces, image, model } => {
            let image = plan_asset_move(image, new_name, &mut ops);
            let model = plan_asset_move(model, new_name, &mut ops);
            Workflow::TextToModel {
                seed: *seed,
                seed_random: *seed_random,
                prompt: prompt.clone(),
                num_faces: *num_faces,
                image,
                model,
            }
        },
    };
    (w, ops)
}

/// Plans a duplicate of a prefab among the given existing names: the copy
/// takes a fresh name, its assets are copied to paths under that name,
/// and the planned copies bring the files along.
pub fn duplicate_plan(prefab: &Prefab, names: Vec<String>) -> (r: (Prefab, Vec<AssetOp>))
    requires
        names@.len() < usize::MAX,
    ensures
        unique_name_ok(prefab.name@, names@, r.0.name@),
        workflow_moved(prefab.workflow, r.0.workflow, r.0.name@, r.1@),
{
    let new_name = create_unique_name(&prefab.name, names);
    let (workflow, ops) = move_workflow(&prefab.workflow, new_name.as_str());
    (Prefab { name: new_name, workflow }, ops)
}

/// Renames a prefab among the given existing names: the wanted name is
/// made fresh first, the assets move to paths under the final name, and
/// the planned renames bring the files along.
pub fn rename_plan(prefab: &mut Prefab, wanted: &String, names: Vec<String>) -> (ops: Vec<AssetOp>)
    requires
        names@.len() < usize::MAX,
    ensures
        unique_name_ok(wanted@, names@, final(prefab).name@),
        workflow_moved(
            old(prefab).workflow,
            final(prefab).workflow,
            final(prefab).name@,
            ops@,
        ),
{
    let new_name = create_unique_name(wanted, names);
    let (workflow, ops) = move_workflow(&prefab.workflow, new_name.as_str());
    prefab.name = new_name;
    prefab.workflow = workflow;
    ops
}

/// The on-disk files a deleted prefab leaves behind: its stored image,
/// then its stored model, each resolved against the asset folder.
pub open spec fn delete_paths_ok(w: Workflow, paths: Seq<String>) -> bool {
    match (w.image_spec(), w.model_spec()) {
        (Option::None, Option::None) => paths.len() == 0,
        (Option::Some(i), Option::None) => paths.len() == 1 && paths[0]@ == joined("assets"@, i@),
        (Option::None, Option::Some(m)) => paths.len() == 1 && paths[0]@ == joined("assets"@, m@),
        (Option::Some(i), Option::Some(m)) => paths.len() == 2 && paths[0]@ == joined(
            "assets"@,
            i@,
        ) && paths[1]@ == joined("assets"@, m@),
    }
}

/// The files to remove when a prefab is deleted.
pub fn delete_plan(workflow: &Workflow) -> (r: Vec<String>)
    ensures
        delete_paths_ok(*workflow, r@),
{
    let mut r: Vec<String> = Vec::new();
    match workflow.image() {
        Some(i) => {
            r.push(join_path("assets", i.as_str()));
        },
        None => {},
    }
    match workflow.model() {
        Some(m) => {
            r.push(join_path("assets", m.as_str()));
        },
        None => {},
    }
    r
}

/// What a paste of an image path creates: the file copy to make and the
/// prefab to place.
#[derive(Debug, Clone, PartialEq)]
pub struct PastePlan {
    /// The pasted path itself, to copy from.
    pub src: String,
    /// Where the copy lands on disk.
    pub dst: String,
    /// The prefab to place, showing the copied image.
    pub prefab: Prefab,
}

/// Plans a paste of clipboard text: text naming a `png` file becomes a
/// static-image prefab named after the file's stem, showing a copy of the
/// file under `ref/`; any other text is refused.
pub fn paste_plan(clipboard: &str) -> (r: Option<PastePlan>)
    ensures
        r is Some <==> ends_with_spec(clipboard@, ".png"@),
        r matches Some(p) ==> {
            &&& p.src@ == clipboard@
            &&& p.dst@ == joined("assets/ref/"@, file_name_spec(clipboard@))
            &&& p.prefab.name@ == stem_spec(file_name_spec(clipboard@))
            &&& p.prefab.workflow matches Workflow::StaticImage { image } && (
            image matches Some(stored) && stored@ == "ref/"@ + file_name_spec(clipboard@))
        },
{
    if !str_ends_with(clipboard, ".png") {
        return None;
    }
    let file_name = crate::paths::file_name_part(clipboard);
    let file_stem = file_stem_part(clipboard);
    let dst = join_path("assets/ref/", file_name.as_str());
    let mut stored = String::from_str("ref/");
    stored.append(file_name.as_str());
    Some(
        PastePlan {
            src: String::from_str(clipboard),
            dst,
            prefab: Prefab {
                name: file_stem,
                workflow: Workflow::StaticImage { image: Some(stored) },
            },
        },
    )
}

impl Prefab {
    /// The prefab the add action places: a bare static image.
    pub fn spawned() -> (r: Prefab)
        ensures
            r.name@ == "Prefab"@,
            r.workflow matches Workflow::StaticImage { image } && image is None,
    {
        Prefab {
            name: String::from_str("Prefab"),
            workflow: Workflow::StaticImage { image: None },
        }
    }
}

} // verus!
