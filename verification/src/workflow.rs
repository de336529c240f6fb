//! Generation workflows: how a prefab's visual content is produced.
//!
//! A prefab either shows a static image, generates an image from a text
//! prompt, or generates an image and then a 3D model from it. Switching a
//! prefab between these keeps whatever data the target kind can still use.

use vstd::prelude::*;

verus! {

/// The face budget a model-generating workflow starts with.
pub const DEFAULT_NUM_FACES: u32 = 50000;

/// The generation strategy of a prefab, with the data each strategy needs.
#[derive(Debug, Clone, PartialEq)]
pub enum Workflow {
    StaticImage { image: Option<String> },
    TextToImage { seed: u32, seed_random: bool, prompt: String, image: Option<String> },
    TextToModel {
        seed: u32,
        seed_random: bool,
        prompt: String,
        num_faces: u32,
        image: Option<String>,
        model: Option<String>,
    },
}

/// The three workflow kinds, without their data.
#[derive(Debug, Clone, Copy, PartialEq, Eq, Structural)]
pub enum WorkflowKind {
    StaticImage,
    TextToImage,
    TextToModel,
}

impl Workflow {
    /// Which kind of workflow this is.
    pub open spec fn kind_spec(&self) -> WorkflowKind {
        match self {
            Workflow::StaticImage { .. } => WorkflowKind::StaticImage,
            Workflow::TextToImage { .. } => WorkflowKind::TextToImage,
            Workflow::TextToModel { .. } => WorkflowKind::TextToModel,
        }
    }

    /// The stored image path, whatever the kind.
    pub open spec fn image_spec(&self) -> Option<String> {
        match self {
            Workflow::StaticImage { image } => *image,
            Workflow::TextToImage { image, .. } => *image,
            Workflow::TextToModel { image, .. } => *image,
        }
    }

    /// The stored model path; only a model-generating workflow has one.
    pub open spec fn model_spec(&self) -> Option<String> {
        match self {
            Workflow::TextToModel { model, .. } => *model,
            _ => None,
        }
    }

    /// Which kind of workflow this is.
    pub fn kind(&self) -> (k: WorkflowKind)
        ensures
            k == self.kind_spec(),
    {
        match self {
            Workflow::StaticImage { .. } => WorkflowKind::StaticImage,
            Workflow::TextToImage { .. } => WorkflowKind::TextToImage,
            Workflow::TextToModel { .. } => WorkflowKind::TextToModel,
        }
    }

    /// The stored image path, whatever the kind.
    pub fn image(&self) -> (r: &Option<String>)
        ensures
            *r == self.image_spec(),
    {
        match self {
            Workflow::StaticImage { image } => image,
            Workflow::TextToImage { image, .. } => image,
            Workflow::TextToModel { image, .. } => image,
        }
    }

    /// The stored model path; only a model-generating workflow has one.
    pub fn model(&self) -> (r: &Option<String>)
        ensures
            *r == self.model_spec(),
    {
        match self {
            Workflow::TextToModel { model, .. } => model,
            _ => &None,
        }
    }

    /// Whether the generate actions apply: a static image has nothing to
    /// generate.
    pub fn can_generate(&self) -> (r: bool)
        ensures
            r == !(self.kind_spec() is StaticImage),
    {
        match self {
            Workflow::StaticImage { .. } => false,
            _ => true,
        }
    }

    /// The label the inspector shows for this workflow's kind.
    pub fn label(&self) -> (r: &'static str)
        ensures
            r@ == kind_label(self.kind_spec()),
    {
        match self {
            Workflow::StaticImage { .. } => "Static Image",
            Workflow::TextToImage { .. } => "Text To Image",
            Workflow::TextToModel { .. } => "Text To Model",
        }
    }

    /// Rebuilds this workflow as another kind, keeping the data the target
    /// kind can use: the image always carries over; prompt, seed and the
    /// random-seed flag carry over between the two generating kinds; what
    /// the target needs beyond that starts at its defaults.
    pub fn switch_kind(&self, target: WorkflowKind) -> (w: Workflow)
        requires
            target != self.kind_spec(),
        ensures
            w.kind_spec() == target,
            w.image_spec() == self.image_spec(),
            w.model_spec() is None,
            target is TextToImage ==> (w matches Workflow::TextToImage {
                seed,
                seed_random,
                prompt,
                image: _,
            } && ({
                match self {
                    Workflow::TextToModel {
                        seed: s0,
                        seed_random: r0,
                        prompt: p0,
                        ..
                    } => seed == s0 && seed_random == r0 && prompt@ == p0@,
                    _ => seed == 0 && !seed_random && prompt@ == Seq::<char>::empty(),
                }
            })),
            target is TextToModel ==> (w matches Workflow::TextToModel {
                seed,
                seed_random,
                prompt,
                num_faces,
                image: _,
                model: _,
            } && num_faces == DEFAULT_NUM_FACES && ({
                match self {
                    Workflow::TextToImage {
                        seed: s0,
                        seed_random: r0,
                        prompt: p0,
                        ..
                    } => seed == s0 && seed_random == r0 && prompt@ == p0@,
                    _ => seed == 0 && !seed_random && prompt@ == Seq::<char>::empty(),
                }
            })),
    {
        match target {
            WorkflowKind::StaticImage => {
                match self {
                    Workflow::TextToImage { image, .. } => Workflow::StaticImage {
                        image: image.clone(),
                    },
                    Workflow::TextToModel { image, .. } => Workflow::StaticImage {
                        image: image.clone(),
                    },
                    Workflow::StaticImage { image } => Workflow::StaticImage {
                        image: image.clone(),
                    },
                }
            },
            WorkflowKind::TextToImage => {
                match self {
                    Workflow::StaticImage { image } => Workflow::TextToImage {
                        seed: 0,
                        seed_random: false,
                        prompt: String::new(),
                        image: image.clone(),
                    },
                    Workflow::TextToModel { seed, seed_random, prompt, image, .. } => {
                        Workflow::TextToImage {
                            seed: *seed,
                            seed_random: *seed_random,
                            prompt: prompt.clone(),
                            image: image.clone(),
                        }
                    },
                    Workflow::TextToImage { seed, seed_random, prompt, image } => {
                        Workflow::TextToImage {
                            seed: *seed,
                            seed_random: *seed_random,
                            prompt: prompt.clone(),
                            image: image.clone(),
                        }
                    },
                }
            },
            WorkflowKind::TextToModel => {
                match self {
                    Workflow::StaticImage { image } => Workflow::TextToModel {
                        seed: 0,
                        seed_random: false,
                        prompt: String::new(),
                        num_faces: DEFAULT_NUM_FACES,
                        image: image.clone(),
                        model: None,
                    },
                    Workflow::TextToImage { seed, seed_random, prompt, image } => {
                        Workflow::TextToModel {
                            seed: *seed,
                            seed_random: *seed_random,
                            prompt: prompt.clone(),
                            num_faces: DEFAULT_NUM_FACES,
                            image: image.clone(),
                            model: None,
                        }
                    },
                    Workflow::TextToModel {
                        seed,
                        seed_random,
                        prompt,
                        num_faces,
                        image,
                        model,
                    } => {
                        Workflow::TextToModel {
                            seed: *seed,
                            seed_random: *seed_random,
                            prompt: prompt.clone(),
                            num_faces: *num_faces,
                            image: image.clone(),
                            model: model.clone(),
                        }
                    },
                }
            },
        }
    }

    /// Records a newly generated image. Only the generating kinds ever
    /// receive one.
    pub fn set_image(&mut self, path: String)
        requires
            !((*old(self)).kind_spec() is StaticImage),
        ensures
            (*final(self)).kind_spec() == (*old(self)).kind_spec(),
            (*final(self)).image_spec() matches Some(p) && p@ == path@,
            (*final(self)).model_spec() == (*old(self)).model_spec(),
            (*final(self)) matches Workflow::TextToImage { seed, seed_random, prompt, .. } ==> (
            (*old(self)) matches Workflow::TextToImage {
                seed: s0,
                seed_random: r0,
                prompt: p0,
                ..
            } && seed == s0 && seed_random == r0 && prompt == p0),
            (*final(self)) matches Workflow::TextToModel {
                seed,
                seed_random,
                prompt,
                num_faces,
                ..
            } ==> ((*old(self)) matches Workflow::TextToModel {
                seed: s0,
                seed_random: r0,
                prompt: p0,
                num_faces: n0,
                ..
            } && seed == s0 && seed_random == r0 && prompt == p0 && num_faces == n0),
    {
        match self {
            Workflow::TextToImage { image, .. } => {
                *image = Some(path);
            },
            Workflow::TextToModel { image, .. } => {
                *image = Some(path);
            },
            Workflow::StaticImage { .. } => {
                proof {
                    assert(false);
                }
            },
        }
    }

    /// Records a newly generated model. Only a model-generating workflow
    /// ever receives one.
    pub fn set_model(&mut self, path: String)
        requires
            (*old(self)).kind_spec() is TextToModel,
        ensures
            (*final(self)) matches Workflow::TextToModel {
                seed,
                seed_random,
                prompt,
                num_faces,
                image,
                model,
            } && ((*old(self)) matches Workflow::TextToModel {
                seed: s0,
                seed_random: r0,
                prompt: p0,
                num_faces: n0,
                image: i0,
                model: _,
            } && seed == s0 && seed_random == r0 && prompt == p0 && num_faces == n0 && image == i0
                && (model matches Some(p) && p@ == path@)),
    {
        match self {
            Workflow::TextToModel { model, .. } => {
                *model = Some(path);
            },
            _ => {
                proof {
                    assert(false);
                }
            },
        }
    }
}

impl Default for Workflow {
    /// A fresh prefab shows a static image with nothing loaded yet.
    fn default() -> (w: Workflow)
        ensures
            w matches Workflow::StaticImage { image } && image is None,
    {
        Workflow::StaticImage { image: None }
    }
}

impl WorkflowKind {
    /// Every kind, in the order the inspector offers them.
    pub fn all() -> (r: Vec<WorkflowKind>)
        ensures
            r@.len() == 3,
            r@[0] == WorkflowKind::StaticImage,
            r@[1] == WorkflowKind::TextToImage,
            r@[2] == WorkflowKind::TextToModel,
    {
        let mut r: Vec<WorkflowKind> = Vec::new();
        r.push(WorkflowKind::StaticImage);
        r.push(WorkflowKind::TextToImage);
        r.push(WorkflowKind::TextToModel);
        r
    }
}

/// The inspector's label for a workflow kind.
pub open spec fn kind_label(k: WorkflowKind) -> Seq<char> {
    match k {
        WorkflowKind::StaticImage => "Static Image"@,
        WorkflowKind::TextToImage => "Text To Image"@,
        WorkflowKind::TextToModel => "Text To Model"@,
    }
}

} // verus!
