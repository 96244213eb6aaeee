//! Rendering a diagram through a PlantUML command run by the shell.
//!
//! The file system and the shell stay with the caller: a [`RenderSession`]
//! decides, from each reported outcome, which single effect comes next, and
//! ends with the cached image path or a [`RenderError`].
use vstd::prelude::*;

use crate::image_identity::{
    add_extension, get_image_filename, image_path, image_path_identifies_digest, path_join,
    sha1_hex, sha1_hex_of,
};

verus! {

/// The PlantUML arguments that render `file` as `extension`, without
/// embedded metadata.
pub open spec fn cmd_arguments(cmd: Seq<char>, file: Seq<char>, extension: Seq<char>) -> Seq<
    Seq<char>,
> {
    seq![cmd, "-t"@ + extension, "-nometadata"@, file]
}

/// The words joined by single spaces, as one command line.
pub open spec fn join_words(words: Seq<Seq<char>>) -> Seq<char>
    decreases words.len(),
{
    if words.len() == 0 {
        Seq::empty()
    } else if words.len() == 1 {
        words[0]
    } else {
        join_words(words.drop_last()) + seq![' '] + words.last()
    }
}

/// Joins the arguments into the one command line handed to the shell.
pub fn join_args(args: &Vec<String>) -> (r: String)
    ensures
        r@ == join_words(args.deep_view()),
{
    let mut r = String::new();
    let mut i: usize = 0;
    while i < args.len()
        invariant
            0 <= i <= args.len(),
            r@ == join_words(args.deep_view().take(i as int)),
        decreases args.len() - i,
    {
        if i > 0 {
            r.append(" ");
            proof {
                reveal_strlit(" ");
            }
        }
        r.append(args[i].as_str());
        proof {
            let words = args.deep_view();
            assert(words.take(i + 1).drop_last() =~= words.take(i as int));
            assert(words.take(i + 1).last() == args[i as int]@);
            if i == 0 {
                assert(join_words(words.take(0)) =~= Seq::<char>::empty());
            }
        }
        i = i + 1;
    }
    proof {
        assert(args.deep_view().take(args.len() as int) =~= args.deep_view());
    }
    r
}

/// Why a render produced no image.
pub enum RenderError {
    /// The diagram source could not be written to the scratch directory.
    ScratchWriteFailed(String),
    /// PlantUML could not be started or exited unsuccessfully.
    CommandFailed(String),
    /// PlantUML exited successfully but wrote no image; holds the command line.
    NoOutputProduced(String),
    /// The rendered image could not be copied to its cached path.
    CopyFailed { from: String, to: String, reason: String },
}

impl RenderError {
    pub open spec fn spec_message(&self) -> Seq<char> {
        match self {
            RenderError::ScratchWriteFailed(e) => "Failed to create temp file for inline diagram ("@
                + e@ + ")."@,
            RenderError::CommandFailed(e) => "Failed to render inline diagram ("@ + e@ + ")."@,
            RenderError::NoOutputProduced(c) =>
                "PlantUML did not generate an image, did you forget the @startuml, @enduml block ("@
                + c@ + ")?"@,
            RenderError::CopyFailed { from, to, reason } =>
                "Error copying the generated PlantUML image "@ + from@ + " to "@ + to@ + " ("@
                + reason@ + ")."@,
        }
    }

    /// The human-readable message of this error.
    pub fn to_string(&self) -> (r: String)
        ensures
            r@ == self.spec_message(),
    {
        match self {
            RenderError::ScratchWriteFailed(e) => {
                let mut r = String::from_str("Failed to create temp file for inline diagram (");
                r.append(e.as_str());
                r.append(").");
                r
            },
            RenderError::CommandFailed(e) => {
                let mut r = String::from_str("Failed to render inline diagram (");
                r.append(e.as_str());
                r.append(").");
                r
            },
            RenderError::NoOutputProduced(c) => {
                let mut r = String::from_str(
                    "PlantUML did not generate an image, did you forget the @startuml, @enduml block (",
                );
                r.append(c.as_str());
                r.append(")?");
                r
            },
            RenderError::CopyFailed { from, to, reason } => {
                let mut r = String::from_str("Error copying the generated PlantUML image ");
                r.append(from.as_str());
                r.append(" to ");
                r.append(to.as_str());
                r.append(" (");
                r.append(reason.as_str());
                r.append(").");
                r
            },
        }
    }
}

/// Invokes PlantUML as a shell program.
pub struct PlantUMLShell {
    /// The command that starts PlantUML, with any extra flags of the user.
    pub plantuml_cmd: String,
    /// The directory where rendered images are cached.
    pub img_root: String,
    /// The private scratch directory of this backend.
    pub generation_dir: String,
    /// The image format, which is also the extension of rendered images.
    pub image_format: String,
}

impl PlantUMLShell {
    pub open spec fn same_config(&self, other: &PlantUMLShell) -> bool {
        &&& self.plantuml_cmd@ == other.plantuml_cmd@
        &&& self.img_root@ == other.img_root@
        &&& self.generation_dir@ == other.generation_dir@
        &&& self.image_format@ == other.image_format@
    }

    pub fn new(plantuml_cmd: String, img_root: String, generation_dir: String, image_format: String) -> (r:
        PlantUMLShell)
        ensures
            r.plantuml_cmd@ == plantuml_cmd@,
            r.img_root@ == img_root@,
            r.generation_dir@ == generation_dir@,
            r.image_format@ == image_format@,
    {
        PlantUMLShell { plantuml_cmd, img_root, generation_dir, image_format }
    }

    fn duplicate(&self) -> (r: PlantUMLShell)
        ensures
            r.same_config(self),
    {
        PlantUMLShell {
            plantuml_cmd: self.plantuml_cmd.clone(),
            img_root: self.img_root.clone(),
            generation_dir: self.generation_dir.clone(),
            image_format: self.image_format.clone(),
        }
    }

    /// The command line arguments that render the diagram source `file` as
    /// `extension`.
    pub fn get_cmd_arguments(&self, file: &String, extension: &String) -> (r: Vec<String>)
        ensures
            r.deep_view() == cmd_arguments(self.plantuml_cmd@, file@, extension@),
    {
        let mut args: Vec<String> = Vec::new();
        args.push(self.plantuml_cmd.clone());
        args.push(add_extension_flag(extension));
        args.push(String::from_str("-nometadata"));
        args.push(file.clone());
        proof {
            assert(args.deep_view() =~= cmd_arguments(self.plantuml_cmd@, file@, extension@));
        }
        args
    }

    /// The scratch source and scratch image paths for `plantuml_code`: both
    /// carry the digest of the code as base name, the first with the
    /// extension `puml`, the second with that of the image format.
    pub fn get_filenames(&self, plantuml_code: &String) -> (r: (String, String))
        ensures
            r.0@ == image_path(self.generation_dir@, plantuml_code@, "puml"@),
            r.1@ == image_path(self.generation_dir@, plantuml_code@, self.image_format@),
    {
        let digest = sha1_hex(plantuml_code.as_str());
        let src_name = add_extension(digest.as_str(), "puml");
        let img_name = add_extension(digest.as_str(), self.image_format.as_str());
        (
            path_join(self.generation_dir.as_str(), src_name.as_str()),
            path_join(self.generation_dir.as_str(), img_name.as_str()),
        )
    }

    /// Starts rendering `plantuml_code`; the first action asks whether the
    /// cached image already exists.
    pub fn start_render(&self, plantuml_code: &String) -> (r: (RenderSession, RenderAction))
        ensures
            r.0.wf(),
            r.0.stage == RenderStage::CheckTarget,
            r.0.shell.same_config(self),
            r.0.source@ == plantuml_code@,
            r.0.target@ == image_path(self.img_root@, plantuml_code@, self.image_format@),
            r.1 matches RenderAction::CheckExists { path } && path@ == r.0.target@,
    {
        let target = get_image_filename(
            self.img_root.as_str(),
            plantuml_code.as_str(),
            self.image_format.as_str(),
        );
        let (scratch_source, scratch_image) = self.get_filenames(plantuml_code);
        let action = RenderAction::CheckExists { path: target.clone() };
        let session = RenderSession {
            shell: self.duplicate(),
            source: plantuml_code.clone(),
            target,
            scratch_source,
            scratch_image,
            stage: RenderStage::CheckTarget,
        };
        (session, action)
    }
}

/// `-t` followed by the image format.
fn add_extension_flag(extension: &String) -> (r: String)
    ensures
        r@ == "-t"@ + extension@,
{
    let mut r = String::from_str("-t");
    r.append(extension.as_str());
    r
}

/// Where a render stands: the outcome it waits for next.
#[derive(PartialEq, Eq, Structural, Clone, Copy, Debug)]
pub enum RenderStage {
    /// Waits to learn whether the cached image exists.
    CheckTarget,
    /// Waits for the diagram source to be written to the scratch source path.
    WriteSource,
    /// Waits for PlantUML to finish.
    RunCommand,
    /// Waits to learn whether PlantUML wrote the scratch image.
    CheckImage,
    /// Waits for the scratch image to be copied to the cached path.
    CopyImage,
    /// The render is over.
    Done,
}

/// The outcome of the last action, reported by the driver.
pub enum RenderEvent {
    /// Whether the asked path exists.
    Exists(bool),
    /// A write, a command or a copy completed, or failed with a reason.
    Completed(Result<(), String>),
}

/// The effect that the driver performs next.
pub enum RenderAction {
    /// Check whether `path` exists; answer with `RenderEvent::Exists`.
    CheckExists { path: String },
    /// Write `contents` to `path`; answer with `RenderEvent::Completed`.
    WriteFile { path: String, contents: String },
    /// Run the joined `args` through the shell; answer with `RenderEvent::Completed`.
    Execute { args: Vec<String> },
    /// Copy the file `from` to `to`; answer with `RenderEvent::Completed`.
    CopyFile { from: String, to: String },
    /// The render ended with this result.
    Finish { result: Result<String, RenderError> },
}

/// One render of one diagram text.
pub struct RenderSession {
    pub shell: PlantUMLShell,
    pub source: String,
    pub target: String,
    pub scratch_source: String,
    pub scratch_image: String,
    pub stage: RenderStage,
}

impl RenderSession {
    /// The paths are those of the diagram text under the configuration.
    pub open spec fn wf(&self) -> bool {
        &&& self.target@ == image_path(self.shell.img_root@, self.source@, self.shell.image_format@)
        &&& self.scratch_source@ == image_path(self.shell.generation_dir@, self.source@, "puml"@)
        &&& self.scratch_image@ == image_path(
            self.shell.generation_dir@,
            self.source@,
            self.shell.image_format@,
        )
    }

    /// The arguments of the PlantUML run of this render.
    pub open spec fn spec_args(&self) -> Seq<Seq<char>> {
        cmd_arguments(self.shell.plantuml_cmd@, self.scratch_source@, self.shell.image_format@)
    }

    /// Whether `event` answers the action that this render waits on.
    pub open spec fn accepts(&self, event: RenderEvent) -> bool {
        match self.stage {
            RenderStage::CheckTarget | RenderStage::CheckImage => event is Exists,
            RenderStage::WriteSource | RenderStage::RunCommand | RenderStage::CopyImage => event is Completed,
            RenderStage::Done => false,
        }
    }

    /// Whether `event` answers the action that this render waits on.
    pub fn accepts_event(&self, event: &RenderEvent) -> (r: bool)
        ensures
            r == self.accepts(*event),
    {
        match self.stage {
            RenderStage::CheckTarget | RenderStage::CheckImage => matches!(event, RenderEvent::Exists(_)),
            RenderStage::WriteSource | RenderStage::RunCommand | RenderStage::CopyImage => matches!(event, RenderEvent::Completed(_)),
            RenderStage::Done => false,
        }
    }

    /// Takes the outcome of the last action and decides the next one.
    pub fn step(&mut self, event: RenderEvent) -> (action: RenderAction)
        requires
            old(self).accepts(event),
        ensures
            old(self).wf() ==> final(self).wf(),
            final(self).shell == old(self).shell,
            final(self).source == old(self).source,
            final(self).target == old(self).target,
            final(self).scratch_source == old(self).scratch_source,
            final(self).scratch_image == old(self).scratch_image,
            // The cached image exists: the render ends with it, nothing is run.
            old(self).stage == RenderStage::CheckTarget && event == RenderEvent::Exists(true) ==> {
                &&& final(self).stage == RenderStage::Done
                &&& action matches RenderAction::Finish { result: Ok(p) } && p@ == old(self).target@
            },
            old(self).stage == RenderStage::CheckTarget && event == RenderEvent::Exists(false) ==> {
                &&& final(self).stage == RenderStage::WriteSource
                &&& action matches RenderAction::WriteFile { path, contents } && path@
                    == old(self).scratch_source@ && contents@ == old(self).source@
            },
            old(self).stage == RenderStage::WriteSource ==> (event matches RenderEvent::Completed(Ok(_))
                ==> {
                &&& final(self).stage == RenderStage::RunCommand
                &&& action matches RenderAction::Execute { args } && args.deep_view() == old(
                    self,
                ).spec_args()
            }),
            old(self).stage == RenderStage::WriteSource ==> (event matches RenderEvent::Completed(Err(e))
                ==> {
                &&& final(self).stage == RenderStage::Done
                &&& action matches RenderAction::Finish {
                    result: Err(RenderError::ScratchWriteFailed(m)),
                } && m@ == e@
            }),
            old(self).stage == RenderStage::RunCommand ==> (event matches RenderEvent::Completed(Ok(_))
                ==> {
                &&& final(self).stage == RenderStage::CheckImage
                &&& action matches RenderAction::CheckExists { path } && path@
                    == old(self).scratch_image@
            }),
            old(self).stage == RenderStage::RunCommand ==> (event matches RenderEvent::Completed(Err(e))
                ==> {
                &&& final(self).stage == RenderStage::Done
                &&& action matches RenderAction::Finish {
                    result: Err(RenderError::CommandFailed(m)),
                } && m@ == e@
            }),
            old(self).stage == RenderStage::CheckImage && event == RenderEvent::Exists(true) ==> {
                &&& final(self).stage == RenderStage::CopyImage
                &&& action matches RenderAction::CopyFile { from, to } && from@
                    == old(self).scratch_image@ && to@ == old(self).target@
            },
            old(self).stage == RenderStage::CheckImage && event == RenderEvent::Exists(false) ==> {
                &&& final(self).stage == RenderStage::Done
                &&& action matches RenderAction::Finish {
                    result: Err(RenderError::NoOutputProduced(c)),
                } && c@ == join_words(old(self).spec_args())
            },
            old(self).stage == RenderStage::CopyImage ==> (event matches RenderEvent::Completed(Ok(_))
                ==> {
                &&& final(self).stage == RenderStage::Done
                &&& action matches RenderAction::Finish { result: Ok(p) } && p@ == old(self).target@
            }),
            old(self).stage == RenderStage::CopyImage ==> (event matches RenderEvent::Completed(Err(e))
                ==> {
                &&& final(self).stage == RenderStage::Done
                &&& action matches RenderAction::Finish {
                    result: Err(RenderError::CopyFailed { from, to, reason }),
                } && from@ == old(self).scratch_image@ && to@ == old(self).target@ && reason@
                    == e@
            }),
    {
        match event {
            RenderEvent::Exists(found) => {
                if self.stage == RenderStage::CheckTarget {
                    if found {
                        self.stage = RenderStage::Done;
                        RenderAction::Finish { result: Ok(self.target.clone()) }
                    } else {
                        self.stage = RenderStage::WriteSource;
                        RenderAction::WriteFile {
                            path: self.scratch_source.clone(),
                            contents: self.source.clone(),
                        }
                    }
                } else if found {
                    self.stage = RenderStage::CopyImage;
                    RenderAction::CopyFile {
                        from: self.scratch_image.clone(),
                        to: self.target.clone(),
                    }
                } else {
                    self.stage = RenderStage::Done;
                    let args = self.shell.get_cmd_arguments(
                        &self.scratch_source,
                        &self.shell.image_format,
                    );
                    RenderAction::Finish {
                        result: Err(RenderError::NoOutputProduced(join_args(&args))),
                    }
                }
            },
            RenderEvent::Completed(outcome) => {
                if self.stage == RenderStage::WriteSource {
                    match outcome {
                        Ok(()) => {
                            self.stage = RenderStage::RunCommand;
                            let args = self.shell.get_cmd_arguments(
                                &self.scratch_source,
                                &self.shell.image_format,
                            );
                            RenderAction::Execute { args }
                        },
                        Err(e) => {
                            self.stage = RenderStage::Done;
                            RenderAction::Finish { result: Err(RenderError::ScratchWriteFailed(e)) }
                        },
                    }
                } else if self.stage == RenderStage::RunCommand {
                    match outcome {
                        Ok(()) => {
                            self.stage = RenderStage::CheckImage;
                            RenderAction::CheckExists { path: self.scratch_image.clone() }
                        },
                        Err(e) => {
                            self.stage = RenderStage::Done;
                            RenderAction::Finish { result: Err(RenderError::CommandFailed(e)) }
                        },
                    }
                } else {
                    self.stage = RenderStage::Done;
                    match outcome {
                        Ok(()) => RenderAction::Finish { result: Ok(self.target.clone()) },
                        Err(e) => RenderAction::Finish {
                            result: Err(
                                RenderError::CopyFailed {
                                    from: self.scratch_image.clone(),
                                    to: self.target.clone(),
                                    reason: e,
                                },
                            ),
                        },
                    }
                }
            },
        }
    }
}

/// Two renders under one output root and one format whose texts have
/// distinct digests copy their images to distinct cached paths, and, sharing
/// a scratch directory, stage them in distinct scratch files: neither
/// overwrites the other's image.
pub proof fn distinct_texts_render_to_distinct_files(a: RenderSession, b: RenderSession)
    requires
        a.wf(),
        b.wf(),
        a.shell.img_root@ == b.shell.img_root@,
        a.shell.image_format@ == b.shell.image_format@,
        sha1_hex_of(a.source@) != sha1_hex_of(b.source@),
    ensures
        a.target@ != b.target@,
        a.shell.generation_dir@ == b.shell.generation_dir@ ==> a.scratch_image@ != b.scratch_image@
            && a.scratch_source@ != b.scratch_source@,
{
    image_path_identifies_digest(a.shell.img_root@, a.source@, b.source@, a.shell.image_format@);
    image_path_identifies_digest(
        a.shell.generation_dir@,
        a.source@,
        b.source@,
        a.shell.image_format@,
    );
    image_path_identifies_digest(a.shell.generation_dir@, a.source@, b.source@, "puml"@);
}

} // verus!
