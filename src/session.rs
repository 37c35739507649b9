use vstd::prelude::*;
use crate::block::{has_defaults, BaseContext};
use crate::error::{result_from_status, status_outcome, SdError, STATUS_SUCCESS};
use crate::params::{image_is_empty, ImageType, RngTypeT, ScheduleT, SdTypeT};
use crate::scalar::Real32;
use crate::task::Task;

verus! {

/// Capacity in bytes of the scratch buffer handed to the backend with each
/// generation call: an upper bound on the encoded image it may write there.
pub const OUTPUT_BUFFER_LEN: usize = 1_000_000;

/// Encoding of 0.75, the default denoising strength of image-to-image.
pub const DEFAULT_STRENGTH_BITS: u32 = 0x3F40_0000;

/// Everything the backend needs to open a session: the task, the model and
/// its auxiliary files, and the engine-wide options.
#[derive(Debug, Clone)]
pub struct StableDiffusion {
    pub task: Task,
    pub model_path: String,
    pub vae_path: String,
    pub taesd_path: String,
    pub control_net_path: String,
    pub lora_model_dir: String,
    pub embed_dir: String,
    pub id_embed_dir: String,
    pub vae_decode_only: bool,
    pub vae_tiling: bool,
    pub n_threads: i32,
    pub wtype: SdTypeT,
    pub rng_type: RngTypeT,
    pub schedule: ScheduleT,
    pub clip_on_cpu: bool,
    pub control_net_cpu: bool,
    pub vae_on_cpu: bool,
}

/// A text-to-image session with its parameters.
#[derive(Debug, Clone)]
pub struct TextToImage {
    pub common: BaseContext,
}

/// An image-to-image session: the shared parameters, the source image and
/// the denoising strength.
#[derive(Debug, Clone)]
pub struct ImageToImage {
    pub common: BaseContext,
    pub image: ImageType,
    pub strength: Real32,
}

/// A session of either task kind.
#[derive(Debug, Clone)]
pub enum Context {
    TextToImage(TextToImage),
    ImageToImage(ImageToImage),
}

/// What the checks before a text-to-image call decide: a prompt is required.
pub open spec fn text_check(c: TextToImage) -> Result<(), SdError> {
    if c.common.prompt@.len() == 0 {
        Err(SdError::InvalidArgument)
    } else {
        Ok(())
    }
}

/// What the checks before an image-to-image call decide: a prompt and a
/// source image are required.
pub open spec fn image_check(c: ImageToImage) -> Result<(), SdError> {
    if c.common.prompt@.len() == 0 || image_is_empty(c.image) {
        Err(SdError::InvalidArgument)
    } else {
        Ok(())
    }
}

/// What the checks before a generation call decide, for either kind.
pub open spec fn context_check(c: Context) -> Result<(), SdError> {
    match c {
        Context::TextToImage(t) => text_check(t),
        Context::ImageToImage(i) => image_check(i),
    }
}

/// The result of a generation: a failed check, or else what the backend's
/// status says.
pub open spec fn generation_outcome(check: Result<(), SdError>, status: u32) -> Result<(), SdError> {
    match check {
        Err(e) => Err(e),
        Ok(()) => status_outcome(status),
    }
}

/// Whether a scratch buffer is fresh: of the full capacity and zeroed.
pub open spec fn is_fresh_buffer(b: Seq<u8>) -> bool {
    &&& b.len() == OUTPUT_BUFFER_LEN
    &&& forall|i: int| 0 <= i < b.len() ==> b[i] == 0u8
}

/// A zeroed scratch buffer of the full capacity, for one backend call.
fn scratch_buffer() -> (r: Vec<u8>)
    ensures
        is_fresh_buffer(r@),
{
    let v: Vec<u8> = vec![0u8; OUTPUT_BUFFER_LEN];
    v
}

/// Whether a context is a fresh session of the descriptor's task kind,
/// bound to `session_id`, with every parameter at its default.
pub open spec fn is_fresh_context(c: Context, task: Task, session_id: u32) -> bool {
    match c {
        Context::TextToImage(t) => task == Task::TextToImage && has_defaults(t.common, session_id),
        Context::ImageToImage(i) => {
            &&& task == Task::ImageToImage
            &&& has_defaults(i.common, session_id)
            &&& i.image matches ImageType::Path(p) && p@.len() == 0
            &&& i.strength.bits == DEFAULT_STRENGTH_BITS
        },
    }
}

/// The shared parameters of a context of either kind.
pub open spec fn context_common(c: Context) -> BaseContext {
    match c {
        Context::TextToImage(t) => t.common,
        Context::ImageToImage(i) => i.common,
    }
}

/// A context of either kind with an empty prompt fails its checks with
/// `InvalidArgument`, so no backend call is made, and its generation result
/// is `InvalidArgument` whatever status would have come back.
pub proof fn lemma_empty_prompt_rejected(c: Context, status: u32)
    requires
        context_common(c).prompt@.len() == 0,
    ensures
        context_check(c) == Err::<(), SdError>(SdError::InvalidArgument),
        generation_outcome(context_check(c), status) == Err::<(), SdError>(SdError::InvalidArgument),
{
}

/// An image-to-image context with an empty source image fails its checks
/// with `InvalidArgument`, whatever its prompt, so no backend call is made,
/// and its generation result is `InvalidArgument` whatever the status.
pub proof fn lemma_empty_image_rejected(c: ImageToImage, status: u32)
    requires
        image_is_empty(c.image),
    ensures
        image_check(c) == Err::<(), SdError>(SdError::InvalidArgument),
        generation_outcome(image_check(c), status) == Err::<(), SdError>(SdError::InvalidArgument),
{
}

impl StableDiffusion {
    /// Describes a session to open. The VAE is only needed for decoding when
    /// no source image has to be encoded, that is for text-to-image.
    pub fn new(
        task: Task,
        model_path: &str,
        vae_path: &str,
        taesd_path: &str,
        control_net_path: &str,
        lora_model_dir: &str,
        embed_dir: &str,
        id_embed_dir: &str,
        vae_tiling: bool,
        n_threads: i32,
        wtype: SdTypeT,
        rng_type: RngTypeT,
        schedule: ScheduleT,
        clip_on_cpu: bool,
        control_net_cpu: bool,
        vae_on_cpu: bool,
    ) -> (r: StableDiffusion)
        ensures
            r.task == task,
            r.model_path@ == model_path@,
            r.vae_path@ == vae_path@,
            r.taesd_path@ == taesd_path@,
            r.control_net_path@ == control_net_path@,
            r.lora_model_dir@ == lora_model_dir@,
            r.embed_dir@ == embed_dir@,
            r.id_embed_dir@ == id_embed_dir@,
            r.vae_decode_only == (task == Task::TextToImage),
            r.vae_tiling == vae_tiling,
            r.n_threads == n_threads,
            r.wtype == wtype,
            r.rng_type == rng_type,
            r.schedule == schedule,
            r.clip_on_cpu == clip_on_cpu,
            r.control_net_cpu == control_net_cpu,
            r.vae_on_cpu == vae_on_cpu,
    {
        let vae_decode_only = match task {
            Task::TextToImage => true,
            Task::ImageToImage => false,
        };
        StableDiffusion {
            task,
            model_path: model_path.to_owned(),
            vae_path: vae_path.to_owned(),
            taesd_path: taesd_path.to_owned(),
            control_net_path: control_net_path.to_owned(),
            lora_model_dir: lora_model_dir.to_owned(),
            embed_dir: embed_dir.to_owned(),
            id_embed_dir: id_embed_dir.to_owned(),
            vae_decode_only,
            vae_tiling,
            n_threads,
            wtype,
            rng_type,
            schedule,
            clip_on_cpu,
            control_net_cpu,
            vae_on_cpu,
        }
    }

    /// Completes the opening of a session from the backend's answer to the
    /// session-creation call made with this descriptor: on success, a fresh
    /// context of the descriptor's task kind bound to `session_id`; on any
    /// other status, the mapped error and no context.
    pub fn create_context(&self, status: u32, session_id: u32) -> (r: Result<Context, SdError>)
        ensures
            status == STATUS_SUCCESS <==> r is Ok,
            r is Ok ==> is_fresh_context(r->Ok_0, self.task, session_id),
            r is Err ==> Err::<(), SdError>(r->Err_0) == status_outcome(status),
    {
        match result_from_status(status) {
            Err(e) => Err(e),
            Ok(()) => {
                let common = BaseContext::new(session_id);
                match self.task {
                    Task::TextToImage => Ok(Context::TextToImage(TextToImage { common })),
                    Task::ImageToImage => Ok(
                        Context::ImageToImage(
                            ImageToImage {
                                common,
                                image: ImageType::none(),
                                strength: Real32::from_bits(DEFAULT_STRENGTH_BITS),
                            },
                        ),
                    ),
                }
            },
        }
    }
}

impl TextToImage {
    /// The checks before a backend call: with no prompt this is
    /// `InvalidArgument` and no call is to be made; otherwise a fresh scratch
    /// buffer for the call.
    pub fn prepare(&self) -> (r: Result<Vec<u8>, SdError>)
        ensures
            r is Err <==> text_check(*self) is Err,
            r is Err ==> r->Err_0 == SdError::InvalidArgument,
            r is Ok ==> is_fresh_buffer(r->Ok_0@),
    {
        if self.common.prompt.as_str().is_empty() {
            Err(SdError::InvalidArgument)
        } else {
            Ok(scratch_buffer())
        }
    }

    /// The result of a generation, given the status of the backend call, or
    /// any value where the checks failed and no call was made.
    pub fn generate(&self, status: u32) -> (r: Result<(), SdError>)
        ensures
            r == generation_outcome(text_check(*self), status),
    {
        if self.common.prompt.as_str().is_empty() {
            Err(SdError::InvalidArgument)
        } else {
            result_from_status(status)
        }
    }
}

impl ImageToImage {
    /// Sets the source image; every other field is kept.
    pub fn set_image(&mut self, image: ImageType)
        ensures
            *final(self) == (ImageToImage { image, ..*old(self) }),
    {
        self.image = image;
    }

    /// Sets the denoising strength; every other field is kept.
    pub fn set_strength(&mut self, strength: Real32)
        ensures
            *final(self) == (ImageToImage { strength, ..*old(self) }),
    {
        self.strength = strength;
    }

    /// The checks before a backend call: with no prompt or no source image
    /// this is `InvalidArgument` and no call is to be made; otherwise a fresh
    /// scratch buffer for the call.
    pub fn prepare(&self) -> (r: Result<Vec<u8>, SdError>)
        ensures
            r is Err <==> image_check(*self) is Err,
            r is Err ==> r->Err_0 == SdError::InvalidArgument,
            r is Ok ==> is_fresh_buffer(r->Ok_0@),
    {
        if self.common.prompt.as_str().is_empty() || self.image.is_empty() {
            Err(SdError::InvalidArgument)
        } else {
            Ok(scratch_buffer())
        }
    }

    /// The result of a generation, given the status of the backend call, or
    /// any value where the checks failed and no call was made.
    pub fn generate(&self, status: u32) -> (r: Result<(), SdError>)
        ensures
            r == generation_outcome(image_check(*self), status),
    {
        if self.common.prompt.as_str().is_empty() || self.image.is_empty() {
            Err(SdError::InvalidArgument)
        } else {
            result_from_status(status)
        }
    }
}

impl Context {
    /// The shared parameters of either kind.
    pub fn common(&self) -> (r: &BaseContext)
        ensures
            *r == context_common(*self),
    {
        match self {
            Context::TextToImage(t) => &t.common,
            Context::ImageToImage(i) => &i.common,
        }
    }

    /// The checks before a backend call, for either kind.
    pub fn prepare(&self) -> (r: Result<Vec<u8>, SdError>)
        ensures
            r is Err <==> context_check(*self) is Err,
            r is Err ==> r->Err_0 == SdError::InvalidArgument,
            r is Ok ==> is_fresh_buffer(r->Ok_0@),
    {
        match self {
            Context::TextToImage(t) => t.prepare(),
            Context::ImageToImage(i) => i.prepare(),
        }
    }

    /// The result of a generation, for either kind.
    pub fn generate(&self, status: u32) -> (r: Result<(), SdError>)
        ensures
            r == generation_outcome(context_check(*self), status),
    {
        match self {
            Context::TextToImage(t) => t.generate(status),
            Context::ImageToImage(i) => i.generate(status),
        }
    }
}

/// A one-shot conversion of a model file to another weight precision; it
/// needs no session.
#[derive(Debug, Clone)]
pub struct Quantization {
    pub model_path: String,
    pub vae_model_path: String,
    pub output_path: String,
    pub wtype: SdTypeT,
}

impl Quantization {
    /// Describes a conversion of `model_path` into `output_path` at precision
    /// `wtype`, with no separate VAE model.
    pub fn new(model_path: &str, output_path: &str, wtype: SdTypeT) -> (r: Quantization)
        ensures
            r.model_path@ == model_path@,
            r.vae_model_path@.len() == 0,
            r.output_path@ == output_path@,
            r.wtype == wtype,
    {
        Quantization {
            model_path: model_path.to_owned(),
            vae_model_path: String::new(),
            output_path: output_path.to_owned(),
            wtype,
        }
    }

    /// The result of a conversion, given the status of the backend call.
    pub fn convert(&self, status: u32) -> (r: Result<(), SdError>)
        ensures
            r == status_outcome(status),
    {
        result_from_status(status)
    }
}

} // verus!
