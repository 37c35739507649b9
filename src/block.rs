use vstd::prelude::*;
use crate::params::{ImageType, SampleMethodT};
use crate::scalar::Real32;

verus! {

/// Encoding of 7.0, the default guidance scale.
pub const DEFAULT_CFG_SCALE_BITS: u32 = 0x40E0_0000;

/// Encoding of 0.9, the default control strength.
pub const DEFAULT_CONTROL_STRENGTH_BITS: u32 = 0x3F66_6666;

/// Encoding of 20.0, the default style ratio.
pub const DEFAULT_STYLE_RATIO_BITS: u32 = 0x41A0_0000;

/// Default image width and height.
pub const DEFAULT_SIDE: i32 = 512;

/// Default number of sample steps.
pub const DEFAULT_SAMPLE_STEPS: i32 = 20;

/// Default seed.
pub const DEFAULT_SEED: i32 = 42;

/// The generation parameters shared by both task kinds, together with the
/// backend session they are sent to.
#[derive(Debug, Clone)]
pub struct BaseContext {
    pub session_id: u32,
    pub prompt: String,
    pub width: i32,
    pub height: i32,
    pub control_image: ImageType,
    pub negative_prompt: String,
    pub clip_skip: i32,
    pub cfg_scale: Real32,
    pub sample_method: SampleMethodT,
    pub sample_steps: i32,
    pub seed: i32,
    pub batch_count: i32,
    pub control_strength: Real32,
    pub style_ratio: Real32,
    pub normalize_input: bool,
    pub input_id_images_dir: String,
    pub canny_preprocess: bool,
    pub upscale_model: String,
    pub upscale_repeats: i32,
    pub output_path: String,
}

/// One setting of the parameter block: which field, and its new value.
pub enum Param {
    Prompt(String),
    Width(i32),
    Height(i32),
    ControlImage(ImageType),
    NegativePrompt(String),
    ClipSkip(i32),
    CfgScale(Real32),
    SampleMethod(SampleMethodT),
    SampleSteps(i32),
    Seed(i32),
    BatchCount(i32),
    ControlStrength(Real32),
    StyleRatio(Real32),
    NormalizeInput(bool),
    InputIdImagesDir(String),
    CannyPreprocess(bool),
    UpscaleModel(String),
    UpscaleRepeats(i32),
    OutputPath(String),
}

/// The field of the block that a setting writes.
pub open spec fn param_field(p: Param) -> nat {
    match p {
        Param::Prompt(_) => 0,
        Param::Width(_) => 1,
        Param::Height(_) => 2,
        Param::ControlImage(_) => 3,
        Param::NegativePrompt(_) => 4,
        Param::ClipSkip(_) => 5,
        Param::CfgScale(_) => 6,
        Param::SampleMethod(_) => 7,
        Param::SampleSteps(_) => 8,
        Param::Seed(_) => 9,
        Param::BatchCount(_) => 10,
        Param::ControlStrength(_) => 11,
        Param::StyleRatio(_) => 12,
        Param::NormalizeInput(_) => 13,
        Param::InputIdImagesDir(_) => 14,
        Param::CannyPreprocess(_) => 15,
        Param::UpscaleModel(_) => 16,
        Param::UpscaleRepeats(_) => 17,
        Param::OutputPath(_) => 18,
    }
}

/// The block after a setting: its field holds the new value, every other
/// field (the session included) is as before.
pub open spec fn applied(b: BaseContext, p: Param) -> BaseContext {
    match p {
        Param::Prompt(v) => BaseContext { prompt: v, ..b },
        Param::Width(v) => BaseContext { width: v, ..b },
        Param::Height(v) => BaseContext { height: v, ..b },
        Param::ControlImage(v) => BaseContext { control_image: v, ..b },
        Param::NegativePrompt(v) => BaseContext { negative_prompt: v, ..b },
        Param::ClipSkip(v) => BaseContext { clip_skip: v, ..b },
        Param::CfgScale(v) => BaseContext { cfg_scale: v, ..b },
        Param::SampleMethod(v) => BaseContext { sample_method: v, ..b },
        Param::SampleSteps(v) => BaseContext { sample_steps: v, ..b },
        Param::Seed(v) => BaseContext { seed: v, ..b },
        Param::BatchCount(v) => BaseContext { batch_count: v, ..b },
        Param::ControlStrength(v) => BaseContext { control_strength: v, ..b },
        Param::StyleRatio(v) => BaseContext { style_ratio: v, ..b },
        Param::NormalizeInput(v) => BaseContext { normalize_input: v, ..b },
        Param::InputIdImagesDir(v) => BaseContext { input_id_images_dir: v, ..b },
        Param::CannyPreprocess(v) => BaseContext { canny_preprocess: v, ..b },
        Param::UpscaleModel(v) => BaseContext { upscale_model: v, ..b },
        Param::UpscaleRepeats(v) => BaseContext { upscale_repeats: v, ..b },
        Param::OutputPath(v) => BaseContext { output_path: v, ..b },
    }
}

/// Whether a block holds the documented defaults for a session.
pub open spec fn has_defaults(b: BaseContext, session_id: u32) -> bool {
    &&& b.session_id == session_id
    &&& b.prompt@.len() == 0
    &&& b.width == DEFAULT_SIDE
    &&& b.height == DEFAULT_SIDE
    &&& b.control_image matches ImageType::Path(p) && p@.len() == 0
    &&& b.negative_prompt@.len() == 0
    &&& b.clip_skip == -1
    &&& b.cfg_scale.bits == DEFAULT_CFG_SCALE_BITS
    &&& b.sample_method == SampleMethodT::EULERA
    &&& b.sample_steps == DEFAULT_SAMPLE_STEPS
    &&& b.seed == DEFAULT_SEED
    &&& b.batch_count == 1
    &&& b.control_strength.bits == DEFAULT_CONTROL_STRENGTH_BITS
    &&& b.style_ratio.bits == DEFAULT_STYLE_RATIO_BITS
    &&& !b.normalize_input
    &&& b.input_id_images_dir@.len() == 0
    &&& !b.canny_preprocess
    &&& b.upscale_model@.len() == 0
    &&& b.upscale_repeats == 1
    &&& b.output_path@.len() == 0
}

/// Settings of two different fields commute: applied in either order they
/// give the same block.
pub proof fn lemma_distinct_settings_commute(b: BaseContext, p: Param, q: Param)
    requires
        param_field(p) != param_field(q),
    ensures
        applied(applied(b, p), q) == applied(applied(b, q), p),
{
}

/// Of two settings of the same field only the later one counts.
pub proof fn lemma_last_setting_wins(b: BaseContext, p: Param, q: Param)
    requires
        param_field(p) == param_field(q),
    ensures
        applied(applied(b, p), q) == applied(b, q),
{
}

impl BaseContext {
    /// A block with the documented defaults, bound to a session.
    pub fn new(session_id: u32) -> (r: BaseContext)
        ensures
            has_defaults(r, session_id),
    {
        BaseContext {
            session_id,
            prompt: String::new(),
            width: DEFAULT_SIDE,
            height: DEFAULT_SIDE,
            control_image: ImageType::none(),
            negative_prompt: String::new(),
            clip_skip: -1,
            cfg_scale: Real32::from_bits(DEFAULT_CFG_SCALE_BITS),
            sample_method: SampleMethodT::EULERA,
            sample_steps: DEFAULT_SAMPLE_STEPS,
            seed: DEFAULT_SEED,
            batch_count: 1,
            control_strength: Real32::from_bits(DEFAULT_CONTROL_STRENGTH_BITS),
            style_ratio: Real32::from_bits(DEFAULT_STYLE_RATIO_BITS),
            normalize_input: false,
            input_id_images_dir: String::new(),
            canny_preprocess: false,
            upscale_model: String::new(),
            upscale_repeats: 1,
            output_path: String::new(),
        }
    }

    /// Applies one setting; nothing reaches the backend.
    pub fn apply(&mut self, p: Param)
        ensures
            *final(self) == applied(*old(self), p),
    {
        match p {
            Param::Prompt(v) => self.prompt = v,
            Param::Width(v) => self.width = v,
            Param::Height(v) => self.height = v,
            Param::ControlImage(v) => self.control_image = v,
            Param::NegativePrompt(v) => self.negative_prompt = v,
            Param::ClipSkip(v) => self.clip_skip = v,
            Param::CfgScale(v) => self.cfg_scale = v,
            Param::SampleMethod(v) => self.sample_method = v,
            Param::SampleSteps(v) => self.sample_steps = v,
            Param::Seed(v) => self.seed = v,
            Param::BatchCount(v) => self.batch_count = v,
            Param::ControlStrength(v) => self.control_strength = v,
            Param::StyleRatio(v) => self.style_ratio = v,
            Param::NormalizeInput(v) => self.normalize_input = v,
            Param::InputIdImagesDir(v) => self.input_id_images_dir = v,
            Param::CannyPreprocess(v) => self.canny_preprocess = v,
            Param::UpscaleModel(v) => self.upscale_model = v,
            Param::UpscaleRepeats(v) => self.upscale_repeats = v,
            Param::OutputPath(v) => self.output_path = v,
        }
    }

    /// Sets the prompt to render; every other field is kept.
    pub fn set_prompt(&mut self, prompt: String)
        ensures
            *final(self) == applied(*old(self), Param::Prompt(prompt)),
    {
        self.prompt = prompt;
    }

    /// Sets the image width; every other field is kept.
    pub fn set_width(&mut self, width: i32)
        ensures
            *final(self) == applied(*old(self), Param::Width(width)),
    {
        self.width = width;
    }

    /// Sets the image height; every other field is kept.
    pub fn set_height(&mut self, height: i32)
        ensures
            *final(self) == applied(*old(self), Param::Height(height)),
    {
        self.height = height;
    }

    /// Sets the control image; every other field is kept.
    pub fn set_control_image(&mut self, control_image: ImageType)
        ensures
            *final(self) == applied(*old(self), Param::ControlImage(control_image)),
    {
        self.control_image = control_image;
    }

    /// Sets the negative prompt; every other field is kept.
    pub fn set_negative_prompt(&mut self, negative_prompt: String)
        ensures
            *final(self) == applied(*old(self), Param::NegativePrompt(negative_prompt)),
    {
        self.negative_prompt = negative_prompt;
    }

    /// Sets how many final CLIP layers to skip; every other field is kept.
    pub fn set_clip_skip(&mut self, clip_skip: i32)
        ensures
            *final(self) == applied(*old(self), Param::ClipSkip(clip_skip)),
    {
        self.clip_skip = clip_skip;
    }

    /// Sets the guidance scale; every other field is kept.
    pub fn set_cfg_scale(&mut self, cfg_scale: Real32)
        ensures
            *final(self) == applied(*old(self), Param::CfgScale(cfg_scale)),
    {
        self.cfg_scale = cfg_scale;
    }

    /// Sets the sampling method; every other field is kept.
    pub fn set_sample_method(&mut self, sample_method: SampleMethodT)
        ensures
            *final(self) == applied(*old(self), Param::SampleMethod(sample_method)),
    {
        self.sample_method = sample_method;
    }

    /// Sets the number of sample steps; every other field is kept.
    pub fn set_sample_steps(&mut self, sample_steps: i32)
        ensures
            *final(self) == applied(*old(self), Param::SampleSteps(sample_steps)),
    {
        self.sample_steps = sample_steps;
    }

    /// Sets the seed; every other field is kept.
    pub fn set_seed(&mut self, seed: i32)
        ensures
            *final(self) == applied(*old(self), Param::Seed(seed)),
    {
        self.seed = seed;
    }

    /// Sets the number of images per call; every other field is kept.
    pub fn set_batch_count(&mut self, batch_count: i32)
        ensures
            *final(self) == applied(*old(self), Param::BatchCount(batch_count)),
    {
        self.batch_count = batch_count;
    }

    /// Sets the control strength; every other field is kept.
    pub fn set_control_strength(&mut self, control_strength: Real32)
        ensures
            *final(self) == applied(*old(self), Param::ControlStrength(control_strength)),
    {
        self.control_strength = control_strength;
    }

    /// Sets the style ratio; every other field is kept.
    pub fn set_style_ratio(&mut self, style_ratio: Real32)
        ensures
            *final(self) == applied(*old(self), Param::StyleRatio(style_ratio)),
    {
        self.style_ratio = style_ratio;
    }

    /// Sets whether identity images are normalized; every other field is kept.
    pub fn set_normalize_input(&mut self, normalize_input: bool)
        ensures
            *final(self) == applied(*old(self), Param::NormalizeInput(normalize_input)),
    {
        self.normalize_input = normalize_input;
    }

    /// Sets the identity image directory; every other field is kept.
    pub fn set_input_id_images_dir(&mut self, input_id_images_dir: String)
        ensures
            *final(self) == applied(*old(self), Param::InputIdImagesDir(input_id_images_dir)),
    {
        self.input_id_images_dir = input_id_images_dir;
    }

    /// Sets whether the control image is edge-filtered first; every other field is kept.
    pub fn set_canny_preprocess(&mut self, canny_preprocess: bool)
        ensures
            *final(self) == applied(*old(self), Param::CannyPreprocess(canny_preprocess)),
    {
        self.canny_preprocess = canny_preprocess;
    }

    /// Sets the upscaler model path; every other field is kept.
    pub fn set_upscale_model(&mut self, upscale_model: String)
        ensures
            *final(self) == applied(*old(self), Param::UpscaleModel(upscale_model)),
    {
        self.upscale_model = upscale_model;
    }

    /// Sets how many times the upscaler runs; every other field is kept.
    pub fn set_upscale_repeats(&mut self, upscale_repeats: i32)
        ensures
            *final(self) == applied(*old(self), Param::UpscaleRepeats(upscale_repeats)),
    {
        self.upscale_repeats = upscale_repeats;
    }

    /// Sets where the backend writes the image; every other field is kept.
    pub fn set_output_path(&mut self, output_path: String)
        ensures
            *final(self) == applied(*old(self), Param::OutputPath(output_path)),
    {
        self.output_path = output_path;
    }

    /// Replaces every parameter at once; the session is kept.
    pub fn set_base_params(
        &mut self,
        prompt: String,
        width: i32,
        height: i32,
        control_image: ImageType,
        negative_prompt: String,
        clip_skip: i32,
        cfg_scale: Real32,
        sample_method: SampleMethodT,
        sample_steps: i32,
        seed: i32,
        batch_count: i32,
        control_strength: Real32,
        style_ratio: Real32,
        normalize_input: bool,
        input_id_images_dir: String,
        canny_preprocess: bool,
        upscale_model: String,
        upscale_repeats: i32,
        output_path: String,
    )
        ensures
            *final(self) == (BaseContext {
                session_id: old(self).session_id,
                prompt,
                width,
                height,
                control_image,
                negative_prompt,
                clip_skip,
                cfg_scale,
                sample_method,
                sample_steps,
                seed,
                batch_count,
                control_strength,
                style_ratio,
                normalize_input,
                input_id_images_dir,
                canny_preprocess,
                upscale_model,
                upscale_repeats,
                output_path,
            }),
    {
        self.prompt = prompt;
        self.width = width;
        self.height = height;
        self.control_image = control_image;
        self.negative_prompt = negative_prompt;
        self.clip_skip = clip_skip;
        self.cfg_scale = cfg_scale;
        self.sample_method = sample_method;
        self.sample_steps = sample_steps;
        self.seed = seed;
        self.batch_count = batch_count;
        self.control_strength = control_strength;
        self.style_ratio = style_ratio;
        self.normalize_input = normalize_input;
        self.input_id_images_dir = input_id_images_dir;
        self.canny_preprocess = canny_preprocess;
        self.upscale_model = upscale_model;
        self.upscale_repeats = upscale_repeats;
        self.output_path = output_path;
    }
}

} // verus!
