use wasmedge_stable_diffusion::block::{BaseContext, Param};
use wasmedge_stable_diffusion::error::{result_from_status, SdError};
use wasmedge_stable_diffusion::params::{ImageType, RngTypeT, SampleMethodT, ScheduleT, SdTypeT};
use wasmedge_stable_diffusion::scalar::Real32;
use wasmedge_stable_diffusion::session::{
    Context, ImageToImage, Quantization, StableDiffusion, TextToImage, OUTPUT_BUFFER_LEN,
};
use wasmedge_stable_diffusion::task::Task;

fn descriptor(task: Task) -> StableDiffusion {
    StableDiffusion::new(
        task,
        "model.gguf",
        "",
        "",
        "",
        "",
        "",
        "",
        false,
        4,
        SdTypeT::SdTypeQ8_0,
        RngTypeT::StdDefaultRng,
        ScheduleT::DEFAULT,
        false,
        false,
        false,
    )
}

fn text_context() -> TextToImage {
    match descriptor(Task::TextToImage).create_context(0, 7) {
        Ok(Context::TextToImage(t)) => t,
        _ => panic!("expected a text-to-image context"),
    }
}

fn image_context() -> ImageToImage {
    match descriptor(Task::ImageToImage).create_context(0, 9) {
        Ok(Context::ImageToImage(i)) => i,
        _ => panic!("expected an image-to-image context"),
    }
}

fn num(x: f32) -> Real32 {
    Real32::from_bits(x.to_bits())
}

#[test]
fn descriptor_derives_vae_decode_only_from_task() {
    let t = descriptor(Task::TextToImage);
    assert!(t.vae_decode_only);
    assert_eq!(t.model_path, "model.gguf");
    assert_eq!(t.n_threads, 4);
    let i = descriptor(Task::ImageToImage);
    assert!(!i.vae_decode_only);
}

#[test]
fn fresh_context_has_documented_defaults() {
    let t = text_context();
    let b = &t.common;
    assert_eq!(b.session_id, 7);
    assert_eq!(b.prompt, "");
    assert_eq!(b.width, 512);
    assert_eq!(b.height, 512);
    assert_eq!(b.clip_skip, -1);
    assert_eq!(b.cfg_scale.bits, 7.0f32.to_bits());
    assert_eq!(b.sample_method, SampleMethodT::EULERA);
    assert_eq!(b.sample_steps, 20);
    assert_eq!(b.seed, 42);
    assert_eq!(b.batch_count, 1);
    assert_eq!(b.control_strength.bits, 0.9f32.to_bits());
    assert_eq!(b.style_ratio.bits, 20.0f32.to_bits());
    assert_eq!(b.upscale_repeats, 1);
    assert!(!b.normalize_input);
    assert!(!b.canny_preprocess);
    assert_eq!(b.control_image, ImageType::Path(String::new()));
    assert_eq!(b.output_path, "");
}

#[test]
fn fresh_image_context_has_default_strength_and_no_image() {
    let i = image_context();
    assert_eq!(i.common.session_id, 9);
    assert_eq!(i.strength.bits, 0.75f32.to_bits());
    assert!(i.image.is_empty());
}

#[test]
fn failed_session_creation_gives_no_context() {
    let d = descriptor(Task::TextToImage);
    assert!(matches!(d.create_context(1, 3), Err(SdError::InvalidArgument)));
    assert!(matches!(d.create_context(5, 3), Err(SdError::BackendFailure(5))));
}

#[test]
fn empty_prompt_is_rejected_for_both_kinds() {
    let t = text_context();
    assert_eq!(t.prepare().unwrap_err(), SdError::InvalidArgument);
    assert_eq!(t.generate(0), Err(SdError::InvalidArgument));
    let mut i = image_context();
    i.set_image(ImageType::Path("input.png".to_string()));
    assert_eq!(i.prepare().unwrap_err(), SdError::InvalidArgument);
    assert_eq!(i.generate(0), Err(SdError::InvalidArgument));
}

#[test]
fn empty_image_is_rejected_whatever_the_prompt() {
    let mut i = image_context();
    i.common.set_prompt("a lovely cat".to_string());
    assert_eq!(i.prepare().unwrap_err(), SdError::InvalidArgument);
    assert_eq!(i.generate(0), Err(SdError::InvalidArgument));
    i.set_image(ImageType::Bytes(Vec::new()));
    assert_eq!(i.prepare().unwrap_err(), SdError::InvalidArgument);
    i.set_image(ImageType::Bytes(vec![1, 2, 3]));
    assert_eq!(i.prepare().unwrap().len(), OUTPUT_BUFFER_LEN);
    assert_eq!(i.generate(0), Ok(()));
}

#[test]
fn ready_context_maps_backend_status() {
    let mut t = text_context();
    t.common.set_prompt("a lovely cat".to_string());
    let buffer = t.prepare().unwrap();
    assert_eq!(buffer.len(), OUTPUT_BUFFER_LEN);
    assert!(buffer.iter().all(|b| *b == 0));
    assert_eq!(t.generate(0), Ok(()));
    assert_eq!(t.generate(1), Err(SdError::InvalidArgument));
    assert_eq!(t.generate(4), Err(SdError::BackendFailure(4)));
    let c = Context::TextToImage(t);
    assert_eq!(c.generate(3), Err(SdError::BackendFailure(3)));
    assert_eq!(c.common().prompt, "a lovely cat");
}

#[test]
fn setters_on_distinct_fields_commute() {
    let mut a = text_context().common;
    a.set_seed(5);
    a.set_cfg_scale(num(3.0));
    let mut b = text_context().common;
    b.set_cfg_scale(num(3.0));
    b.set_seed(5);
    assert_eq!(a.seed, b.seed);
    assert_eq!(a.cfg_scale, b.cfg_scale);
    assert_eq!(a.seed, 5);
    assert_eq!(a.cfg_scale.bits, 3.0f32.to_bits());
    assert_eq!(a.width, b.width);
    assert_eq!(a.sample_steps, b.sample_steps);
}

#[test]
fn repeated_setter_keeps_last_value() {
    let mut b = text_context().common;
    b.set_seed(1);
    b.set_seed(2);
    assert_eq!(b.seed, 2);
    b.apply(Param::Width(640));
    b.apply(Param::Width(768));
    assert_eq!(b.width, 768);
    assert_eq!(b.height, 512);
}

#[test]
fn set_base_params_replaces_all_but_session() {
    let mut b = BaseContext::new(11);
    b.set_base_params(
        "cat".to_string(),
        256,
        128,
        ImageType::Path("edges.png".to_string()),
        "dog".to_string(),
        2,
        num(5.5),
        SampleMethodT::LCM,
        8,
        3,
        2,
        num(0.5),
        num(10.0),
        true,
        "ids".to_string(),
        true,
        "up.gguf".to_string(),
        2,
        "out.png".to_string(),
    );
    assert_eq!(b.session_id, 11);
    assert_eq!(b.prompt, "cat");
    assert_eq!(b.width, 256);
    assert_eq!(b.height, 128);
    assert_eq!(b.negative_prompt, "dog");
    assert_eq!(b.sample_method, SampleMethodT::LCM);
    assert_eq!(b.style_ratio.bits, 10.0f32.to_bits());
    assert_eq!(b.output_path, "out.png");
    assert!(b.canny_preprocess);
}

#[test]
fn image_setters_change_only_their_field() {
    let mut i = image_context();
    i.set_strength(num(0.3));
    i.set_image(ImageType::Path("in.png".to_string()));
    assert_eq!(i.strength.bits, 0.3f32.to_bits());
    assert_eq!(i.image, ImageType::Path("in.png".to_string()));
    assert_eq!(i.common.seed, 42);
}

#[test]
fn quantization_needs_no_session() {
    let q = Quantization::new("./sd-v1-4.ckpt", "sd-Q8_0.gguf", SdTypeT::SdTypeQ8_0);
    assert_eq!(q.model_path, "./sd-v1-4.ckpt");
    assert_eq!(q.vae_model_path, "");
    assert_eq!(q.output_path, "sd-Q8_0.gguf");
    assert_eq!(q.wtype.code(), 8);
    assert_eq!(q.convert(0), Ok(()));
    assert_eq!(q.convert(2), Err(SdError::BackendFailure(2)));
}

#[test]
fn status_codes_map_to_errors() {
    assert_eq!(result_from_status(0), Ok(()));
    assert_eq!(result_from_status(1), Err(SdError::InvalidArgument));
    assert_eq!(result_from_status(5), Err(SdError::BackendFailure(5)));
    assert_eq!(SdError::InvalidArgument.code(), 1);
    assert_eq!(SdError::BackendFailure(77).code(), 77);
}
