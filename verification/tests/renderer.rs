use capybara::renderer::batch::{BatchState, BufferContentType, BufferMetadata, ShapeBuffer, SpriteBuffer, SPRITE_WORDS};
use capybara::renderer::camera::CameraOrigin;
use capybara::renderer::particles::{ParticleInterpolation, ParticleParameter};
use capybara::renderer::shader::preprocess_shader_source;
use capybara::renderer::sprite::{animate_frame, animation_finished, next_animation_frame, TextureId};
use capybara::renderer::texture::{
    mag_filter_value, min_filter_value, uses_mipmaps, wrap_mode_value, TextureFilterMag, TextureFilterMin, TextureWrapMode,
};

#[test]
fn buffer_metadata_new() {
    let metadata = BufferMetadata::new(BufferContentType::Shape, Some(3));
    assert_eq!(metadata.content_type, BufferContentType::Shape);
    assert_eq!(metadata.texture_id, Some(3));
}

#[test]
fn batch_flushes_when_kind_or_texture_changes() {
    let mut batch = BatchState::new();
    assert!(batch.metadata.is_none());
    assert!(!batch.begin_draw(BufferContentType::Sprite, Some(1)));
    assert!(!batch.begin_draw(BufferContentType::Sprite, Some(1)));
    assert!(batch.begin_draw(BufferContentType::Sprite, Some(2)));
    assert!(batch.begin_draw(BufferContentType::Shape, Some(2)));
    assert!(batch.begin_draw(BufferContentType::Shape, None));
    assert_eq!(batch.metadata, Some(BufferMetadata::new(BufferContentType::Shape, None)));
    batch.end_batch();
    assert!(batch.metadata.is_none());
    assert!(!batch.begin_draw(BufferContentType::Sprite, None));
}

#[test]
fn sprite_buffer_queues_and_doubles() {
    let mut buffer = SpriteBuffer::new(24);
    let first: Vec<u32> = (0..12).collect();
    let second: Vec<u32> = (100..112).collect();
    buffer.push_sprite(&first);
    assert_eq!(buffer.count, 1);
    assert_eq!(buffer.vertices_count, SPRITE_WORDS);
    assert_eq!(buffer.vertices_queue.len(), 24);
    assert!(!buffer.resized);
    buffer.push_sprite(&second);
    assert_eq!(buffer.count, 2);
    assert_eq!(buffer.vertices_queue.len(), 48);
    assert!(buffer.resized);
    assert_eq!(&buffer.vertices_queue[0..12], &first[..]);
    assert_eq!(&buffer.vertices_queue[12..24], &second[..]);
    buffer.clear();
    assert_eq!(buffer.count, 0);
    assert_eq!(buffer.vertices_count, 0);
    assert_eq!(buffer.vertices_queue.len(), 48);
    assert!(buffer.resized);
}

#[test]
fn shape_buffer_shifts_indices_past_earlier_shapes() {
    let mut buffer = ShapeBuffer::new(4, 4);
    buffer.push_shape(&[1, 2, 3], &[0, 1, 2]);
    assert_eq!(buffer.indices_max, 3);
    assert_eq!(buffer.vertices_count, 3);
    assert_eq!(buffer.indices_count, 3);
    assert!(!buffer.resized);
    buffer.push_shape(&[4, 5], &[1, 0]);
    assert_eq!(buffer.indices_max, 5);
    assert_eq!(&buffer.vertices_queue[0..5], &[1, 2, 3, 4, 5]);
    assert_eq!(&buffer.indices_queue[0..5], &[0, 1, 2, 4, 3]);
    assert!(buffer.resized);
    assert_eq!(buffer.vertices_queue.len(), 8);
    assert_eq!(buffer.indices_queue.len(), 8);
    buffer.clear();
    assert_eq!(buffer.vertices_count, 0);
    assert_eq!(buffer.indices_count, 0);
    assert_eq!(buffer.indices_max, 0);
}

#[test]
fn shape_buffer_grows_until_a_large_shape_fits() {
    let mut buffer = ShapeBuffer::new(1, 1);
    let vertices: Vec<u32> = (0..10).collect();
    buffer.push_shape(&vertices, &[9]);
    assert_eq!(buffer.vertices_queue.len(), 16);
    assert_eq!(buffer.indices_queue.len(), 2);
    assert_eq!(buffer.indices_max, 10);
}

#[test]
fn shader_version_placeholder_is_replaced() {
    let source = "#version <version>\nvoid main() {}";
    assert_eq!(preprocess_shader_source(source, "330 core"), "#version 330 core\nvoid main() {}");
    assert_eq!(preprocess_shader_source(source, "300 es"), "#version 300 es\nvoid main() {}");
    assert_eq!(preprocess_shader_source("<version><version>", "x"), "xx");
    assert_eq!(preprocess_shader_source("no placeholder", "x"), "no placeholder");
    assert_eq!(preprocess_shader_source("<versio", "x"), "<versio");
    assert_eq!(preprocess_shader_source("", "x"), "");
}

#[test]
fn texture_parameter_values() {
    assert_eq!(min_filter_value(TextureFilterMin::Linear), 0x2601);
    assert_eq!(min_filter_value(TextureFilterMin::Nearest), 0x2600);
    assert_eq!(min_filter_value(TextureFilterMin::LinearMipmap), 0x2703);
    assert_eq!(min_filter_value(TextureFilterMin::NearestMipmap), 0x2700);
    assert_eq!(mag_filter_value(TextureFilterMag::Linear), 0x2601);
    assert_eq!(mag_filter_value(TextureFilterMag::Nearest), 0x2600);
    assert_eq!(wrap_mode_value(TextureWrapMode::Repeat), 0x2901);
    assert_eq!(wrap_mode_value(TextureWrapMode::Clamp), 0x812F);
}

#[test]
fn mipmapped_filters() {
    assert!(uses_mipmaps(TextureFilterMin::LinearMipmap));
    assert!(uses_mipmaps(TextureFilterMin::NearestMipmap));
    assert!(!uses_mipmaps(TextureFilterMin::Linear));
    assert!(!uses_mipmaps(TextureFilterMin::Nearest));
}

#[test]
fn animation_frames_wrap_around() {
    assert_eq!(next_animation_frame(0, 3, false), 1);
    assert_eq!(next_animation_frame(2, 3, false), 0);
    assert_eq!(next_animation_frame(0, 3, true), 2);
    assert_eq!(next_animation_frame(2, 3, true), 1);
    assert_eq!(next_animation_frame(0, 1, false), 0);
    assert_eq!(next_animation_frame(0, 1, true), 0);
}

#[test]
fn backward_step_undoes_forward_step() {
    for frame in 0..5 {
        assert_eq!(next_animation_frame(next_animation_frame(frame, 5, false), 5, true), frame);
    }
}

#[test]
fn animation_end() {
    assert!(animation_finished(2, 3, false));
    assert!(!animation_finished(2, 3, true));
    assert!(!animation_finished(1, 3, false));
}

#[test]
fn texture_id_default() {
    assert_eq!(TextureId::default(), TextureId::Default);
    assert_ne!(TextureId::Texture(1), TextureId::NoTexture);
}

#[test]
fn particle_parameter_new() {
    let parameter = ParticleParameter::new(1u32, 2u32);
    assert_eq!(parameter.base, 1);
    assert_eq!(parameter.variation, 2);
    assert_eq!(ParticleInterpolation::default(), ParticleInterpolation::Linear);
}

#[test]
fn camera_origins_differ() {
    assert_ne!(CameraOrigin::LeftTop, CameraOrigin::LeftBottom);
}

#[test]
fn negative_frames_step_like_the_remainder() {
    assert_eq!(next_animation_frame(-5, 3, false), -1);
    assert_eq!(next_animation_frame(-1, 3, false), 0);
    assert_eq!(next_animation_frame(-1, 3, true), 1);
}

#[test]
fn switching_batches_hands_back_the_batch_to_draw() {
    let mut batch = BatchState::new();
    assert_eq!(batch.switch_batch(BufferContentType::Sprite, Some(1)), None);
    assert_eq!(batch.switch_batch(BufferContentType::Sprite, Some(1)), None);
    assert_eq!(batch.switch_batch(BufferContentType::Shape, Some(1)), Some(BufferMetadata::new(BufferContentType::Sprite, Some(1))));
    assert_eq!(batch.switch_batch(BufferContentType::Shape, None), Some(BufferMetadata::new(BufferContentType::Shape, Some(1))));
    assert_eq!(batch.metadata, Some(BufferMetadata::new(BufferContentType::Shape, None)));
}

#[test]
fn animation_steps_only_when_due_and_not_finished() {
    assert_eq!(animate_frame(1, 4, false, false, true), (2, true));
    assert_eq!(animate_frame(1, 4, false, false, false), (1, false));
    assert_eq!(animate_frame(3, 4, false, false, true), (3, false));
    assert_eq!(animate_frame(3, 4, true, false, true), (0, true));
    assert_eq!(animate_frame(0, 4, true, true, true), (3, true));
}
