//! Alias scopes, image dimensions, signature counting, upload buffers, and
//! the image I/O error messages.

use autograph::api::AliasScope;
use autograph::format::Format;
use autograph::glbackend::ExtentsAndType;
use autograph::glbackend::ImageDescription;
use autograph::glbackend::RawBuffer;
use autograph::glbackend::RawImage;
use autograph::glbackend::RENDERBUFFER;
use autograph::glbackend::TEXTURE_2D;
use autograph::glbackend::TEXTURE_3D;
use autograph::image::get_texture_mip_map_count;
use autograph::image::Dimensions;
use autograph::image::ImageType;
use autograph::image::MipmapsCount;
use autograph::imageio::Error;
use autograph::pipeline::SignatureDescription;
use autograph::upload::align_offset;
use autograph::upload::UploadBuffer;
use autograph::frame::FrameError;
use autograph::image::dimension::Dimensions as TableDimensions;
use autograph::pipeline::Scissor;
use autograph::pipeline::Scissors;
use autograph::pipeline::ScissorsOwned;
use autograph::pipeline::Viewports;
use autograph::pipeline::ViewportsOwned;

#[test]
fn alias_scope_overlap() {
    let everywhere = AliasScope::no_alias();
    let scoped = AliasScope { value: 0x10, mask: 0xF0 };
    // The whole-stream scope overlaps everything.
    assert!(everywhere.overlaps(&scoped));
    assert!(scoped.overlaps(&everywhere));
    // Two scopes that disagree on a shared mask bit do not overlap.
    let other = AliasScope { value: 0x20, mask: 0xF0 };
    assert!(!scoped.overlaps(&other));
    // Scopes with disjoint masks overlap.
    let low = AliasScope { value: 0x1, mask: 0xF };
    assert!(scoped.overlaps(&low));
}

#[test]
fn dimension_accessors() {
    let d = Dimensions::Dim2dArray { width: 16, height: 8, array_layers: 4 };
    assert_eq!(d.width(), 16);
    assert_eq!(d.height(), 8);
    assert_eq!(d.depth(), 1);
    assert_eq!(d.width_height(), [16, 8]);
    assert_eq!(d.width_height_depth(), [16, 8, 1]);
    assert_eq!(d.array_layers(), 4);
    assert_eq!(d.array_layers_with_cube(), 4);

    let c = Dimensions::CubemapArray { size: 32, array_layers: 3 };
    assert_eq!(c.width(), 32);
    assert_eq!(c.height(), 32);
    assert_eq!(c.array_layers(), 3);
    assert_eq!(c.array_layers_with_cube(), 18);

    let e = c.to_image_extents_and_type();
    assert_eq!(e.type_, ImageType::Type2d);
    assert_eq!(e.extent.width, 32);
    assert_eq!(e.array_layers, 18);
}

#[test]
fn dimension_info_and_texels() {
    let d = TableDimensions::Dim3d { width: 4, height: 5, depth: 6 };
    let info = d.to_image_dimension_info();
    assert_eq!(info.extent.width, 4);
    assert_eq!(info.extent.height, 5);
    assert_eq!(info.extent.depth, 6);
    assert_eq!(info.array_layers, 1);
    assert_eq!(d.num_texels(), 120);
    let cube = TableDimensions::Cubemap { size: 2 };
    assert_eq!(cube.num_texels(), 2 * 2 * 6);
}

#[test]
fn mip_map_count_formula() {
    assert_eq!(get_texture_mip_map_count(0), 1);
    assert_eq!(get_texture_mip_map_count(1), 1);
    assert_eq!(get_texture_mip_map_count(2), 2);
    assert_eq!(get_texture_mip_map_count(255), 8);
    assert_eq!(get_texture_mip_map_count(256), 9);
    assert_eq!(get_texture_mip_map_count(u32::MAX), 32);
}

#[test]
fn image_description_resolves_mip_count() {
    let d = Dimensions::Dim2d { width: 256, height: 64 };
    let full = ImageDescription::new(Format(7), d, MipmapsCount::Log2, 1, 0);
    assert_eq!(full.mipcount, 9);
    let one = ImageDescription::new(Format(7), d, MipmapsCount::One, 4, 0);
    assert_eq!(one.mipcount, 1);
    let some = ImageDescription::new(Format(7), d, MipmapsCount::Specific(3), 1, 0);
    assert_eq!(some.mipcount, 3);
}

#[test]
fn extents_from_dimensions() {
    let e = ExtentsAndType::from_dimensions(&Dimensions::Dim3d { width: 1, height: 2, depth: 3 })
        .unwrap();
    assert_eq!(e.target, TEXTURE_3D);
    assert_eq!((e.width, e.height, e.depth, e.array_layers), (1, 2, 3, 1));
    let arr = ExtentsAndType::from_dimensions(&Dimensions::Dim1dArray { width: 8, array_layers: 2 })
        .unwrap();
    assert_eq!(arr.target, TEXTURE_2D);
    assert_eq!(
        ExtentsAndType::from_dimensions(&Dimensions::Cubemap { size: 8 }),
        Err(FrameError::NotSupported)
    );
}

#[test]
fn raw_image_target_kind() {
    let rb = RawImage { obj: 1, target: RENDERBUFFER };
    assert!(rb.is_renderbuffer());
    let tex = RawImage { obj: 2, target: TEXTURE_2D };
    assert!(!tex.is_renderbuffer());
}

#[test]
fn signature_counts_recurse_through_inheritance() {
    let mut leaf = SignatureDescription::empty();
    leaf.num_viewports = 2;
    leaf.num_scissors = 1;
    let mut mid = SignatureDescription::empty();
    mid.num_viewports = 1;
    mid.inherited.push(leaf);
    let mut root = SignatureDescription::empty();
    root.num_scissors = 3;
    root.inherited.push(mid);
    assert_eq!(root.count_viewports(), 3);
    assert_eq!(root.count_scissors(), 4);
    assert_eq!(SignatureDescription::empty().count_viewports(), 0);
}

#[test]
fn align_offset_rounds_up_within_range() {
    assert_eq!(align_offset(16, 64, 1, 4096), Some(64));
    assert_eq!(align_offset(16, 64, 0, 4096), Some(0));
    assert_eq!(align_offset(16, 64, 64, 4096), Some(64));
    // Not enough room after rounding up.
    assert_eq!(align_offset(16, 64, 4090, 4096), None);
    assert_eq!(align_offset(8, 1, 5, 13), Some(5));
}

#[test]
fn upload_buffer_bumps_aligned_offsets() {
    let mut up = UploadBuffer::new(RawBuffer { obj: 9, size: 256 });
    let (obj, o0) = up.write(10, 16).unwrap();
    assert_eq!(obj, 9);
    assert_eq!(o0, 0);
    let (_, o1) = up.write(10, 16).unwrap();
    assert_eq!(o1, 16);
    let (_, o2) = up.write(1, 1).unwrap();
    assert_eq!(o2, 26);
    // The buffer fills up.
    assert!(up.write(300, 1).is_none());
    let raw = up.into_inner();
    assert_eq!(raw.obj, 9);
}

#[test]
fn imageio_error_messages() {
    assert_eq!(
        Error::OpenError("no such file".to_owned()).message(),
        "error opening image: no such file"
    );
    assert_eq!(
        Error::ReadError("truncated".to_owned()).message(),
        "error reading image data: truncated"
    );
    assert_eq!(
        Error::WriteError("disk full".to_owned()).message(),
        "error writing image data: disk full"
    );
    assert_eq!(Error::SubimageNotFound.message(), "non-existent subimage");
    assert_eq!(Error::ChannelNotFound.message(), "non-existent channel");
    assert_eq!(Error::InvalidChannelIndex.message(), "non-existent channel index");
    assert_eq!(
        Error::InvalidAttributeNameOrType.message(),
        "non-existent attribute or incorrect type for attribute"
    );
    assert_eq!(Error::BufferTooSmall.message(), "buffer was too small");
}

#[test]
fn borrowed_scissors_and_viewports_convert_to_owned() {
    let rects = [Scissor::Disabled, Scissor::Enabled(autograph::pipeline::ScissorRect {
        x: 0,
        y: 0,
        width: 4,
        height: 4,
    })];
    match ScissorsOwned::from(Scissors::Static(&rects)) {
        ScissorsOwned::Static(v) => assert_eq!(v.len(), 2),
        ScissorsOwned::Dynamic => panic!("static scissors must stay static"),
    }
    assert!(matches!(ScissorsOwned::from(Scissors::Dynamic), ScissorsOwned::Dynamic));
    assert!(matches!(ViewportsOwned::from(Viewports::Dynamic), ViewportsOwned::Dynamic));
}
