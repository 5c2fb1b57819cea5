use libheif::dims::dim_to_usize;
use libheif::error::check_error;
use libheif::error::ErrorRecord;
use libheif::error::HeifError;
use libheif::kinds::Channel;
use libheif::kinds::Chroma;
use libheif::kinds::ColourSpace;
use libheif::kinds::DecoderSettings;
use libheif::model::Container;
use libheif::model::ImageSource;
use libheif::model::PlaneData;
use libheif::model::Raster;
use libheif::model::ReadReport;
use libheif::simple::Context;
use libheif::simple::NO_PRIMARY_IMAGE_CODE;
use libheif::simple::UNSUPPORTED_SETTINGS_CODE;

fn ok_record() -> ErrorRecord {
    ErrorRecord { code: 0, subcode: 0, message: String::new() }
}

fn ycbcr_420() -> DecoderSettings {
    DecoderSettings { chroma: Chroma::C420, colour_space: ColourSpace::YCbCr }
}

/// The decoded content of the road fixture, as the foreign layer reports it:
/// a 4 by 2 primary image that decodes to interleaved RGB (first pixel
/// 0x3a, 0x42, 0x40) and to planar 4:2:0 YCbCr (first luma sample 0x40).
fn road_fixture() -> ReadReport {
    let interleaved = Raster {
        channels: vec![PlaneData {
            channel: Channel::Interleaved,
            width: 4,
            height: 2,
            stride: 12,
            channel_bytes: 3,
            samples: Some(vec![
                0x3a, 0x42, 0x40, 0x39, 0x41, 0x3f, 0x38, 0x40, 0x3e, 0x37, 0x3f, 0x3d, 0x36,
                0x3e, 0x3c, 0x35, 0x3d, 0x3b, 0x34, 0x3c, 0x3a, 0x33, 0x3b, 0x39,
            ]),
        }],
    };
    let planar = Raster {
        channels: vec![
            PlaneData {
                channel: Channel::Y,
                width: 4,
                height: 2,
                stride: 4,
                channel_bytes: 1,
                samples: Some(vec![0x40, 0x3f, 0x3e, 0x3d, 0x3c, 0x3b, 0x3a, 0x39]),
            },
            PlaneData {
                channel: Channel::Cb,
                width: 2,
                height: 1,
                stride: 2,
                channel_bytes: 1,
                samples: Some(vec![0x80, 0x81]),
            },
            PlaneData {
                channel: Channel::Cr,
                width: 2,
                height: 1,
                stride: 2,
                channel_bytes: 1,
                samples: Some(vec![0x7e, 0x7f]),
            },
        ],
    };
    ReadReport {
        record: ok_record(),
        container: Container {
            primary: Some(ImageSource {
                width: 4,
                height: 2,
                rasters: vec![
                    (DecoderSettings::interleaved_rgb(), interleaved),
                    (ycbcr_420(), planar),
                ],
            }),
        },
    }
}

#[test]
fn first_pixel() -> Result<(), HeifError> {
    let mut ctx = Context::open(Some(road_fixture()))?;
    let mut handle = ctx.get_primary_image()?;
    {
        let mut image = handle.decode(DecoderSettings::interleaved_rgb())?;
        let mut plane = image.plane(Channel::Interleaved)?;
        let pixels = plane.pixels()?;
        let row = pixels.get_row(0);

        assert_eq!(0x3a, row[0]);
        assert_eq!(0x42, row[1]);
        assert_eq!(0x40, row[2]);
    }

    {
        let mut image = handle.decode(DecoderSettings {
            chroma: Chroma::C420,
            colour_space: ColourSpace::YCbCr,
        })?;
        let mut plane = image.plane(Channel::Y)?;
        let pixels = plane.pixels()?;
        let row = pixels.get_row(0);

        assert_eq!(0x40, row[0]);
    }

    Ok(())
}

#[test]
fn open_without_session_is_allocation_failure() {
    let r = Context::open(None);
    assert_eq!(r.err(), Some(HeifError::Allocation));
}

#[test]
fn open_malformed_file_is_decode_error() {
    let rep = ReadReport {
        record: ErrorRecord {
            code: 2,
            subcode: 100,
            message: String::from("Invalid input: No 'ftyp' box"),
        },
        container: Container { primary: None },
    };
    let r = Context::open(Some(rep));
    assert_eq!(
        r.err(),
        Some(HeifError::Decode {
            code: 2,
            subcode: 100,
            message: String::from("Invalid input: No 'ftyp' box"),
        })
    );
}

#[test]
fn missing_primary_image_is_decode_error() {
    let rep = ReadReport { record: ok_record(), container: Container { primary: None } };
    let mut ctx = Context::open(Some(rep)).unwrap();
    match ctx.get_primary_image() {
        Err(HeifError::Decode { code, subcode, message }) => {
            assert_eq!(code, NO_PRIMARY_IMAGE_CODE);
            assert_eq!(subcode, 0);
            assert_eq!(message, "no primary image recorded");
        }
        other => panic!("expected a decode failure, got {:?}", other.map(|_| ())),
    }
}

#[test]
fn absent_channel_is_no_such_channel() {
    let mut ctx = Context::open(Some(road_fixture())).unwrap();
    let mut handle = ctx.get_primary_image().unwrap();
    let mut image = handle.decode(DecoderSettings::interleaved_rgb()).unwrap();
    let r = image.plane(Channel::Y);
    assert!(matches!(r, Err(HeifError::NoSuchChannel)));
}

#[test]
fn unsupported_settings_is_decode_error() {
    let mut ctx = Context::open(Some(road_fixture())).unwrap();
    let mut handle = ctx.get_primary_image().unwrap();
    let r = handle.decode(DecoderSettings {
        chroma: Chroma::C444,
        colour_space: ColourSpace::YCbCr,
    });
    match r {
        Err(HeifError::Decode { code, subcode, message }) => {
            assert_eq!(code, UNSUPPORTED_SETTINGS_CODE);
            assert_eq!(subcode, 0);
            assert_eq!(message, "no raster recorded for the requested settings");
        }
        other => panic!("expected a decode failure, got {:?}", other.map(|_| ())),
    }
}

#[test]
fn handle_reports_checked_dimensions() {
    let mut ctx = Context::open(Some(road_fixture())).unwrap();
    let handle = ctx.get_primary_image().unwrap();
    assert_eq!(handle.width().unwrap(), 4);
    assert_eq!(handle.height().unwrap(), 2);
}

#[test]
fn hostile_handle_dimension_is_range_error() {
    let rep = ReadReport {
        record: ok_record(),
        container: Container {
            primary: Some(ImageSource { width: -1, height: 2, rasters: vec![] }),
        },
    };
    let mut ctx = Context::open(Some(rep)).unwrap();
    let handle = ctx.get_primary_image().unwrap();
    assert_eq!(handle.width().err(), Some(HeifError::Range));
    assert_eq!(handle.height().unwrap(), 2);
}

#[test]
fn hostile_plane_dimension_is_range_error() {
    let raster = Raster {
        channels: vec![PlaneData {
            channel: Channel::Y,
            width: 4,
            height: -2,
            stride: 4,
            channel_bytes: 1,
            samples: Some(vec![]),
        }],
    };
    let rep = ReadReport {
        record: ok_record(),
        container: Container {
            primary: Some(ImageSource {
                width: 4,
                height: 2,
                rasters: vec![(ycbcr_420(), raster)],
            }),
        },
    };
    let mut ctx = Context::open(Some(rep)).unwrap();
    let mut handle = ctx.get_primary_image().unwrap();
    let mut image = handle.decode(ycbcr_420()).unwrap();
    assert!(matches!(image.plane(Channel::Y), Err(HeifError::Range)));
}

#[test]
fn missing_buffer_is_buffer_unavailable() {
    let raster = Raster {
        channels: vec![PlaneData {
            channel: Channel::Y,
            width: 4,
            height: 2,
            stride: 4,
            channel_bytes: 1,
            samples: None,
        }],
    };
    let rep = ReadReport {
        record: ok_record(),
        container: Container {
            primary: Some(ImageSource {
                width: 4,
                height: 2,
                rasters: vec![(ycbcr_420(), raster)],
            }),
        },
    };
    let mut ctx = Context::open(Some(rep)).unwrap();
    let mut handle = ctx.get_primary_image().unwrap();
    let mut image = handle.decode(ycbcr_420()).unwrap();
    let mut plane = image.plane(Channel::Y).unwrap();
    assert!(matches!(plane.pixels(), Err(HeifError::BufferUnavailable)));
}

#[test]
fn plane_geometry_constant_across_calls() {
    let mut ctx = Context::open(Some(road_fixture())).unwrap();
    let mut handle = ctx.get_primary_image().unwrap();
    let mut image = handle.decode(DecoderSettings::interleaved_rgb()).unwrap();
    let mut plane = image.plane(Channel::Interleaved).unwrap();
    let (w1, h1) = (plane.width(), plane.height());
    let (w2, h2) = (plane.width(), plane.height());
    assert_eq!((w1, h1), (w2, h2));
    {
        let _ = plane.pixels().unwrap();
    }
    {
        let _ = plane.pixels().unwrap();
    }
    assert_eq!((plane.width(), plane.height()), (w1, h1));
    assert_eq!((w1, h1), (4, 2));
}

#[test]
fn plane_selection_is_idempotent() {
    let mut ctx = Context::open(Some(road_fixture())).unwrap();
    let mut handle = ctx.get_primary_image().unwrap();
    let mut image = handle.decode(ycbcr_420()).unwrap();
    let (w1, h1) = {
        let plane = image.plane(Channel::Y).unwrap();
        (plane.width(), plane.height())
    };
    let (w2, h2) = {
        let plane = image.plane(Channel::Y).unwrap();
        (plane.width(), plane.height())
    };
    assert_eq!((w1, h1), (w2, h2));
}

#[test]
fn rows_are_stride_wide_and_stride_covers_width() {
    let mut ctx = Context::open(Some(road_fixture())).unwrap();
    let mut handle = ctx.get_primary_image().unwrap();
    let mut image = handle.decode(DecoderSettings::interleaved_rgb()).unwrap();
    let mut plane = image.plane(Channel::Interleaved).unwrap();
    let width = plane.width();
    let height = plane.height();
    let pixels = plane.pixels().unwrap();
    for y in 0..height {
        let row = pixels.get_row(y);
        assert_eq!(row.len(), 12);
        assert!(row.len() >= width);
    }
    assert_eq!(pixels.get_row(1)[0], 0x36);
}

#[test]
fn get_four_packs_four_bytes_least_significant_first() {
    let raster = Raster {
        channels: vec![PlaneData {
            channel: Channel::Interleaved,
            width: 2,
            height: 2,
            stride: 8,
            channel_bytes: 4,
            samples: Some(vec![
                0x01, 0x02, 0x03, 0x04, 0x05, 0x06, 0x07, 0x08, 0x11, 0x12, 0x13, 0x14, 0x15,
                0x16, 0x17, 0x18,
            ]),
        }],
    };
    let rep = ReadReport {
        record: ok_record(),
        container: Container {
            primary: Some(ImageSource {
                width: 2,
                height: 2,
                rasters: vec![(DecoderSettings::interleaved_rgb(), raster)],
            }),
        },
    };
    let mut ctx = Context::open(Some(rep)).unwrap();
    let mut handle = ctx.get_primary_image().unwrap();
    let mut image = handle.decode(DecoderSettings::interleaved_rgb()).unwrap();
    let mut plane = image.plane(Channel::Interleaved).unwrap();
    let pixels = plane.pixels().unwrap();
    assert_eq!(pixels.get_four(0, 0), 0x04030201);
    assert_eq!(pixels.get_four(1, 0), 0x08070605);
    assert_eq!(pixels.get_four(0, 1), 0x14131211);
    assert_eq!(pixels.get_four(1, 1), 0x18171615);
}

#[test]
fn check_error_passes_zero_and_carries_diagnostics() {
    assert!(check_error(ErrorRecord { code: 0, subcode: 9, message: String::new() }).is_ok());
    let r = check_error(ErrorRecord {
        code: 4,
        subcode: 3000,
        message: String::from("Unsupported feature"),
    });
    assert_eq!(
        r.err(),
        Some(HeifError::Decode {
            code: 4,
            subcode: 3000,
            message: String::from("Unsupported feature"),
        })
    );
}

#[test]
fn dimension_check_accepts_exactly_the_non_negative() {
    assert_eq!(dim_to_usize(0).unwrap(), 0);
    assert_eq!(dim_to_usize(5).unwrap(), 5);
    assert_eq!(dim_to_usize(i32::MAX).unwrap(), i32::MAX as usize);
    assert_eq!(dim_to_usize(-1).err(), Some(HeifError::Range));
    assert_eq!(dim_to_usize(i32::MIN).err(), Some(HeifError::Range));
}

#[test]
fn native_codes_match_the_foreign_tables() {
    assert_eq!(Channel::Y.to_native(), 0);
    assert_eq!(Channel::Cb.to_native(), 1);
    assert_eq!(Channel::Cr.to_native(), 2);
    assert_eq!(Channel::R.to_native(), 3);
    assert_eq!(Channel::G.to_native(), 4);
    assert_eq!(Channel::B.to_native(), 5);
    assert_eq!(Channel::Alpha.to_native(), 6);
    assert_eq!(Channel::Interleaved.to_native(), 10);

    assert_eq!(Chroma::Undefined.to_native(), 99);
    assert_eq!(Chroma::Monochrome.to_native(), 0);
    assert_eq!(Chroma::C420.to_native(), 1);
    assert_eq!(Chroma::C422.to_native(), 2);
    assert_eq!(Chroma::C444.to_native(), 3);
    assert_eq!(Chroma::InterleavedRgb.to_native(), 10);
    assert_eq!(Chroma::InterleavedRgba.to_native(), 11);
    assert_eq!(Chroma::Other(77).to_native(), 77);

    assert_eq!(ColourSpace::Undefined.to_native(), 99);
    assert_eq!(ColourSpace::YCbCr.to_native(), 0);
    assert_eq!(ColourSpace::Rgb.to_native(), 1);
    assert_eq!(ColourSpace::Monochrome.to_native(), 2);
    assert_eq!(ColourSpace::Other(123).to_native(), 123);
}

#[test]
fn interleaved_rgb_is_the_packed_rgb_default() {
    let settings = DecoderSettings::interleaved_rgb();
    assert_eq!(settings.chroma, Chroma::InterleavedRgb);
    assert_eq!(settings.colour_space, ColourSpace::Rgb);
}

#[test]
fn open_then_primary_then_decode_succeeds_on_recorded_settings() {
    let mut ctx = Context::open(Some(road_fixture())).unwrap();
    let mut handle = ctx.get_primary_image().unwrap();
    assert!(handle.decode(DecoderSettings::interleaved_rgb()).is_ok());
    assert!(handle.decode(ycbcr_420()).is_ok());
}
