use std::sync::Arc;

use identicon_rs::color::RGB;
use identicon_rs::error::IdenticonError;
use identicon_rs::grid::generate_full_grid;
use identicon_rs::hash::hash_value;
use identicon_rs::theme::{default_theme, pastel_selection_theme, BuiltinTheme, Selection, Theme};
use identicon_rs::Identicon;

fn raw_image(identicon: &Identicon) -> Vec<u8> {
    identicon.generate_image().unwrap().into_raw()
}

fn pixel(raw: &[u8], side: usize, x: usize, y: usize) -> RGB {
    let start = (y * side + x) * 3;
    RGB { red: raw[start], green: raw[start + 1], blue: raw[start + 2] }
}

#[test]
fn consistency() {
    let expected_color = RGB { red: 183, green: 212, blue: 111 };
    let expected_grid = vec![
        true, true, true, true, false, true, true, true, false, true, true, true, false, true,
        true, false, true, true, true, true, true, true, false, true, true,
    ];

    let image = Identicon::new("test");
    let hash = hash_value("test");
    let grid = generate_full_grid(image.size(), &hash);
    let color = default_theme().main_color(&hash).unwrap();

    assert_eq!(expected_color, color);

    assert_eq!(expected_grid, grid);
}

#[test]
fn trim_of_input_works() {
    let image_normal = Identicon::new("test").generate_image().unwrap();
    let image_padded = Identicon::new("  test  ").generate_image().unwrap();
    assert_eq!(image_normal.into_raw(), image_padded.into_raw());
}

#[test]
fn trim_of_input_failure_works() {
    let image_normal = Identicon::new("test").generate_image().unwrap();
    let image_padded = Identicon::new("  test1  ").generate_image().unwrap();
    assert_ne!(image_normal.into_raw(), image_padded.into_raw());
}

#[test]
fn chained_setters_work() {
    let identicon_chained = Identicon::new("test")
        .set_border(10)
        .set_mirrored(false)
        .clone();

    let mut identicon_mutated = Identicon::new("test");
    identicon_mutated.set_border(10);
    identicon_mutated.set_mirrored(false);

    assert_eq!(identicon_chained.border(), identicon_mutated.border());
    assert_eq!(identicon_chained.mirrored(), identicon_mutated.mirrored());
}

#[test]
fn getters_work() {
    let identicon = Identicon::new("test").set_border(10).clone();

    assert_eq!(identicon.border(), 10);
    assert_eq!(identicon.size(), 5);
    assert_eq!(identicon.scale(), 500);
    assert!(identicon.mirrored());
}

#[test]
fn from_str_works() {
    let identicon = Identicon::new("test");
    let identicon_from_str = "test".parse::<Identicon>().unwrap();
    assert_eq!(raw_image(&identicon), raw_image(&identicon_from_str));
}

#[test]
fn from_str_failure_works() {
    let identicon = Identicon::new("test");
    let identicon_from_str = "test1".parse::<Identicon>().unwrap();
    assert_ne!(raw_image(&identicon), raw_image(&identicon_from_str));
}

#[test]
fn hash_of_test_is_its_sha3_digest() {
    let expected: Vec<u8> = vec![
        0x36, 0xf0, 0x28, 0x58, 0x0b, 0xb0, 0x2c, 0xc8, 0x27, 0x2a, 0x9a, 0x02, 0x0f, 0x42, 0x00,
        0xe3, 0x46, 0xe2, 0x76, 0xae, 0x66, 0x4e, 0x45, 0xee, 0x80, 0x74, 0x55, 0x74, 0xe2, 0xf5,
        0xab, 0x80,
    ];
    assert_eq!(expected, hash_value("test"));
    assert_eq!(expected, hash_value(" \t test \n"));
    assert_ne!(expected, hash_value("test1"));
    assert_ne!(hash_value("te st"), hash_value("test"));
}

#[test]
fn generation_is_deterministic() {
    let first = raw_image(&Identicon::new("fluffy-samurai"));
    let second = raw_image(&Identicon::new("fluffy-samurai"));
    assert_eq!(first, second);
}

#[test]
fn generation_ignores_surrounding_whitespace() {
    let plain = raw_image(&Identicon::new("conways-glider"));
    assert_eq!(plain, raw_image(&Identicon::new(" conways-glider ")));
    assert_eq!(plain, raw_image(&Identicon::new("\tconways-glider\n")));
    assert_eq!(plain, raw_image(identicon_rs::new("conways-glider").set_border(50)));
}

#[test]
fn distinct_inputs_give_distinct_images() {
    let inputs = ["a", "b", "identicon", "identicon_rs", "conways-glider", "Test"];
    for (i, first) in inputs.iter().enumerate() {
        for second in inputs.iter().skip(i + 1) {
            assert_ne!(
                raw_image(&Identicon::new(first)),
                raw_image(&Identicon::new(second))
            );
        }
    }
}

#[test]
fn image_has_border_and_scaled_grid() {
    let identicon = Identicon::new("test");
    let image = identicon.generate_image().unwrap();
    assert_eq!(600, image.width());
    assert_eq!(600, image.height());
    let raw = image.into_raw();
    assert_eq!(600 * 600 * 3, raw.len());
    let background = RGB { red: 240, green: 240, blue: 240 };
    let active = RGB { red: 183, green: 212, blue: 111 };
    // The border is background.
    assert_eq!(background, pixel(&raw, 600, 0, 0));
    assert_eq!(background, pixel(&raw, 600, 49, 300));
    assert_eq!(background, pixel(&raw, 600, 599, 599));
    // Each grid cell is a block of 100 by 100 pixels; cell (0, 0) is active,
    // cell (4, 0) mirrors cell (0, 0), and cell (4, 1) mirrors cell (0, 1),
    // which is active.
    assert_eq!(active, pixel(&raw, 600, 50, 50));
    assert_eq!(active, pixel(&raw, 600, 149, 149));
    assert_eq!(active, pixel(&raw, 600, 549, 50));
    // Cell (2, 2) is grid index 12, inactive.
    assert_eq!(background, pixel(&raw, 600, 300, 300));
}

#[test]
fn mirrored_image_is_symmetric() {
    let raw = raw_image(&Identicon::new("mirror"));
    for y in (0..600).step_by(7) {
        for x in 0..600 {
            assert_eq!(pixel(&raw, 600, x, y), pixel(&raw, 600, 599 - x, y));
        }
    }
}

#[test]
fn unmirrored_image_follows_the_grid() {
    let mut identicon = Identicon::new("test");
    identicon.set_mirrored(false).set_border(0);
    let raw = raw_image(&identicon);
    let grid = generate_full_grid(5, &hash_value("test"));
    let active = RGB { red: 183, green: 212, blue: 111 };
    let background = RGB { red: 240, green: 240, blue: 240 };
    for cell in 0..25 {
        let (x, y) = (cell % 5 * 100 + 50, cell / 5 * 100 + 50);
        let expected = if grid[cell] { active } else { background };
        assert_eq!(expected, pixel(&raw, 500, x, y));
    }
}

#[test]
fn set_size_and_scale_validate() {
    let mut identicon = Identicon::new("test");
    match identicon.set_size(600) {
        Err(IdenticonError::SizeTooLargeError { size, scale }) => {
            assert_eq!((600, 500), (size, scale))
        }
        _ => panic!("a size above the scale was accepted"),
    }
    assert_eq!(5, identicon.size());
    assert!(identicon.set_size(500).is_ok());
    assert_eq!(500, identicon.size());
    match identicon.set_scale(499) {
        Err(IdenticonError::ScaleTooSmallError { scale, size }) => {
            assert_eq!((499, 500), (scale, size))
        }
        _ => panic!("a scale below the size was accepted"),
    }
    assert_eq!(500, identicon.scale());
    assert!(identicon.set_scale(800).is_ok());
    assert_eq!(800, identicon.scale());
    assert!(identicon.set_size(7).unwrap().set_scale(7).is_ok());
    assert_eq!((7, 7), (identicon.size(), identicon.scale()));
}

#[test]
fn set_input_replaces_the_hash() {
    let mut identicon = Identicon::new("first");
    identicon.set_input("test");
    assert_eq!(raw_image(&Identicon::new("test")), raw_image(&identicon));
    assert_eq!(raw_image(&Identicon::default()), raw_image(&Identicon::new("   ")));
}

#[test]
fn oversized_image_is_a_generation_error() {
    let mut identicon = Identicon::new("test");
    identicon.set_scale(u32::MAX).unwrap();
    assert!(matches!(
        identicon.generate_image(),
        Err(IdenticonError::GenerateImageError)
    ));
    identicon.set_scale(500).unwrap().set_border(u32::MAX / 2);
    assert!(matches!(
        identicon.export_png_data(),
        Err(IdenticonError::GenerateImageError)
    ));
}

#[test]
fn theme_errors_are_reported() {
    let mut identicon = Identicon::new("test");
    identicon.set_theme(Arc::new(BuiltinTheme::Selection(Selection::new(
        vec![],
        vec![(0, 0, 0).into()],
    ))));
    match identicon.generate_image() {
        Err(error) => {
            assert!(matches!(error, IdenticonError::ThemeError(_)));
            assert_eq!(
                "theme validation failed: main color selection is empty",
                error.to_string()
            );
        }
        Ok(_) => panic!("an empty theme produced an image"),
    }
}

#[test]
fn selection_theme_colors_the_image() {
    let mut identicon = Identicon::new("TEST CONSISTENCY");
    identicon.set_theme(pastel_selection_theme()).set_mirrored(false);
    let raw = raw_image(&identicon);
    let background = RGB { red: 240, green: 240, blue: 240 };
    let main = RGB { red: 253, green: 255, blue: 182 };
    assert_eq!(background, pixel(&raw, 600, 10, 10));
    for y in (0..600).step_by(3) {
        for x in (0..600).step_by(3) {
            let p = pixel(&raw, 600, x, y);
            assert!(p == background || p == main);
        }
    }
}

#[test]
fn png_export_round_trips() {
    let identicon = Identicon::new("test");
    let png = identicon.export_png_data().unwrap();
    assert_eq!(&png[..8], &[0x89, b'P', b'N', b'G', 0x0d, 0x0a, 0x1a, 0x0a]);
    let decoded = image::load_from_memory_with_format(&png, image::ImageFormat::Png)
        .unwrap()
        .to_rgb8();
    assert_eq!((600, 600), decoded.dimensions());
    assert_eq!(raw_image(&identicon), decoded.into_raw());
}

#[test]
fn jpeg_export_decodes() {
    let mut identicon = Identicon::new("test");
    identicon.set_border(0);
    let jpeg = identicon.export_jpeg_data().unwrap();
    assert_eq!(&jpeg[..2], &[0xff, 0xd8]);
    let decoded = image::load_from_memory_with_format(&jpeg, image::ImageFormat::Jpeg)
        .unwrap()
        .to_rgb8();
    assert_eq!((500, 500), decoded.dimensions());
}

#[test]
fn empty_image_fails_to_encode() {
    let mut identicon = Identicon::new("test");
    identicon.set_size(0).unwrap();
    identicon.set_scale(0).unwrap();
    identicon.set_border(0);
    let image = identicon.generate_image().unwrap();
    assert_eq!((0, 0), (image.width(), image.height()));
    assert!(matches!(
        identicon.export_png_data(),
        Err(IdenticonError::EncodeImageError)
    ));
}

#[test]
fn size_one_image_is_one_color() {
    let mut identicon = Identicon::new("test");
    identicon.set_size(1).unwrap().set_scale(3).unwrap().set_border(1);
    let raw = raw_image(&identicon);
    assert_eq!(5 * 5 * 3, raw.len());
    // Hash byte 0 of "test" is even: the one cell is active.
    let active = RGB { red: 183, green: 212, blue: 111 };
    assert_eq!(active, pixel(&raw, 5, 2, 2));
    assert_eq!(RGB { red: 240, green: 240, blue: 240 }, pixel(&raw, 5, 0, 2));
}

#[test]
fn exports_pass_theme_errors_through() {
    let mut identicon = Identicon::new("test");
    identicon.set_theme(Arc::new(BuiltinTheme::Selection(Selection::new(
        vec![(0, 0, 0).into()],
        vec![],
    ))));
    for result in [identicon.export_png_data(), identicon.export_jpeg_data()] {
        match result {
            Err(error) => assert_eq!(
                "theme validation failed: background color selection is empty",
                error.to_string()
            ),
            Ok(_) => panic!("an empty background list produced a file"),
        }
    }
}

#[test]
fn smallest_image_exports() {
    let mut identicon = Identicon::new("test");
    identicon.set_size(1).unwrap().set_scale(1).unwrap().set_border(0);
    let png = identicon.export_png_data().unwrap();
    let decoded = image::load_from_memory_with_format(&png, image::ImageFormat::Png)
        .unwrap()
        .to_rgb8();
    assert_eq!((1, 1), decoded.dimensions());
    assert_eq!(vec![183, 212, 111], decoded.into_raw());
    let jpeg = identicon.export_jpeg_data().unwrap();
    assert_eq!(&jpeg[..2], &[0xff, 0xd8]);
}

#[test]
fn cloned_identicon_keeps_its_settings() {
    let mut identicon = Identicon::new("test");
    identicon.set_border(7).set_mirrored(false);
    let copy = identicon.clone();
    assert_eq!((7, 5, 500, false), (copy.border(), copy.size(), copy.scale(), copy.mirrored()));
    assert_eq!(raw_image(&identicon), raw_image(&copy));
}
