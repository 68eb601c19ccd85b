use std::io::Cursor;

use image::{DynamicImage, ImageFormat, RgbImage};
use webp_converter::batch::BatchRun;
use webp_converter::codec::{transcode, CodecFailure};
use webp_converter::converter::{ConvertError, ErrorKind, WebPConverter, WebPOutput};
use webp_converter::filter::{is_accepted_extension, is_supported_path};
use webp_converter::paths::{extension_of, file_name, join_path, names_file, output_path};

fn encoded(format: ImageFormat) -> Vec<u8> {
    let mut img = RgbImage::new(8, 6);
    for (x, y, px) in img.enumerate_pixels_mut() {
        *px = image::Rgb([(x * 30) as u8, (y * 40) as u8, 128]);
    }
    let mut out = Cursor::new(Vec::new());
    DynamicImage::ImageRgb8(img).write_to(&mut out, format).unwrap();
    out.into_inner()
}

fn is_webp(bytes: &[u8]) -> bool {
    bytes.len() >= 12 && &bytes[0..4] == b"RIFF" && &bytes[8..12] == b"WEBP"
}

/// Drives a run over walk entries, converting each file the run asks for
/// with the given contents; returns the outcome and the outputs in order.
fn drive(
    converter: &WebPConverter,
    entries: &[(&str, bool, Vec<u8>)],
) -> (Result<(), ConvertError>, Vec<WebPOutput>) {
    let mut run = BatchRun::start(converter);
    let mut outputs = Vec::new();
    for (path, is_file, contents) in entries {
        if run.on_entry(path, *is_file) {
            match converter.convert_to_webp(path, contents) {
                Ok(o) => outputs.push(o),
                Err(e) => run.on_failure(e),
            }
        }
        if !run.is_running() {
            break;
        }
    }
    if let Some(root) = run.on_walk_end() {
        assert_eq!(root, converter.output_dir());
        run.on_root_ready();
    }
    (run.outcome().unwrap(), outputs)
}

fn output_files(outputs: &[WebPOutput]) -> Vec<String> {
    let mut files: Vec<String> = Vec::new();
    for o in outputs {
        if !files.contains(&o.file) {
            files.push(o.file.clone());
        }
    }
    files.sort();
    files
}

#[test]
fn test_webp_conversion() {
    let converter = WebPConverter::new("src/tests/source", "src/tests/dist");
    let entries = vec![
        ("src/tests/source", false, Vec::new()),
        ("src/tests/source/ferris_jpg.jpg", true, encoded(ImageFormat::Jpeg)),
        ("src/tests/source/ferris_jpeg.jpeg", true, encoded(ImageFormat::Jpeg)),
        ("src/tests/source/ferris_png.png", true, encoded(ImageFormat::Png)),
    ];
    let (outcome, outputs) = drive(&converter, &entries);
    outcome.unwrap();
    let files = output_files(&outputs);
    for file in ["ferris_jpg.webp", "ferris_jpeg.webp", "ferris_png.webp"] {
        let path = format!("src/tests/dist/{}", file);
        assert!(files.contains(&path), "File {} not found", file);
    }
    let webp_count = files.iter().filter(|f| extension_of(f) == Some("webp".to_string())).count();
    assert_eq!(webp_count, 3, "Incorrect number of WebP files created");
}

#[test]
fn test_single_file_conversion() {
    let converter = WebPConverter::new("src/tests/source", "src/tests/dist");
    let out = converter
        .convert_to_webp("src/tests/source/ferris_jpg.jpg", &encoded(ImageFormat::Jpeg))
        .unwrap();
    assert_eq!(out.file, "src/tests/dist/ferris_jpg.webp", "WebP file not created");
    assert_eq!(out.dir, "src/tests/dist");
    assert!(is_webp(&out.bytes));
}

#[test]
fn scenario_three_images_and_a_text_file() {
    let converter = WebPConverter::new("source", "output");
    let entries = vec![
        ("source", false, Vec::new()),
        ("source/ferris_jpg.jpg", true, encoded(ImageFormat::Jpeg)),
        ("source/ferris_jpeg.jpeg", true, encoded(ImageFormat::Jpeg)),
        ("source/ferris_png.png", true, encoded(ImageFormat::Png)),
        ("source/notes.txt", true, b"plain notes".to_vec()),
    ];
    let (outcome, outputs) = drive(&converter, &entries);
    assert!(outcome.is_ok());
    assert_eq!(
        output_files(&outputs),
        vec![
            "output/ferris_jpeg.webp".to_string(),
            "output/ferris_jpg.webp".to_string(),
            "output/ferris_png.webp".to_string(),
        ]
    );
    assert!(outputs.iter().all(|o| o.dir == "output" && is_webp(&o.bytes)));
    assert!(!outputs.iter().any(|o| o.file == "output/notes.webp"));
}

#[test]
fn single_file_alone() {
    let converter = WebPConverter::new("source", "output");
    let out = converter.convert_to_webp("source/ferris_jpg.jpg", &encoded(ImageFormat::Jpeg)).unwrap();
    assert_eq!(out.file, "output/ferris_jpg.webp");
}

#[test]
fn missing_source_root_fails_with_traversal_error() {
    let converter = WebPConverter::new("no/such/dir", "out");
    let mut run = BatchRun::start(&converter);
    run.on_failure(ConvertError::new(ErrorKind::Traversal, "no/such/dir", "not found"));
    assert!(!run.on_entry("no/such/dir/a.jpg", true));
    assert_eq!(run.on_walk_end(), None);
    let err = run.outcome().unwrap().unwrap_err();
    assert_eq!(err.kind, ErrorKind::Traversal);
    assert_eq!(err.path, "no/such/dir");
}

#[test]
fn first_error_stops_the_batch() {
    let converter = WebPConverter::new("src", "out");
    let entries = vec![
        ("src/a.png", true, encoded(ImageFormat::Png)),
        ("src/broken.jpg", true, b"not an image".to_vec()),
        ("src/c.gif", true, encoded(ImageFormat::Gif)),
    ];
    let (outcome, outputs) = drive(&converter, &entries);
    let err = outcome.unwrap_err();
    assert_eq!(err.kind, ErrorKind::Decode);
    assert_eq!(err.path, "src/broken.jpg");
    assert_eq!(outputs.len(), 1);
}

#[test]
fn run_in_progress_has_no_outcome() {
    let converter = WebPConverter::new("s", "o");
    let mut run = BatchRun::start(&converter);
    assert!(run.on_entry("a.gif", true));
    assert!(run.outcome().is_none());
}

#[test]
fn walk_end_names_output_root_even_with_nothing_converted() {
    let converter = WebPConverter::new("s", "fresh/out");
    let mut run = BatchRun::start(&converter);
    assert!(!run.on_entry("s/readme.md", true));
    assert_eq!(run.on_walk_end(), Some("fresh/out".to_string()));
    assert!(!run.on_entry("s/late.png", true));
    assert!(run.is_open());
    run.on_root_ready();
    assert!(!run.is_open());
    assert!(run.outcome().unwrap().is_ok());
}

#[test]
fn output_root_creation_failure_fails_run() {
    let converter = WebPConverter::new("s", "/forbidden");
    let mut run = BatchRun::start(&converter);
    let root = run.on_walk_end().unwrap();
    run.on_failure(ConvertError::new(ErrorKind::DirectoryCreate, &root, "permission denied"));
    run.on_root_ready();
    assert_eq!(run.outcome().unwrap().unwrap_err().kind, ErrorKind::DirectoryCreate);
}

#[test]
fn accepted_extensions_any_case() {
    assert!(is_supported_path("a/b/photo.jpg"));
    assert!(is_supported_path("photo.JPEG"));
    assert!(is_supported_path("dir/Anim.GiF"));
    assert!(is_supported_path("x.Png"));
    assert!(is_supported_path("dir/.jpg"));
}

#[test]
fn other_extensions_rejected() {
    assert!(!is_supported_path("notes.txt"));
    assert!(!is_supported_path("already.webp"));
    assert!(!is_supported_path("README"));
    assert!(!is_supported_path("pics.jpg/readme"));
    assert!(!is_supported_path("trailing."));
    assert!(!is_supported_path("x.jpgx"));
}

#[test]
fn directories_and_rejected_files_are_not_converted() {
    let converter = WebPConverter::new("s", "o");
    let mut run = BatchRun::start(&converter);
    assert!(!run.on_entry("folder.png", false));
    assert!(!run.on_entry("cat.webp", true));
    assert!(!run.on_entry("noext", true));
    assert!(run.on_entry("sub/cat.PNG", true));
}

#[test]
fn lowercased_extension_check() {
    assert!(is_accepted_extension("jpg"));
    assert!(is_accepted_extension("jpeg"));
    assert!(is_accepted_extension("png"));
    assert!(is_accepted_extension("gif"));
    assert!(!is_accepted_extension("JPG"));
    assert!(!is_accepted_extension("webp"));
    assert!(!is_accepted_extension(""));
    assert!(!is_accepted_extension("jpgs"));
}

#[test]
fn extension_extraction() {
    assert_eq!(extension_of("a/b/c.tar.gz"), Some("gz".to_string()));
    assert_eq!(extension_of("a.b/c"), None);
    assert_eq!(extension_of(".hidden"), Some("hidden".to_string()));
    assert_eq!(extension_of("dir/.JPG"), Some("JPG".to_string()));
    assert_eq!(extension_of("noext"), None);
    assert_eq!(extension_of("x."), Some(String::new()));
    assert_eq!(file_name("a/b/c.jpg"), "c.jpg");
    assert_eq!(file_name("c.jpg"), "c.jpg");
}

#[test]
fn output_paths() {
    assert_eq!(output_path("out", "a/b/cat.jpg"), Some("out/cat.webp".to_string()));
    assert_eq!(output_path("out/", "cat.jpg"), Some("out/cat.webp".to_string()));
    assert_eq!(output_path("", "cat.png"), Some("cat.webp".to_string()));
    assert_eq!(output_path("o", "x/a.tar.gif"), Some("o/a.tar.webp".to_string()));
    assert_eq!(output_path("o", "x/.hidden"), Some("o/.webp".to_string()));
    assert_eq!(output_path("o", "x/.jpg"), Some("o/.webp".to_string()));
    assert_eq!(output_path("o", "noext"), Some("o/noext.webp".to_string()));
    assert_eq!(output_path("o", "dir/"), None);
    assert_eq!(output_path("o", ".."), None);
    assert_eq!(output_path("o", "a/."), None);
    assert_eq!(join_path("a", "b"), "a/b");
    assert!(names_file("a/b"));
    assert!(!names_file(""));
}

#[test]
fn same_base_name_collides() {
    let a = output_path("out", "a/cat.jpg").unwrap();
    let b = output_path("out", "b/cat.png").unwrap();
    assert_eq!(a, "out/cat.webp");
    assert_eq!(a, b);
    let converter = WebPConverter::new("src", "out");
    let entries = vec![
        ("src/a/cat.jpg", true, encoded(ImageFormat::Jpeg)),
        ("src/b/cat.png", true, encoded(ImageFormat::Png)),
    ];
    let (outcome, outputs) = drive(&converter, &entries);
    assert!(outcome.is_ok());
    assert_eq!(output_files(&outputs), vec!["out/cat.webp".to_string()]);
}

#[test]
fn repeated_run_gives_same_paths() {
    let converter = WebPConverter::new("s", "o");
    let entries = vec![
        ("s/x.gif", true, encoded(ImageFormat::Gif)),
        ("s/sub/y.jpeg", true, encoded(ImageFormat::Jpeg)),
        ("s/z.md", true, Vec::new()),
    ];
    let (r1, o1) = drive(&converter, &entries);
    let reversed: Vec<(&str, bool, Vec<u8>)> = entries.iter().rev().cloned().collect();
    let (r2, o2) = drive(&converter, &reversed);
    assert!(r1.is_ok() && r2.is_ok());
    assert_eq!(output_files(&o1), output_files(&o2));
    assert_eq!(output_files(&o1), vec!["o/x.webp".to_string(), "o/y.webp".to_string()]);
}

#[test]
fn output_goes_to_root_directory() {
    let converter = WebPConverter::new("src", "new/out");
    let out = converter.convert_to_webp("src/deep/er/p.png", &encoded(ImageFormat::Png)).unwrap();
    assert_eq!(out.dir, "new/out");
    assert_eq!(out.file, "new/out/p.webp");
}

#[test]
fn transcode_makes_webp() {
    let bytes = transcode(&encoded(ImageFormat::Png)).unwrap();
    assert!(is_webp(&bytes));
    let (stage, cause) = transcode(b"garbage").unwrap_err();
    assert_eq!(stage, CodecFailure::Decode);
    assert!(!cause.is_empty());
    let (stage, _) = transcode(&[]).unwrap_err();
    assert_eq!(stage, CodecFailure::Decode);
}

#[test]
fn conversion_result_maps_each_stage() {
    let c = WebPConverter::new("s", "o");
    let ok = c.conversion_result("s/a.jpg", Ok(vec![1, 2, 3])).unwrap();
    assert_eq!((ok.dir.as_str(), ok.file.as_str(), ok.bytes), ("o", "o/a.webp", vec![1, 2, 3]));
    let e = c.conversion_result("s/a.jpg", Err((CodecFailure::Decode, "bad".to_string())));
    let e = e.err().unwrap();
    assert_eq!((e.kind, e.path.as_str(), e.cause.as_str()), (ErrorKind::Decode, "s/a.jpg", "bad"));
    let e = c.conversion_result("s/a.jpg", Err((CodecFailure::Encode, "full".to_string())));
    assert_eq!(e.err().unwrap().kind, ErrorKind::Encode);
    let e = c.conversion_result("s/", Ok(vec![]));
    assert_eq!(e.err().unwrap().kind, ErrorKind::NoFileName);
}

#[test]
fn errors_for_bad_input() {
    let c = WebPConverter::new("s", "o");
    let e = c.convert_to_webp("s/a.png", b"\x89PNG truncated").err().unwrap();
    assert_eq!(e.kind, ErrorKind::Decode);
    let e = c.convert_to_webp("s/..", &encoded(ImageFormat::Png)).err().unwrap();
    assert_eq!(e.kind, ErrorKind::NoFileName);
    assert_eq!(e.path, "s/..");
}

#[test]
fn error_description() {
    let e = ConvertError::new(ErrorKind::DirectoryCreate, "out", "permission denied");
    assert_eq!(e.describe(), "cannot create directory out: permission denied");
    assert_eq!(ErrorKind::Encode.text(), "cannot encode or write");
}

#[test]
fn job_keeps_its_roots() {
    let c = WebPConverter::new("./images", "./converted");
    assert_eq!(c.source_dir(), "./images");
    assert_eq!(c.output_dir(), "./converted");
}

#[test]
fn too_wide_image_fails_at_encoding() {
    let img = image::GrayImage::new(16385, 1);
    let mut png = Cursor::new(Vec::new());
    DynamicImage::ImageLuma8(img).write_to(&mut png, ImageFormat::Png).unwrap();
    let png = png.into_inner();
    let (stage, _) = transcode(&png).unwrap_err();
    assert_eq!(stage, CodecFailure::Encode);
    let c = WebPConverter::new("s", "o");
    let e = c.convert_to_webp("s/wide.png", &png).err().unwrap();
    assert_eq!(e.kind, ErrorKind::Encode);
}
