use engine_core::archive::{read_game_assets, tar_find_entry, ArchiveError};
use engine_core::resources::{load_model_text, load_texture, AssetError};

/// Pack the given named blobs into an archive tape with the same writer the
/// asset pipeline uses.
fn pack(entries: &[(&str, &[u8])]) -> Vec<u8> {
    let mut builder = tar::Builder::new(Vec::new());
    for (path, data) in entries {
        let mut header = tar::Header::new_ustar();
        header.set_size(data.len() as u64);
        header.set_mode(0o644);
        header.set_cksum();
        builder.append_data(&mut header, path, *data).unwrap();
    }
    builder.into_inner().unwrap()
}

/// A 2x1 PNG whose pixels are a red and a half-transparent green.
fn tiny_png() -> Vec<u8> {
    let mut out = Vec::new();
    let img = image::RgbaImage::from_raw(2, 1, vec![255, 0, 0, 255, 0, 200, 0, 128]).unwrap();
    image::DynamicImage::ImageRgba8(img)
        .write_to(&mut std::io::Cursor::new(&mut out), image::ImageFormat::Png)
        .unwrap();
    out
}

#[test]
fn lookup_finds_an_entry_by_exact_path() {
    let tape = pack(&[
        ("res/cube.obj", b"v 0 0 0\n"),
        ("res/cube.mtl", b"newmtl stone\n"),
    ]);
    let blob = read_game_assets(&tape, "res/cube.obj").unwrap();
    assert_eq!(blob, b"v 0 0 0\n");
    let blob = read_game_assets(&tape, "res/cube.mtl").unwrap();
    assert_eq!(blob, b"newmtl stone\n");
}

// A lookup for a path the archive does not hold is a reported failure,
// never a crash and never an empty success.
#[test]
fn lookup_of_missing_path_reports_not_found() {
    let tape = pack(&[("res/cube.obj", b"v 0 0 0\n")]);
    assert_eq!(read_game_assets(&tape, "res/teapot.obj"), Err(ArchiveError::NotFound));
    assert_eq!(read_game_assets(&tape, ""), Err(ArchiveError::NotFound));
    let empty = pack(&[]);
    assert_eq!(read_game_assets(&empty, "anything"), Err(ArchiveError::NotFound));
    assert_eq!(read_game_assets(&[], "anything"), Err(ArchiveError::NotFound));
}

#[test]
fn a_truncated_tape_is_malformed() {
    let tape = pack(&[("res/cube.obj", b"v 0 0 0\n")]);
    // cut into the first header block
    assert_eq!(read_game_assets(&tape[..100], "res/cube.obj"), Err(ArchiveError::Malformed));
    // a header whose size field is not octal text
    let mut broken = tape.clone();
    for b in broken[124..136].iter_mut() {
        *b = b'z';
    }
    assert_eq!(read_game_assets(&broken, "res/cube.obj"), Err(ArchiveError::Malformed));
}

#[test]
fn big_blobs_cross_block_boundaries_intact() {
    let big: Vec<u8> = (0..5000u32).map(|i| (i % 251) as u8).collect();
    let tape = pack(&[("res/big.bin", &big[..]), ("res/after.txt", b"still here")]);
    assert_eq!(tar_find_entry(&tape, b"res/big.bin").unwrap(), big);
    assert_eq!(tar_find_entry(&tape, b"res/after.txt").unwrap(), b"still here");
}

#[test]
fn load_texture_decodes_the_named_image() {
    let png = tiny_png();
    let tape = pack(&[("textures/brick.png", &png[..]), ("res/cube.obj", b"v 0 0 0\n")]);
    let t = load_texture(&tape, "brick.png", false).unwrap();
    assert_eq!(t.width, 2);
    assert_eq!(t.height, 1);
    assert_eq!(t.rgba, vec![255, 0, 0, 255, 0, 200, 0, 128]);
    assert!(t.srgb);
}

#[test]
fn normal_maps_stay_linear() {
    let png = tiny_png();
    let tape = pack(&[("textures/brick_n.png", &png[..])]);
    let t = load_texture(&tape, "brick_n.png", true).unwrap();
    assert!(!t.srgb);
}

#[test]
fn load_texture_reports_each_failure() {
    let png = tiny_png();
    let tape = pack(&[("textures/brick.png", &png[..]), ("textures/junk.bin", b"not an image")]);
    assert_eq!(load_texture(&tape, "missing.png", false).unwrap_err(), AssetError::NotFound);
    assert_eq!(load_texture(&tape, "junk.bin", false).unwrap_err(), AssetError::Decode);
    assert_eq!(load_texture(&tape[..13], "brick.png", false).unwrap_err(),
        AssetError::MalformedArchive);
}

#[test]
fn model_text_comes_from_the_res_folder() {
    let tape = pack(&[
        ("res/cube.obj", b"v 0 0 0\nv 1 0 0\n"),
        ("textures/cube.obj", b"decoy"),
    ]);
    assert_eq!(load_model_text(&tape, "cube.obj").unwrap(), b"v 0 0 0\nv 1 0 0\n");
    assert_eq!(load_model_text(&tape, "missing.obj").unwrap_err(), AssetError::NotFound);
}

#[test]
fn directory_entries_are_skipped() {
    // a directory whose name matches the query must not satisfy the lookup
    let mut builder = tar::Builder::new(Vec::new());
    let mut dir = tar::Header::new_ustar();
    dir.set_size(0);
    dir.set_mode(0o755);
    dir.set_entry_type(tar::EntryType::Directory);
    dir.set_path("res").unwrap();
    dir.set_cksum();
    builder.append(&dir, &b""[..]).unwrap();
    let mut file = tar::Header::new_ustar();
    file.set_size(3);
    file.set_mode(0o644);
    file.set_cksum();
    builder.append_data(&mut file, "res/a.txt", &b"abc"[..]).unwrap();
    let tape = builder.into_inner().unwrap();
    assert_eq!(read_game_assets(&tape, "res"), Err(ArchiveError::NotFound));
    assert_eq!(read_game_assets(&tape, "res/a.txt").unwrap(), b"abc");
}
