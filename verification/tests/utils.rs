use beryllium::errors::BerylliumError;
use beryllium::picture::{Guess, Image, ImageFormat, ImageMeta};
use beryllium::utils::{content_md5, encrypt, md5_hash, push_path, sealed_asset, MultipartWriter};
use sha2::Digest;

fn hex(bytes: &[u8]) -> String {
    bytes.iter().map(|b| format!("{:02x}", b)).collect()
}

fn png(width: u32, height: u32) -> Vec<u8> {
    let img = image::DynamicImage::ImageRgb8(image::RgbImage::new(width, height));
    let mut out = std::io::Cursor::new(Vec::new());
    img.write_to(&mut out, image::ImageFormat::Png).unwrap();
    out.into_inner()
}

fn encoded(width: u32, height: u32, format: image::ImageFormat) -> Vec<u8> {
    let img = image::DynamicImage::ImageRgb8(image::RgbImage::new(width, height));
    let mut out = std::io::Cursor::new(Vec::new());
    img.write_to(&mut out, format).unwrap();
    out.into_inner()
}

#[test]
fn multipart_writer_starts_empty() {
    assert_eq!(MultipartWriter::new("frontier").finish(), Vec::<u8>::new());
}

#[test]
fn multipart_writer_writes_in_order() {
    let mut w = MultipartWriter::new("frontier");
    w.add_boundary();
    w.add_header("Content-Type: application/json");
    w.add_line();
    w.add_body(b"{}");
    w.add_boundary();
    w.add_body(&[0, 255]);
    let expected: Vec<u8> = [
        &b"--frontier\r\n"[..],
        &b"Content-Type: application/json\r\n"[..],
        &b"\r\n"[..],
        &b"{}\r\n"[..],
        &b"--frontier\r\n"[..],
        &[0, 255, 13, 10][..],
    ]
    .concat();
    assert_eq!(w.finish(), expected);
}

#[test]
fn multipart_boundary_is_written_in_utf8() {
    let mut w = MultipartWriter::new("gr\u{fc}n");
    w.add_boundary();
    assert_eq!(w.finish(), vec![45, 45, 103, 114, 0xc3, 0xbc, 110, 13, 10]);
}

#[test]
fn md5_of_known_inputs() {
    assert_eq!(hex(&md5_hash(b"")), "d41d8cd98f00b204e9800998ecf8427e");
    assert_eq!(hex(&md5_hash(b"abc")), "900150983cd24fb0d6963f7d28e17f72");
}

#[test]
fn content_md5_is_the_digest_in_base64() {
    assert_eq!(content_md5(b""), "1B2M2Y8AsgTpgAmY7PhCfg==");
    assert_eq!(content_md5(b"abc"), "kAFQmDzST7DWlj99KOF/cg==");
}

#[test]
fn encrypted_asset_decrypts_to_the_plaintext() {
    let plain = b"the quick brown fox jumps over the lazy dog";
    let sealed = encrypt(plain).unwrap();
    assert_eq!(sealed.key.len(), 32);
    assert_eq!(sealed.data.len(), 16 + 48);
    let (iv, cipher) = sealed.data.split_at(16);
    let opened = openssl::symm::decrypt(
        openssl::symm::Cipher::aes_256_cbc(),
        &sealed.key,
        Some(iv),
        cipher,
    )
    .unwrap();
    assert_eq!(opened, plain.to_vec());
    assert_eq!(sealed.hash, sha2::Sha256::digest(cipher).to_vec());
    assert_eq!(sealed.hash.len(), 32);
}

#[test]
fn encrypted_asset_of_nothing_is_one_block() {
    let sealed = encrypt(b"").unwrap();
    assert_eq!(sealed.data.len(), 32);
}

#[test]
fn two_encryptions_use_different_keys() {
    let a = encrypt(b"same").unwrap();
    let b = encrypt(b"same").unwrap();
    assert_ne!(a.key, b.key);
    assert_ne!(a.data, b.data);
}

#[test]
fn sealed_asset_puts_the_vector_in_front() {
    let sealed = sealed_asset(vec![9; 32], vec![1; 16], vec![2, 3], vec![4]);
    assert_eq!(sealed.key, vec![9; 32]);
    let mut data = vec![1; 16];
    data.extend_from_slice(&[2, 3]);
    assert_eq!(sealed.data, data);
    assert_eq!(sealed.hash, vec![4]);
}

#[test]
fn paths_are_pushed_like_components() {
    assert_eq!(push_path("/a", "b"), "/a/b");
    assert_eq!(push_path("/a/", "b"), "/a/b");
    assert_eq!(push_path("", "b"), "b");
    assert_eq!(push_path("/a", "/b"), "/b");
    assert_eq!(push_path("/a", ""), "/a/");
    assert_eq!(push_path(".", "x.json"), "./x.json");
    for (base, part) in [("/a", "b"), ("/a/", "b"), ("", "b"), ("/a", "/b"), ("/a", ""), ("a", "b/c")] {
        let mut p = std::path::PathBuf::from(base);
        p.push(part);
        assert_eq!(push_path(base, part), p.to_str().unwrap());
    }
}

#[test]
fn image_formats_have_media_types() {
    assert_eq!(ImageFormat::Bmp.mime(), "image/bmp");
    assert_eq!(ImageFormat::Gif.mime(), "image/gif");
    assert_eq!(ImageFormat::Jpeg.mime(), "image/jpeg");
    assert_eq!(ImageFormat::Png.mime(), "image/png");
}

#[test]
fn png_is_read_with_its_size() {
    let bytes = png(3, 2);
    let image = Image::from_bytes(bytes.clone()).unwrap();
    assert_eq!(image.metadata(), ImageMeta { format: ImageFormat::Png, width: 3, height: 2 });
    assert_eq!(image.data(), &bytes[..]);
}

#[test]
fn bmp_gif_and_jpeg_are_read() {
    for (format, expected) in [
        (image::ImageFormat::Bmp, ImageFormat::Bmp),
        (image::ImageFormat::Gif, ImageFormat::Gif),
        (image::ImageFormat::Jpeg, ImageFormat::Jpeg),
    ] {
        let image = Image::from_bytes(encoded(5, 4, format)).unwrap();
        assert_eq!(image.metadata(), ImageMeta { format: expected, width: 5, height: 4 });
    }
}

#[test]
fn bytes_without_a_format_are_no_image() {
    assert!(matches!(Image::from_bytes(vec![1, 2, 3, 4]), Err(BerylliumError::Image(_))));
    assert!(matches!(Image::from_bytes(vec![]), Err(BerylliumError::Image(_))));
}

#[test]
fn other_formats_are_unsupported() {
    assert_eq!(
        Image::from_bytes(b"II*\x00rest".to_vec()),
        Err(BerylliumError::Other(String::from("Unsupported image format")))
    );
}

#[test]
fn truncated_png_is_no_image() {
    let mut bytes = png(3, 2);
    bytes.truncate(12);
    assert!(matches!(Image::from_bytes(bytes), Err(BerylliumError::Image(_))));
}

#[test]
fn image_from_parts() {
    let image = Image::from_parts(Guess::Known(ImageFormat::Gif), (7, 8), vec![1, 2]).unwrap();
    assert_eq!(image.metadata(), ImageMeta { format: ImageFormat::Gif, width: 7, height: 8 });
    assert_eq!(image.data(), &[1, 2][..]);
    assert_eq!(
        Image::from_parts(Guess::Other, (7, 8), vec![1, 2]),
        Err(BerylliumError::Other(String::from("Unsupported image format")))
    );
}

#[test]
fn errors_as_text() {
    let m = || String::from("x");
    assert_eq!(BerylliumError::Io(m()).to_text(), "I/O error: x");
    assert_eq!(BerylliumError::CBox(m()).to_text(), "Cryptobox error: x");
    assert_eq!(BerylliumError::Openssl(m()).to_text(), "Openssl error: x");
    assert_eq!(BerylliumError::Encode(m()).to_text(), "Encode error: x");
    assert_eq!(BerylliumError::Decode(m()).to_text(), "Decode error: x");
    assert_eq!(BerylliumError::Hyper(m()).to_text(), "Hyper error: x");
    assert_eq!(BerylliumError::Image(m()).to_text(), "Image error: x");
    assert_eq!(BerylliumError::PemFileError.to_text(), "PEM file error");
    assert_eq!(BerylliumError::Serde(m()).to_text(), "Serde error: x");
    assert_eq!(BerylliumError::Base64(m()).to_text(), "Base64 decode error: x");
    assert_eq!(BerylliumError::Protobuf(m()).to_text(), "Protobuf error: x");
    assert_eq!(BerylliumError::Uuid(m()).to_text(), "UUID parse error: x");
    assert_eq!(BerylliumError::Other(m()).to_text(), "Unknown error: x");
    assert_eq!(BerylliumError::Unreachable.to_text(), "Entered unreachable code!");
    assert_eq!(
        BerylliumError::MissingPrekey.to_text(),
        "No session and no prekey for the device"
    );
}

#[test]
fn errors_have_one_description() {
    assert_eq!(BerylliumError::Unreachable.description(), "BerylliumError");
    assert_eq!(BerylliumError::Io(String::new()).description(), "BerylliumError");
}

#[test]
fn errors_name_their_cause() {
    assert_eq!(BerylliumError::Io(String::from("gone")).cause(), Some("gone"));
    assert_eq!(BerylliumError::Uuid(String::from("bad")).cause(), Some("bad"));
    assert_eq!(BerylliumError::Serde(String::new()).cause(), Some(""));
    assert_eq!(BerylliumError::Other(String::from("x")).cause(), None);
    assert_eq!(BerylliumError::PemFileError.cause(), None);
    assert_eq!(BerylliumError::Unreachable.cause(), None);
    assert_eq!(BerylliumError::MissingPrekey.cause(), None);
}
