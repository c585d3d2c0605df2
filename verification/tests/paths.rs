use freya::paths::{
    compress_output_path, decompress_output_path, file_name_of, suggested_save_name,
};
use freya::textfmt::{ratio_text, u64_to_string};

#[test]
fn compress_path_appends_codec_extension() {
    assert_eq!(compress_output_path("document.pdf"), "document.pdf.zst");
    assert_eq!(compress_output_path("/tmp/data"), "/tmp/data.zst");
    assert_eq!(compress_output_path(""), ".zst");
}

#[test]
fn decompress_path_strips_extension() {
    assert_eq!(decompress_output_path("document.pdf.zst"), "document.pdf");
    assert_eq!(decompress_output_path("/a/b/archive.zst"), "/a/b/archive");
    assert_eq!(decompress_output_path("plain"), "plain");
    assert_eq!(decompress_output_path("/dot.dir/plain"), "/dot.dir/plain");
    assert_eq!(decompress_output_path("/a/.hidden"), "/a/.hidden");
}

#[test]
fn file_name_is_the_last_component() {
    assert_eq!(file_name_of("/home/user/file.txt"), "file.txt");
    assert_eq!(file_name_of("file.txt"), "file.txt");
    assert_eq!(file_name_of("/ends/with/slash/"), "");
}

#[test]
fn suggested_name_is_file_name_plus_extension() {
    assert_eq!(suggested_save_name("/home/user/file.txt"), "file.txt.zst");
}

#[test]
fn decimal_rendering_is_exact() {
    assert_eq!(u64_to_string(0), "0");
    assert_eq!(u64_to_string(7), "7");
    assert_eq!(u64_to_string(10), "10");
    assert_eq!(u64_to_string(200_000), "200000");
    assert_eq!(u64_to_string(u64::MAX), "18446744073709551615");
}

#[test]
fn ratio_rendering_is_exact() {
    // 123456 / 200000 * 100 = 61.728 -> truncated to two decimals
    assert_eq!(ratio_text(123_456, 200_000), "61.72");
    assert_eq!(ratio_text(1, 3), "33.33");
    assert_eq!(ratio_text(200_000, 200_000), "100.00");
    assert_eq!(ratio_text(1, 200), "0.50");
    assert_eq!(ratio_text(5, 0), "0.00");
}
