use webp_converter::command::{conversion_argument_list, tool_name_text, version_argument_list};
use webp_converter::filter::scale_filter;
use webp_converter::settings::ConversionSettings;

/// The value of an expression of the scale filter for an input of `iw` by
/// `ih` pixels, and what is left of the text behind it.
fn eval<'a>(text: &'a str, iw: i64, ih: i64) -> (i64, &'a str) {
    if let Some(rest) = text.strip_prefix("if(") {
        let (condition, rest) = eval(rest, iw, ih);
        let rest = rest.strip_prefix(',').expect("a comma after the condition");
        let (first, rest) = eval(rest, iw, ih);
        let rest = rest.strip_prefix(',').expect("a comma after the first branch");
        let (second, rest) = eval(rest, iw, ih);
        let rest = rest.strip_prefix(')').expect("a closing bracket");
        (if condition != 0 { first } else { second }, rest)
    } else if let Some(rest) = text.strip_prefix("gt(") {
        let (left, rest) = eval(rest, iw, ih);
        let rest = rest.strip_prefix(',').expect("a comma between the operands");
        let (right, rest) = eval(rest, iw, ih);
        let rest = rest.strip_prefix(')').expect("a closing bracket");
        (if left > right { 1 } else { 0 }, rest)
    } else if let Some(rest) = text.strip_prefix("iw") {
        (iw, rest)
    } else if let Some(rest) = text.strip_prefix("ih") {
        (ih, rest)
    } else {
        let end = text
            .char_indices()
            .find(|(i, c)| !(c.is_ascii_digit() || (*i == 0 && *c == '-')))
            .map(|(i, _)| i)
            .unwrap_or(text.len());
        (text[..end].parse().expect("a number"), &text[end..])
    }
}

/// The width and height that the scale filter in `filter` asks for.
fn scale_targets(filter: &str, iw: i64, ih: i64) -> (i64, i64) {
    let scale = filter.split(",scale=").nth(1).expect("a scale filter");
    let mut quoted = scale.split('\'');
    assert_eq!(quoted.next(), Some(""));
    let width = quoted.next().expect("a width expression");
    assert_eq!(quoted.next(), Some(":"));
    let height = quoted.next().expect("a height expression");
    assert_eq!(quoted.next(), Some(":flags=lanczos"));
    assert_eq!(quoted.next(), None);
    let (width_value, width_rest) = eval(width, iw, ih);
    let (height_value, height_rest) = eval(height, iw, ih);
    assert_eq!(width_rest, "");
    assert_eq!(height_rest, "");
    (width_value, height_value)
}

fn strs(args: &[String]) -> Vec<&str> {
    args.iter().map(|arg| arg.as_str()).collect()
}

#[test]
fn scale_filter_for_the_default_settings() {
    assert_eq!(
        scale_filter(10, 540),
        "fps=10,scale='if(gt(iw,ih),540,-2)':'if(gt(iw,ih),-2,540)':flags=lanczos"
    );
}

#[test]
fn scale_filter_writes_both_numbers_in_full() {
    assert_eq!(
        scale_filter(4294967295, 0),
        "fps=4294967295,scale='if(gt(iw,ih),0,-2)':'if(gt(iw,ih),-2,0)':flags=lanczos"
    );
    assert_eq!(
        scale_filter(1, 1280),
        "fps=1,scale='if(gt(iw,ih),1280,-2)':'if(gt(iw,ih),-2,1280)':flags=lanczos"
    );
}

#[test]
fn scale_follows_the_width_of_a_landscape_source() {
    let filter = scale_filter(10, 540);
    for (iw, ih) in [(1920, 1080), (2, 1), (1081, 1080), (4096, 16)] {
        assert_eq!(scale_targets(&filter, iw, ih), (540, -2), "for {}x{}", iw, ih);
    }
}

#[test]
fn scale_follows_the_height_of_a_portrait_or_square_source() {
    let filter = scale_filter(24, 720);
    for (iw, ih) in [(1080, 1920), (1, 2), (1080, 1081), (16, 4096), (1000, 1000), (1, 1)] {
        assert_eq!(scale_targets(&filter, iw, ih), (-2, 720), "for {}x{}", iw, ih);
    }
}

#[test]
fn conversion_arguments_for_the_default_settings() {
    let args = conversion_argument_list("/in/clip.mp4", "/out/clip.webp", &ConversionSettings::default());
    assert_eq!(
        strs(&args),
        vec![
            "-hide_banner",
            "-loglevel",
            "error",
            "-n",
            "-i",
            "/in/clip.mp4",
            "-an",
            "-vf",
            "fps=10,scale='if(gt(iw,ih),540,-2)':'if(gt(iw,ih),-2,540)':flags=lanczos",
            "-frames:v",
            "30",
            "-c:v",
            "libwebp",
            "-lossless",
            "0",
            "-preset",
            "photo",
            "-qscale:v",
            "55",
            "-compression_level",
            "6",
            "-loop",
            "0",
            "-fps_mode",
            "passthrough",
            "/out/clip.webp",
        ]
    );
}

#[test]
fn conversion_arguments_follow_the_settings() {
    let settings = ConversionSettings {
        fps: 25,
        max_dimension: 320,
        max_frames: 120,
        quality: 80,
        compression_level: 4,
        overwrite: true,
    };
    let args = conversion_argument_list("a b.mov", "c d.webp", &settings);
    assert_eq!(
        strs(&args),
        vec![
            "-hide_banner",
            "-loglevel",
            "error",
            "-y",
            "-i",
            "a b.mov",
            "-an",
            "-vf",
            "fps=25,scale='if(gt(iw,ih),320,-2)':'if(gt(iw,ih),-2,320)':flags=lanczos",
            "-frames:v",
            "120",
            "-c:v",
            "libwebp",
            "-lossless",
            "0",
            "-preset",
            "photo",
            "-qscale:v",
            "80",
            "-compression_level",
            "4",
            "-loop",
            "0",
            "-fps_mode",
            "passthrough",
            "c d.webp",
        ]
    );
}

#[test]
fn output_path_is_the_last_argument() {
    let args = conversion_argument_list("in.mp4", "-odd name.webp", &ConversionSettings::default());
    assert_eq!(args.len(), 26);
    assert_eq!(args[25], "-odd name.webp");
    assert_eq!(args[5], "in.mp4");
}

#[test]
fn version_query_has_one_argument() {
    assert_eq!(strs(&version_argument_list()), vec!["-version"]);
}

#[test]
fn tool_is_looked_up_as_ffmpeg() {
    assert_eq!(tool_name_text(), "ffmpeg");
}
