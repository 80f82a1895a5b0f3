use shadertoy_viewer::source::{compose, ShaderAssets};

fn assets() -> ShaderAssets {
    ShaderAssets {
        vertex: "void main() {}\n".to_string(),
        preamble: "uniform vec3 iResolution;\nuniform float iTime;\n#line 1\n".to_string(),
        postamble: "\nvoid main() { mainImage(color, gl_FragCoord.xy); }\n".to_string(),
    }
}

#[test]
fn compose_joins_the_three_texts_verbatim() {
    let source = compose("PRE\n", "void mainImage() {}\n", "POST\n");
    assert_eq!(source, "PRE\nvoid mainImage() {}\nPOST\n");
}

#[test]
fn compose_adds_no_separator() {
    assert_eq!(compose("a", "b", "c"), "abc");
}

#[test]
fn compose_of_an_empty_shader_is_preamble_and_postamble() {
    assert_eq!(compose("head;", "", "tail;"), "head;tail;");
}

#[test]
fn compose_of_empty_texts_is_empty() {
    assert_eq!(compose("", "", ""), "");
}

#[test]
fn compose_keeps_non_ascii_text() {
    assert_eq!(compose("// é\n", "// ü → ß\n", "// 漢\n"), "// é\n// ü → ß\n// 漢\n");
}

#[test]
fn wrap_puts_the_shader_between_preamble_and_postamble() {
    let assets = assets();
    let body = "void mainImage(out vec4 c, vec2 p) { c = vec4(1.0); }";
    let source = assets.wrap(body);
    let mut expected = String::new();
    expected.push_str(&assets.preamble);
    expected.push_str(body);
    expected.push_str(&assets.postamble);
    assert_eq!(source, expected);
}

#[test]
fn wrap_leaves_the_assets_unchanged() {
    let assets = assets();
    let _ = assets.wrap("x");
    assert_eq!(assets, self::assets());
}

#[test]
fn user_text_starts_right_behind_the_preamble() {
    let assets = assets();
    let body = "line one\nline two\nline three\n";
    let source = assets.wrap(body);
    let start = assets.preamble.len();
    assert_eq!(&source[start..start + body.len()], body);
}

#[test]
fn user_lines_are_shifted_by_the_lines_of_the_preamble() {
    let assets = assets();
    let body = "first\nsecond\nthird\n";
    let source = assets.wrap(body);
    let preamble_lines = assets.preamble.matches('\n').count();
    assert_eq!(preamble_lines, 3);
    let lines: Vec<&str> = source.lines().collect();
    let user: Vec<&str> = body.lines().collect();
    assert_eq!(lines[preamble_lines], user[0]);
    assert_eq!(lines[preamble_lines + 1], user[1]);
    assert_eq!(lines[preamble_lines + 2], user[2]);
}

#[test]
fn composing_twice_gives_the_same_source() {
    let assets = assets();
    assert_eq!(assets.wrap("same text"), assets.wrap("same text"));
}
