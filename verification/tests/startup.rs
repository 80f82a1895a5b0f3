use shadertoy_viewer::source::ShaderAssets;
use shadertoy_viewer::startup::{
    exit_code, load_assets, require_default, require_watcher, startup_fragment, Asset,
    FatalStartupError,
};

fn ok(text: &str) -> Result<String, String> {
    Ok(text.to_string())
}

fn missing(reason: &str) -> Result<String, String> {
    Err(reason.to_string())
}

fn assets() -> ShaderAssets {
    ShaderAssets {
        vertex: "vertex".to_string(),
        preamble: "intro;".to_string(),
        postamble: ";outro".to_string(),
    }
}

#[test]
fn three_texts_that_were_read_make_the_assets() {
    assert_eq!(load_assets(ok("vertex"), ok("intro;"), ok(";outro")), Ok(assets()));
}

#[test]
fn a_missing_vertex_shader_is_fatal() {
    assert_eq!(
        load_assets(missing("no such file"), ok("intro"), ok("outro")),
        Err(FatalStartupError::UnreadableAsset(Asset::VertexShader, "no such file".to_string()))
    );
}

#[test]
fn a_missing_preamble_is_fatal() {
    assert_eq!(
        load_assets(ok("vertex"), missing("permission denied"), ok("outro")),
        Err(FatalStartupError::UnreadableAsset(
            Asset::FragmentPreamble,
            "permission denied".to_string()
        ))
    );
}

#[test]
fn a_missing_postamble_is_fatal() {
    assert_eq!(
        load_assets(ok("vertex"), ok("intro"), missing("not valid text")),
        Err(FatalStartupError::UnreadableAsset(
            Asset::FragmentPostamble,
            "not valid text".to_string()
        ))
    );
}

#[test]
fn the_first_missing_text_is_the_one_reported() {
    assert_eq!(
        load_assets(missing("a"), missing("b"), missing("c")),
        Err(FatalStartupError::UnreadableAsset(Asset::VertexShader, "a".to_string()))
    );
    assert_eq!(
        load_assets(ok("vertex"), missing("b"), missing("c")),
        Err(FatalStartupError::UnreadableAsset(Asset::FragmentPreamble, "b".to_string()))
    );
}

#[test]
fn a_shader_that_was_read_is_wrapped() {
    assert_eq!(
        startup_fragment(&assets(), Asset::DefaultShader, ok("void mainImage() {}")),
        Ok("intro;void mainImage() {};outro".to_string())
    );
}

#[test]
fn a_default_shader_that_cannot_be_read_is_fatal() {
    assert_eq!(
        startup_fragment(&assets(), Asset::DefaultShader, missing("gone")),
        Err(FatalStartupError::UnreadableAsset(Asset::DefaultShader, "gone".to_string()))
    );
}

#[test]
fn a_user_shader_that_cannot_be_read_at_startup_is_fatal() {
    assert_eq!(
        startup_fragment(&assets(), Asset::UserShader, missing("no such file")),
        Err(FatalStartupError::UnreadableAsset(Asset::UserShader, "no such file".to_string()))
    );
}

#[test]
fn a_default_program_that_compiled_is_kept() {
    assert_eq!(require_default::<u32>(Ok(11)), Ok(11));
}

#[test]
fn a_broken_default_shader_is_fatal_and_exits_non_zero() {
    let started = require_default::<u32>(Err("0:1(1): error: syntax error".to_string()));
    assert_eq!(
        started,
        Err(FatalStartupError::DefaultShaderFailed("0:1(1): error: syntax error".to_string()))
    );
    let ended = started.map(|_| ());
    assert_ne!(exit_code(&ended), 0);
    assert_eq!(exit_code(&ended), 1);
}

#[test]
fn a_watcher_that_attached_lets_startup_go_on() {
    assert_eq!(require_watcher(Ok("handle")), Ok("handle"));
}

#[test]
fn a_watcher_that_cannot_attach_is_fatal() {
    assert_eq!(
        require_watcher::<()>(Err("inotify limit reached".to_string())),
        Err(FatalStartupError::WatcherFailed("inotify limit reached".to_string()))
    );
}

#[test]
fn a_clean_close_exits_with_zero() {
    assert_eq!(exit_code(&Ok(())), 0);
}

#[test]
fn every_fatal_error_exits_with_one() {
    let errors = vec![
        FatalStartupError::UnreadableAsset(Asset::VertexShader, "a".to_string()),
        FatalStartupError::UnreadableAsset(Asset::UserShader, String::new()),
        FatalStartupError::DefaultShaderFailed("b".to_string()),
        FatalStartupError::WatcherFailed("c".to_string()),
    ];
    for error in errors {
        assert_eq!(exit_code(&Err(error)), 1);
    }
}

#[test]
fn a_fatal_error_hands_out_its_text() {
    assert_eq!(
        FatalStartupError::UnreadableAsset(Asset::FragmentPreamble, "why".to_string()).diagnostic(),
        "why"
    );
    assert_eq!(
        FatalStartupError::DefaultShaderFailed("compiler said no".to_string()).diagnostic(),
        "compiler said no"
    );
    assert_eq!(FatalStartupError::WatcherFailed("busy".to_string()).diagnostic(), "busy");
}
