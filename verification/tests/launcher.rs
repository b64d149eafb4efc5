use launcher_core::args::build_args;
use launcher_core::config::{load_config, settings_file_name, Config};
use launcher_core::confirm::{interpret_answer, select_startup};
use launcher_core::errors::LaunchError;
use launcher_core::manifest::{derive_temp_path, patched_content};
use launcher_core::plan::{conclude_run, plan_launch, SpawnOutcome};

fn sample_config() -> Config {
    Config {
        me3_path: "loader.exe".to_string(),
        mod_path: "mods/m.me3".to_string(),
        game_exe: "Game.exe".to_string(),
        game: "ds3".to_string(),
        extra_args: Vec::new(),
    }
}

const PATCH_TAIL: &str =
    "\n[[natives]]\nid = \"OnlineFix\"\npath = \"OnlineFix/OnlineFix64.dll\"\nload_early = true\n";

#[test]
fn settings_name_is_fixed() {
    assert_eq!(settings_file_name(), "config.toml");
}

#[test]
fn load_config_full_document() {
    let doc = "me3_path = \"loader.exe\"\nmod_path = \"mods/m.me3\"\ngame_exe = \"Game.exe\"\ngame = \"ds3\"\nextra_args = [\"--skip-logos\", \"-v\"]\n";
    let c = load_config("here/config.toml", Some(doc)).unwrap();
    assert_eq!(c.me3_path, "loader.exe");
    assert_eq!(c.mod_path, "mods/m.me3");
    assert_eq!(c.game_exe, "Game.exe");
    assert_eq!(c.game, "ds3");
    assert_eq!(c.extra_args, vec!["--skip-logos".to_string(), "-v".to_string()]);
}

#[test]
fn load_config_without_extra_args() {
    let doc = "me3_path = \"loader.exe\"\nmod_path = \"mods/m.me3\"\ngame_exe = \"Game.exe\"\ngame = \"ds3\"\n";
    let c = load_config("config.toml", Some(doc)).unwrap();
    assert!(c.extra_args.is_empty());
}

#[test]
fn load_config_missing_file_is_read_error() {
    let r = load_config("bin/config.toml", None);
    assert_eq!(r, Err(LaunchError::ConfigReadError { path: "bin/config.toml".to_string() }));
}

#[test]
fn load_config_missing_field_is_parse_error() {
    let doc = "me3_path = \"loader.exe\"\nmod_path = \"mods/m.me3\"\ngame = \"ds3\"\n";
    let r = load_config("config.toml", Some(doc));
    assert_eq!(r, Err(LaunchError::ConfigParseError { path: "config.toml".to_string() }));
}

#[test]
fn load_config_wrong_type_is_parse_error() {
    let doc = "me3_path = 5\nmod_path = \"mods/m.me3\"\ngame_exe = \"Game.exe\"\ngame = \"ds3\"\n";
    let r = load_config("config.toml", Some(doc));
    assert!(matches!(r, Err(LaunchError::ConfigParseError { .. })));
}

#[test]
fn load_config_bad_extra_args_is_parse_error() {
    let doc = "me3_path = \"loader.exe\"\nmod_path = \"mods/m.me3\"\ngame_exe = \"Game.exe\"\ngame = \"ds3\"\nextra_args = [1, 2]\n";
    let r = load_config("config.toml", Some(doc));
    assert!(matches!(r, Err(LaunchError::ConfigParseError { .. })));
}

#[test]
fn load_config_unparseable_document_is_parse_error() {
    let r = load_config("config.toml", Some("me3_path = \"unterminated"));
    assert!(matches!(r, Err(LaunchError::ConfigParseError { .. })));
}

#[test]
fn built_args_without_extras() {
    let c = sample_config();
    let args = build_args(&c, "mods/m.me3");
    assert_eq!(
        args,
        vec!["launch", "-p", "mods/m.me3", "--game", "ds3", "--exe", "Game.exe"]
            .into_iter()
            .map(str::to_string)
            .collect::<Vec<_>>()
    );
    assert_eq!(args.len(), 7);
}

#[test]
fn built_args_keep_extras_in_place() {
    let mut c = sample_config();
    c.extra_args = vec!["--skip-logos".to_string(), "-v".to_string()];
    let args = build_args(&c, "mods/m.me3");
    assert_eq!(args.len(), 9);
    assert_eq!(&args[5], "--skip-logos");
    assert_eq!(&args[6], "-v");
    assert_eq!(&args[7], "--exe");
    assert_eq!(&args[8], "Game.exe");
}

#[test]
fn temp_path_replaces_final_extension() {
    assert_eq!(derive_temp_path("mods/m.me3"), "mods/m.temp.me3");
    assert_eq!(derive_temp_path("dir\\m.me3"), "dir\\m.temp.me3");
    assert_eq!(derive_temp_path("m.temp.me3"), "m.temp.temp.me3");
}

#[test]
fn temp_path_appends_when_no_extension() {
    assert_eq!(derive_temp_path("manifest"), "manifest.temp.me3");
    assert_eq!(derive_temp_path("mods/.me3"), "mods/.me3.temp.me3");
    assert_eq!(derive_temp_path(""), ".temp.me3");
}

#[test]
fn patched_text_is_original_newline_fragment() {
    let expected = "a=1\n\n[[natives]]\nid = \"OnlineFix\"\npath = \"OnlineFix/OnlineFix64.dll\"\nload_early = true\n";
    assert_eq!(patched_content("a=1"), expected);
    assert_eq!(patched_content("a=1"), format!("a=1\n{}", PATCH_TAIL));
}

#[test]
fn plan_without_patch_creates_nothing() {
    let c = sample_config();
    let plan = plan_launch(&c, false, None).unwrap();
    assert!(plan.temp.is_none());
    assert_eq!(plan.final_manifest, "mods/m.me3");
    assert_eq!(plan.program, "loader.exe");
    assert_eq!(
        plan.args,
        vec!["launch", "-p", "mods/m.me3", "--game", "ds3", "--exe", "Game.exe"]
            .into_iter()
            .map(str::to_string)
            .collect::<Vec<_>>()
    );
}

#[test]
fn plan_with_patch_writes_temp_sibling() {
    let c = sample_config();
    let plan = plan_launch(&c, true, Some("a=1")).unwrap();
    let temp = plan.temp.as_ref().unwrap();
    assert_eq!(temp.path, "mods/m.temp.me3");
    assert_eq!(temp.content, format!("a=1\n{}", PATCH_TAIL));
    assert_ne!(temp.path, c.mod_path);
    assert_eq!(plan.final_manifest, "mods/m.temp.me3");
    assert_eq!(&plan.args[2], "mods/m.temp.me3");
}

#[test]
fn plan_with_patch_and_unreadable_manifest_fails() {
    let c = sample_config();
    let r = plan_launch(&c, true, None);
    assert_eq!(r, Err(LaunchError::ManifestReadError { path: "mods/m.me3".to_string() }));
}

#[test]
fn spawn_failure_still_cleans_up_and_names_program() {
    let temp = "mods/m.temp.me3".to_string();
    let r = conclude_run("loader.exe", Some(&temp), SpawnOutcome::FailedToStart);
    assert_eq!(r.cleanup_path.as_deref(), Some("mods/m.temp.me3"));
    assert!(r.diagnostic.is_none());
    let e = r.outcome.unwrap_err();
    assert_eq!(e, LaunchError::SpawnError { program: "loader.exe".to_string() });
    let msg = e.message();
    assert!(msg.contains("loader.exe"));
    assert!(msg.contains("search path"));
}

#[test]
fn nonzero_exit_is_diagnostic_not_error() {
    let temp = "mods/m.temp.me3".to_string();
    let r = conclude_run(
        "loader.exe",
        Some(&temp),
        SpawnOutcome::Exited { success: false, code: Some(1) },
    );
    assert_eq!(r.cleanup_path.as_deref(), Some("mods/m.temp.me3"));
    assert_eq!(r.diagnostic.as_deref(), Some("loader exited abnormally with code 1"));
    assert!(r.outcome.is_ok());
}

#[test]
fn signal_death_reports_unknown_code() {
    let r = conclude_run(
        "loader.exe",
        None,
        SpawnOutcome::Exited { success: false, code: None },
    );
    assert!(r.cleanup_path.is_none());
    assert_eq!(r.diagnostic.as_deref(), Some("loader exited abnormally with code unknown"));
    assert!(r.outcome.is_ok());
}

#[test]
fn negative_exit_code_is_rendered_with_sign() {
    let r = conclude_run(
        "loader.exe",
        None,
        SpawnOutcome::Exited { success: false, code: Some(-1073741819) },
    );
    assert_eq!(
        r.diagnostic.as_deref(),
        Some("loader exited abnormally with code -1073741819")
    );
}

#[test]
fn clean_exit_concludes_silently() {
    let r = conclude_run(
        "loader.exe",
        None,
        SpawnOutcome::Exited { success: true, code: Some(0) },
    );
    assert!(r.cleanup_path.is_none());
    assert!(r.diagnostic.is_none());
    assert!(r.outcome.is_ok());
}

#[test]
fn error_messages_name_the_offending_path() {
    let e = LaunchError::ConfigReadError { path: "bin/config.toml".to_string() };
    assert_eq!(e.message(), "failed to read settings file: bin/config.toml");
    let e = LaunchError::ConfigParseError { path: "bin/config.toml".to_string() };
    assert_eq!(e.message(), "failed to parse settings file: bin/config.toml");
    let e = LaunchError::ManifestReadError { path: "mods/m.me3".to_string() };
    assert_eq!(e.message(), "failed to read mod manifest: mods/m.me3");
    let e = LaunchError::TempWriteError { path: "mods/m.temp.me3".to_string() };
    assert_eq!(e.message(), "failed to write temporary manifest: mods/m.temp.me3");
}

#[test]
fn confirmation_accepts_only_the_four_letters() {
    assert_eq!(interpret_answer("y\n"), Some(true));
    assert_eq!(interpret_answer("Y\n"), Some(true));
    assert_eq!(interpret_answer("n\n"), Some(false));
    assert_eq!(interpret_answer("N\n"), Some(false));
    assert_eq!(interpret_answer("  y  \r\n"), Some(true));
    assert_eq!(interpret_answer("yes\n"), None);
    assert_eq!(interpret_answer("q\n"), None);
    assert_eq!(interpret_answer("\n"), None);
    assert_eq!(interpret_answer(""), None);
    assert_eq!(interpret_answer("y y\n"), None);
}

#[test]
fn startup_selection_names_three_modes() {
    let lan = select_startup(true, false);
    assert_eq!(lan.program, "steamclient_loader.exe");
    assert!(lan.args.is_empty());

    let patched = select_startup(false, true);
    assert_eq!(patched.program, "me3_launcher.exe");
    assert_eq!(patched.args, vec!["--with-onlinefix".to_string()]);

    let plain = select_startup(false, false);
    assert_eq!(plain.program, "me3_launcher.exe");
    assert!(plain.args.is_empty());
}
