use soundcloud_dl::audio::{handler_for, picture_mime_type, AudioHandler};
use soundcloud_dl::cli::{Cli, Commands, ConfigWrites, ToolPlan};
use soundcloud_dl::config::{Config, APP_NAME, ORGANIZATION};
use soundcloud_dl::error::AppError;
use soundcloud_dl::ffmpeg::{
    binary, download_url, get_default_ffmpeg_path, init, is_tool_entry, output_path,
    reformat_m4a, FFmpeg, Os,
};

fn cli() -> Cli {
    Cli {
        auth: None,
        config: None,
        clear_token: false,
        ffmpeg_path: None,
        save_token: false,
        yes: false,
        command: None,
    }
}

fn config(token: Option<&str>) -> Config {
    Config::load("/home/u/.config/soundcloud-dl/config.toml".to_string(), token.map(String::from))
}

#[test]
fn every_error_has_its_message() {
    let m = |s: &str| s.to_string();
    assert_eq!(AppError::Network(m("down")).message(), "Network error: down");
    assert_eq!(AppError::Io(m("disk")).message(), "IO error: disk");
    assert_eq!(AppError::FFmpeg(m("exit")).message(), "FFmpeg error: exit");
    assert_eq!(AppError::Audio(m("bad")).message(), "Audio processing error: bad");
    assert_eq!(AppError::RateLimited.message(), "Rate limited by SoundCloud API");
    assert_eq!(AppError::Configuration(m("none")).message(), "Configuration error: none");
    assert_eq!(AppError::Parse(m("eof")).message(), "Parse error: eof");
    assert_eq!(AppError::Id3(m("tag")).message(), "ID3 tag error: tag");
    assert_eq!(AppError::NotFound(m("gone")).message(), "Not found: gone");
}

#[test]
fn an_error_is_duplicated_as_it_is() {
    for e in [
        AppError::Network("a".to_string()),
        AppError::RateLimited,
        AppError::NotFound("b".to_string()),
        AppError::Parse(String::new()),
    ] {
        assert_eq!(e.duplicate(), e);
    }
}

#[test]
fn the_handler_goes_by_address_then_container() {
    assert_eq!(handler_for("m3u8", "mp3"), Ok(AudioHandler::M3u8));
    assert_eq!(handler_for("m3u8", "flac"), Ok(AudioHandler::M3u8));
    assert_eq!(handler_for("mp3", "mp3"), Ok(AudioHandler::Mp3));
    assert_eq!(handler_for("", "m4a"), Ok(AudioHandler::M4a));
    assert_eq!(handler_for("opus", "ogg"), Ok(AudioHandler::Ogg));
    assert_eq!(
        handler_for("flac", "flac"),
        Err(AppError::Audio("Unsupported audio format: flac".to_string()))
    );
    assert_eq!(
        handler_for("mp3", "MP3"),
        Err(AppError::Audio("Unsupported audio format: MP3".to_string()))
    );
}

#[test]
fn covers_are_jpeg_unless_png() {
    assert_eq!(picture_mime_type("png"), "image/png");
    assert_eq!(picture_mime_type("jpg"), "image/jpeg");
    assert_eq!(picture_mime_type("jpeg"), "image/jpeg");
    assert_eq!(picture_mime_type("webp"), "image/jpeg");
    assert_eq!(picture_mime_type(""), "image/jpeg");
}

#[test]
fn the_given_token_goes_before_the_stored_one() {
    let mut c = cli();
    c.auth = Some("given".to_string());
    assert_eq!(c.resolve_auth_token(&config(Some("stored"))), Ok("given".to_string()));
    assert_eq!(c.resolve_auth_token(&config(None)), Ok("given".to_string()));
    assert_eq!(cli().resolve_auth_token(&config(Some("stored"))), Ok("stored".to_string()));
}

#[test]
fn without_any_token_the_configuration_is_at_fault() {
    assert_eq!(
        cli().resolve_auth_token(&config(None)),
        Err(AppError::Configuration(
            "OAuth token is required to run this program. Exiting.".to_string()
        ))
    );
}

#[test]
fn the_output_directory_is_that_of_the_command() {
    let dir = Some("music".to_string());
    let track = Commands::Track { output: dir.clone(), url: "u".to_string() };
    let likes =
        Commands::Likes { output: dir.clone(), skip: 0, limit: 10, chunk_size: 50, user: None };
    let playlist = Commands::Playlist { output: None, url: "u".to_string() };
    assert_eq!(track.output_dir(), Some(&"music".to_string()));
    assert_eq!(likes.output_dir(), Some(&"music".to_string()));
    assert_eq!(playlist.output_dir(), None);

    let mut c = cli();
    assert_eq!(c.resolve_output_dir(), None);
    c.command = Some(playlist);
    assert_eq!(c.resolve_output_dir(), None);
    c.command = Some(track);
    assert_eq!(c.resolve_output_dir(), dir);
}

#[test]
fn a_token_is_stored_only_when_given_and_asked_for() {
    let mut c = cli();
    let mut conf = config(Some("old"));
    assert_eq!(c.config_init(&mut conf), ConfigWrites { save: false, clear: false });
    assert!(!c.config_init(&mut conf).any());
    assert_eq!(conf.get_oauth_token(), Ok(Some("old".to_string())));

    c.save_token = true;
    assert_eq!(c.config_init(&mut conf), ConfigWrites { save: false, clear: false });
    assert_eq!(conf.get_oauth_token(), Ok(Some("old".to_string())));

    c.auth = Some("new".to_string());
    c.save_token = false;
    assert_eq!(c.config_init(&mut conf), ConfigWrites { save: false, clear: false });
    assert_eq!(conf.get_oauth_token(), Ok(Some("old".to_string())));

    c.save_token = true;
    let writes = c.config_init(&mut conf);
    assert_eq!(writes, ConfigWrites { save: true, clear: false });
    assert!(writes.any());
    assert_eq!(conf.get_oauth_token(), Ok(Some("new".to_string())));
    assert_eq!(conf.config_path(), "/home/u/.config/soundcloud-dl/config.toml");
}

#[test]
fn clearing_is_left_to_the_write() {
    let mut c = cli();
    c.clear_token = true;
    let mut conf = config(Some("old"));
    let writes = c.config_init(&mut conf);
    assert_eq!(writes, ConfigWrites { save: false, clear: true });
    assert!(writes.any());
    assert_eq!(conf.get_oauth_token(), Ok(Some("old".to_string())));
}

#[test]
fn the_configuration_holds_what_was_loaded() {
    assert_eq!(config(None).get_oauth_token(), Ok(None));
    let mut conf = config(None);
    conf.save_oauth_token("abc");
    assert_eq!(conf.get_oauth_token(), Ok(Some("abc".to_string())));
    assert_eq!(APP_NAME, "soundcloud-dl");
    assert_eq!(ORGANIZATION, "damaredayo");
}

#[test]
fn the_tool_is_used_installed_or_asked_about() {
    let mut c = cli();
    assert_eq!(c.resolve_ffmpeg_path(true), ToolPlan::Use);
    assert_eq!(c.resolve_ffmpeg_path(false), ToolPlan::Ask);
    c.yes = true;
    assert_eq!(c.resolve_ffmpeg_path(true), ToolPlan::Use);
    assert_eq!(c.resolve_ffmpeg_path(false), ToolPlan::Install);
    assert_eq!(Cli::on_answer(true), Ok(ToolPlan::Install));
    assert_eq!(
        Cli::on_answer(false),
        Err(AppError::FFmpeg("FFmpeg is required to run this program. Exiting.".to_string()))
    );
}

#[test]
fn the_tool_is_taken_where_it_answered() {
    let tool = FFmpeg::new("/usr/bin/ffmpeg".to_string(), true).unwrap();
    assert_eq!(tool.path(), "/usr/bin/ffmpeg");
    assert_eq!(
        FFmpeg::new("/opt/ffmpeg".to_string(), false),
        Err(AppError::FFmpeg("FFmpeg not found at path: /opt/ffmpeg".to_string()))
    );
    assert_eq!(init(true), Ok(()));
    assert_eq!(
        init(false),
        Err(AppError::FFmpeg(
            "FFmpeg is not installed. Please install it first - see README.md for instructions"
                .to_string()
        ))
    );
}

#[test]
fn the_tool_is_fetched_per_system() {
    assert_eq!(binary(Os::Windows), "ffmpeg.exe");
    assert_eq!(binary(Os::Linux), "ffmpeg");
    assert_eq!(binary(Os::MacOs), "ffmpeg");
    assert!(download_url(Os::Windows).ends_with("win64-lgpl.zip"));
    assert!(download_url(Os::Linux).ends_with("linux64-lgpl.tar.xz"));
    assert_eq!(download_url(Os::MacOs), "https://evermeet.cx/ffmpeg/getrelease/zip");
    assert_eq!(get_default_ffmpeg_path(), "/usr/local/bin");
    assert!(is_tool_entry("ffmpeg-master-latest-linux64-lgpl/bin/ffmpeg", Os::Linux));
    assert!(is_tool_entry("ffmpeg", Os::MacOs));
    assert!(!is_tool_entry("bin/ffprobe", Os::Linux));
    assert!(!is_tool_entry("", Os::Linux));
    assert!(is_tool_entry("x/bin/ffmpeg.exe", Os::Windows));
    assert!(!is_tool_entry("x/bin/ffmpeg", Os::Windows));
}

#[test]
fn remuxing_copies_the_streams() {
    let tool = FFmpeg::new("ffmpeg".to_string(), true).unwrap();
    assert_eq!(
        tool.reformat_m4a("/tmp/a.m4a", None, Some("out/x.m4a")).unwrap(),
        vec![
            "-y", "-i", "/tmp/a.m4a", "-threads", "0", "-c", "copy", "-movflags", "+faststart",
            "-loglevel", "error", "out/x.m4a"
        ]
    );
    assert_eq!(
        tool.reformat_m4a("/tmp/a.m4a", Some("/tmp/c.jpg"), Some("out/x.m4a")).unwrap(),
        vec![
            "-y", "-i", "/tmp/a.m4a", "-threads", "0", "-i", "/tmp/c.jpg", "-map", "0:a", "-map",
            "1:v", "-c:a", "copy", "-c:v", "copy", "-metadata:s:v", "title=Album cover",
            "-metadata:s:v", "comment=Cover (front)", "-disposition:v", "attached_pic",
            "-movflags", "+faststart", "-loglevel", "error", "out/x.m4a"
        ]
    );
}

#[test]
fn segments_are_fetched_over_the_listed_protocols() {
    let tool = FFmpeg::new("ffmpeg".to_string(), true).unwrap();
    assert_eq!(
        tool.process_m3u8("/tmp/p.m3u8", None, Some("out/x.m4a")).unwrap(),
        vec![
            "-y", "-protocol_whitelist", "file,http,https,tcp,tls", "-threads", "0", "-i",
            "/tmp/p.m3u8", "-c", "copy", "-movflags", "+faststart", "-loglevel", "error",
            "out/x.m4a"
        ]
    );
    let with_cover = tool.process_m3u8("/tmp/p.m3u8", Some("/tmp/c.png"), Some("out/x.m4a")).unwrap();
    assert_eq!(with_cover.len(), 28);
    assert_eq!(with_cover[7], "-i");
    assert_eq!(with_cover[8], "/tmp/c.png");
    assert_eq!(with_cover[27], "out/x.m4a");
}

#[test]
fn a_failed_run_names_its_exit_code() {
    assert_eq!(FFmpeg::run_command(true, Some(0)), Ok(()));
    assert_eq!(FFmpeg::run_command(true, None), Ok(()));
    let failed = |code: Option<i32>| match FFmpeg::run_command(false, code) {
        Err(AppError::FFmpeg(text)) => text,
        other => panic!("unexpected outcome: {:?}", other),
    };
    assert_eq!(failed(Some(1)), "FFmpeg failed with exit code: 1");
    assert_eq!(failed(Some(255)), "FFmpeg failed with exit code: 255");
    assert_eq!(failed(Some(-11)), "FFmpeg failed with exit code: -11");
    assert_eq!(failed(Some(i32::MIN)), "FFmpeg failed with exit code: -2147483648");
    assert_eq!(failed(Some(0)), "FFmpeg failed with exit code: 0");
    assert_eq!(failed(None), "FFmpeg failed with exit code: 1");
}

#[test]
fn remuxing_to_mp4_names_the_container() {
    assert_eq!(
        reformat_m4a("/tmp/a", None, Some("out/x.m4a")).unwrap(),
        vec![
            "-y", "-i", "/tmp/a", "-c", "copy", "-f", "mp4", "-movflags", "+faststart",
            "-loglevel", "error", "out/x.m4a"
        ]
    );
    let with_cover = reformat_m4a("/tmp/a", Some("/tmp/c.jpg"), Some("out/x.m4a")).unwrap();
    assert_eq!(with_cover.len(), 26);
    assert_eq!(&with_cover[..5], ["-y", "-i", "/tmp/a", "-i", "/tmp/c.jpg"]);
    assert_eq!(&with_cover[17..21], ["-disposition:v", "attached_pic", "-f", "mp4"]);
    assert_eq!(with_cover[25], "out/x.m4a");
}

#[test]
fn an_output_path_that_is_no_text_is_an_error_before_the_tool_starts() {
    let invalid = AppError::FFmpeg("Invalid output path".to_string());
    let tool = FFmpeg::new("ffmpeg".to_string(), true).unwrap();
    assert_eq!(output_path(None), Err(invalid.clone()));
    assert_eq!(output_path(Some("out/x.m4a")), Ok("out/x.m4a"));
    assert_eq!(output_path(Some("")), Ok(""));
    assert_eq!(reformat_m4a("/tmp/a", None, None), Err(invalid.clone()));
    assert_eq!(reformat_m4a("/tmp/a", Some("/tmp/c.jpg"), None), Err(invalid.clone()));
    assert_eq!(tool.reformat_m4a("/tmp/a", None, None), Err(invalid.clone()));
    assert_eq!(tool.process_m3u8("/tmp/p", Some("/tmp/c.png"), None), Err(invalid));
}
