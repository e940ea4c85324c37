use gateway::logger::{
    directive, human_layer, log_file_prefix, max_log_files, LayerKind, LogFormat, LoggerConfig, LoggerFileOutput,
    LoggerOutput, LoggerStderrOutput,
};

fn file(human_readable: bool, format: Option<LogFormat>) -> LoggerFileOutput {
    LoggerFileOutput { human_readable, format, ..LoggerFileOutput::new("/var/log/gateway".to_string()) }
}

#[test]
fn the_default_output_is_the_standard_error_stream() {
    assert_eq!(LogFormat::default(), LogFormat::Auto);
    assert_eq!(LoggerStderrOutput::default(), LoggerStderrOutput { format: LogFormat::Auto });
    assert_eq!(
        LoggerConfig::default().outputs,
        vec![LoggerOutput::Stderr(LoggerStderrOutput { format: LogFormat::Auto })]
    );
}

#[test]
fn a_new_file_output_has_the_default_prefix_and_count() {
    assert_eq!(log_file_prefix(), "tycho.log");
    assert_eq!(max_log_files(), 25);
    let output = LoggerFileOutput::new("/var/log/gateway".to_string());
    assert_eq!(
        output,
        LoggerFileOutput {
            dir: "/var/log/gateway".to_string(),
            human_readable: false,
            format: None,
            file_prefix: "tycho.log".to_string(),
            max_files: 25,
        }
    );
}

#[test]
fn a_file_settles_on_human_or_json() {
    assert_eq!(file(false, None).resolved_format(), LogFormat::Json);
    assert_eq!(file(true, None).resolved_format(), LogFormat::Human);
    assert_eq!(file(false, Some(LogFormat::Auto)).resolved_format(), LogFormat::Json);
    assert_eq!(file(true, Some(LogFormat::Auto)).resolved_format(), LogFormat::Human);
    assert_eq!(file(false, Some(LogFormat::Human)).resolved_format(), LogFormat::Human);
    assert_eq!(file(true, Some(LogFormat::Human)).resolved_format(), LogFormat::Human);
    assert_eq!(file(false, Some(LogFormat::Json)).resolved_format(), LogFormat::Json);
    assert_eq!(file(true, Some(LogFormat::Json)).resolved_format(), LogFormat::Json);
}

#[test]
fn a_file_writes_plain_lines_or_json() {
    let plain = LayerKind::Human { timestamps: false, ansi: false };
    assert_eq!(file(true, None).as_layer(), plain);
    assert_eq!(file(false, Some(LogFormat::Human)).as_layer(), plain);
    assert_eq!(file(false, None).as_layer(), LayerKind::Json);
    assert_eq!(file(true, Some(LogFormat::Json)).as_layer(), LayerKind::Json);
    assert_eq!(LoggerOutput::File(file(true, None)).as_layer(true, true), plain);
    assert_eq!(LoggerOutput::File(file(false, None)).as_layer(false, true), LayerKind::Json);
}

#[test]
fn lines_for_humans_follow_the_surroundings() {
    assert_eq!(human_layer(true, true), LayerKind::Human { timestamps: false, ansi: false });
    assert_eq!(human_layer(true, false), LayerKind::Human { timestamps: false, ansi: false });
    assert_eq!(human_layer(false, false), LayerKind::Human { timestamps: true, ansi: false });
    assert_eq!(human_layer(false, true), LayerKind::Human { timestamps: true, ansi: true });
}

#[test]
fn the_standard_error_stream_writes_json_only_when_asked() {
    let stderr = |format| LoggerStderrOutput { format };
    for (systemd, terminal) in [(false, false), (false, true), (true, false), (true, true)] {
        assert_eq!(stderr(LogFormat::Json).as_layer(systemd, terminal), LayerKind::Json);
        assert_eq!(stderr(LogFormat::Human).as_layer(systemd, terminal), human_layer(systemd, terminal));
        assert_eq!(stderr(LogFormat::Auto).as_layer(systemd, terminal), human_layer(systemd, terminal));
        assert_eq!(
            LoggerOutput::Stderr(stderr(LogFormat::Auto)).as_layer(systemd, terminal),
            human_layer(systemd, terminal)
        );
    }
}

#[test]
fn a_directive_joins_target_and_level() {
    assert_eq!(directive("gateway", "debug"), "gateway=debug");
    assert_eq!(directive("tower_http::trace", "info"), "tower_http::trace=info");
    assert_eq!(directive("", ""), "=");
}
