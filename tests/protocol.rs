use orbit::deploy::{Cause, Error as Failure};
use orbit::progress::{Error, ErrorResponse, Log, Progress, Stage};
use orbit::protocol::{
    check_status, decode, encode, encode_error, encode_log, encode_stage, Error as ClientError, Receiver,
};

const ALL_KINDS: [Error; 10] = [
    Error::Bootstrap,
    Error::Download,
    Error::Extraction,
    Error::Configure,
    Error::InstallDeps,
    Error::RunCommands,
    Error::Optimize,
    Error::Migrate,
    Error::Cleanup,
    Error::Publish,
];

#[test]
fn stage_names_are_snake_case() {
    assert_eq!(Stage::Starting.name(), "starting");
    assert_eq!(Stage::DepsInstalled.name(), "deps_installed");
    assert_eq!(Stage::Deployed.name(), "deployed");
    assert_eq!(Stage::from_name("migrated"), Some(Stage::Migrated));
    assert_eq!(Stage::from_name("Migrated"), None);
}

#[test]
fn progress_from_stage() {
    assert_eq!(Progress::from(Stage::Optimized), Progress::Stage(Stage::Optimized));
}

#[test]
fn error_response_carries_message() {
    let r = ErrorResponse::from(Error::Download);
    assert_eq!(r.error, Error::Download);
    assert_eq!(r.message, "Failed to clone the repository.");
    let r = ErrorResponse::from(Failure::Publish(Cause::Io("disk full".to_string())));
    assert_eq!(r.error, Error::Publish);
    assert_eq!(r.message, "Failed to publish the new deployment.");
}

#[test]
fn encodes_log_lines() {
    let ev = encode_log(&Log::Info("hi".to_string()));
    assert_eq!(ev.id, "log");
    assert_eq!(ev.data, "{\"type\":\"Info\",\"log\":\"hi\"}");
    let ev = encode_log(&Log::Error("say \"no\"\n".to_string()));
    assert_eq!(ev.data, "{\"type\":\"Error\",\"log\":\"say \\\"no\\\"\\n\"}");
}

#[test]
fn encodes_stages_and_errors() {
    let ev = encode_stage(Stage::DepsInstalled);
    assert_eq!(ev.id, "stage");
    assert_eq!(ev.data, "\"deps_installed\"");
    let ev = encode_error(Error::Download);
    assert_eq!(ev.id, "error");
    assert_eq!(ev.data, "{\"error\":\"download\",\"message\":\"Failed to clone the repository.\"}");
    let ev = encode(&Err(Error::RunCommands));
    assert_eq!(ev.data, "{\"error\":\"run_commands\",\"message\":\"Failed to run defined commands.\"}");
}

#[test]
fn log_round_trip() {
    for l in [Log::Info("a \"quoted\" line".to_string()), Log::Error("é\ttab".to_string())] {
        let ev = encode(&Ok(Progress::Log(l.clone())));
        assert_eq!(decode(&ev.id, &ev.data), Ok(Ok(Progress::Log(l))));
    }
}

#[test]
fn stage_round_trip() {
    for s in [Stage::Starting, Stage::Downloaded, Stage::DepsInstalled, Stage::Optimized, Stage::Migrated, Stage::Deployed] {
        let ev = encode_stage(s);
        assert_eq!(decode(&ev.id, &ev.data), Ok(Ok(Progress::Stage(s))));
    }
}

#[test]
fn error_kind_round_trip() {
    for k in ALL_KINDS {
        let ev = encode_error(k);
        assert_eq!(decode(&ev.id, &ev.data), Ok(Err(k)));
        assert_eq!(Error::from_name(&k.name()), Some(k));
    }
}

#[test]
fn pipeline_errors_map_to_one_kind_each() {
    let c = || Cause::Unexpected;
    let pairs = [
        (Failure::Bootstrap(c()), Error::Bootstrap),
        (Failure::Download(c()), Error::Download),
        (Failure::Extraction(c()), Error::Extraction),
        (Failure::Configure(c()), Error::Configure),
        (Failure::InstallDeps(c()), Error::InstallDeps),
        (Failure::RunCommands(c()), Error::RunCommands),
        (Failure::Optimize(c()), Error::Optimize),
        (Failure::Migrate(c()), Error::Migrate),
        (Failure::Cleanup(c()), Error::Cleanup),
        (Failure::Publish(c()), Error::Publish),
    ];
    for (f, k) in pairs {
        assert_eq!(f.kind(), k);
        assert_eq!(Error::from(f.clone()), k);
        assert_eq!(Failure::new(k, Cause::Unexpected), f);
    }
}

#[test]
fn unknown_event_id_is_invalid_event() {
    assert_eq!(decode("end", "{}"), Err(ClientError::InvalidEvent("end: {}".to_string())));
}

#[test]
fn malformed_data_is_decoding_error() {
    assert_eq!(decode("stage", "\"finished\""), Err(ClientError::Decoding("\"finished\"".to_string())));
    assert_eq!(decode("stage", "starting"), Err(ClientError::Decoding("starting".to_string())));
    assert_eq!(
        decode("log", "{\"type\":\"Warn\",\"log\":\"x\"}"),
        Err(ClientError::Decoding("{\"type\":\"Warn\",\"log\":\"x\"}".to_string()))
    );
    assert_eq!(
        decode("error", "{\"error\":\"exploded\",\"message\":\"x\"}"),
        Err(ClientError::Decoding("{\"error\":\"exploded\",\"message\":\"x\"}".to_string()))
    );
}

#[test]
fn decoding_accepts_whitespace() {
    assert_eq!(decode("stage", " \"deployed\" "), Ok(Ok(Progress::Stage(Stage::Deployed))));
    assert_eq!(
        decode("log", "{ \"log\": \"x\", \"type\": \"Info\" }"),
        Ok(Ok(Progress::Log(Log::Info("x".to_string()))))
    );
}

#[test]
fn status_at_stream_open() {
    assert_eq!(check_status(200), Ok(()));
    assert_eq!(check_status(204), Ok(()));
    assert_eq!(check_status(404), Err(ClientError::SiteNotFound));
    assert_eq!(check_status(401), Err(ClientError::Unauthorized));
    assert_eq!(check_status(403), Err(ClientError::Unauthorized));
    assert_eq!(check_status(500), Err(ClientError::InvalidResponse(500)));
    assert_eq!(check_status(302), Err(ClientError::InvalidResponse(302)));
}

#[test]
fn close_is_success_only_after_deployed() {
    let mut r = Receiver::new();
    assert_eq!(r.close(), Err(ClientError::Interrupted));
    r.observe(&Ok(Progress::Stage(Stage::Migrated)));
    assert_eq!(r.close(), Err(ClientError::Interrupted));
    r.observe(&Ok(Progress::Stage(Stage::Deployed)));
    assert_eq!(r.close(), Ok(()));
    r.observe(&Ok(Progress::Log(Log::Info("late".to_string()))));
    assert_eq!(r.close(), Err(ClientError::Interrupted));
    r.observe(&Err(Error::Cleanup));
    assert_eq!(r.close(), Err(ClientError::Interrupted));
}

#[test]
fn stage_descriptions() {
    assert_eq!(Stage::Starting.description(), "Starting deployment");
    assert_eq!(Stage::Downloaded.description(), "Downloaded repository");
    assert_eq!(Stage::DepsInstalled.description(), "Installed dependencies");
    assert_eq!(Stage::Optimized.description(), "Optimized deployment");
    assert_eq!(Stage::Migrated.description(), "Migrated database");
    assert_eq!(Stage::Deployed.description(), "Deployed site");
}

#[test]
fn log_text_escapes_control_characters() {
    let ev = encode_log(&Log::Info("a\u{1}b\u{8}\u{c}\r\\\u{1f}\u{7f}é".to_string()));
    assert_eq!(ev.data, "{\"type\":\"Info\",\"log\":\"a\\u0001b\\b\\f\\r\\\\\\u001f\u{7f}é\"}");
}
