use fho::dispatch::{CommandInfo, FhoHandler, ToolCommand};
use fho::errors::FhoError;

fn fake_info() -> CommandInfo {
    CommandInfo { name: "fake".to_string(), description: "fake command".to_string() }
}

fn tokens(v: &[&str]) -> Vec<String> {
    let mut out = Vec::new();
    for s in v {
        out.push(s.to_string());
    }
    out
}

#[test]
fn metadata_dispatch_selects_metadata_branch() {
    let cmd = ToolCommand::from_args(&fake_info(), &tokens(&["metadata"])).expect("parse");
    match cmd.subcommand {
        FhoHandler::Metadata(m) => assert!(m.output_path.is_none()),
        FhoHandler::Standalone(_) => panic!("metadata argv must not select the standalone branch"),
    }
}

#[test]
fn metadata_dispatch_takes_optional_output_path() {
    let cmd =
        ToolCommand::from_args(&fake_info(), &tokens(&["metadata", "/tmp/meta.json"])).expect("parse");
    match cmd.subcommand {
        FhoHandler::Metadata(m) => assert_eq!(m.output_path.as_deref(), Some("/tmp/meta.json")),
        FhoHandler::Standalone(_) => panic!("wrong branch"),
    }
}

#[test]
fn metadata_dispatch_rejects_extra_arguments() {
    let r = ToolCommand::from_args(&fake_info(), &tokens(&["metadata", "a", "b"]));
    match r {
        Err(FhoError::Usage { usage }) => assert!(usage.contains("fake")),
        _ => panic!("three metadata arguments must be a usage error"),
    }
}

#[test]
fn standalone_dispatch_carries_tool_arguments() {
    let cmd = ToolCommand::from_args(&fake_info(), &tokens(&["fake", "stuff", "more"])).expect("parse");
    match cmd.subcommand {
        FhoHandler::Standalone(rest) => assert_eq!(rest, tokens(&["stuff", "more"])),
        FhoHandler::Metadata(_) => panic!("wrong branch"),
    }
}

#[test]
fn unknown_subcommand_is_usage_error() {
    let r = ToolCommand::from_args(&fake_info(), &tokens(&["other"]));
    match r {
        Err(FhoError::Usage { usage }) => {
            assert!(usage.contains("fake"));
            assert!(usage.contains("metadata"));
        },
        _ => panic!("an unknown subcommand must be a usage error"),
    }
}

#[test]
fn empty_command_line_is_usage_error() {
    let r = ToolCommand::from_args(&fake_info(), &tokens(&[]));
    assert!(matches!(r, Err(FhoError::Usage { .. })));
}

#[test]
fn usage_error_message_is_prefixed() {
    let r = ToolCommand::from_args(&fake_info(), &tokens(&["other"]));
    match r {
        Err(e) => {
            let msg = e.message();
            assert!(msg.starts_with("Usage error:\n"));
        },
        Ok(_) => panic!("expected a usage error"),
    }
}
