//! Command registration and dispatch.

use webview_bridge::emitter::Sessions;
use webview_bridge::envelope::{classify_inbound, InboundMessage};
use webview_bridge::fsapi::BaseDirectory;
use webview_bridge::ops::{AppMetadata, HostOp, OpOutput};
use webview_bridge::plugins::{AllAppPlugins, AllFsPlugins, AllOsPlugins, AllWebWindowPlugins};
use webview_bridge::registry::{CommandRegistry, DispatchItem};

fn app_registry() -> CommandRegistry {
    let mut reg = CommandRegistry::new();
    AllAppPlugins.register(&mut reg);
    reg
}

#[test]
fn registered_get_name() {
    let reg = app_registry();
    assert!(reg.lookup("FLURX|app::get_name").is_some());
}

#[test]
fn registered_get_version() {
    let reg = app_registry();
    assert!(reg.lookup("FLURX|app::get_version").is_some());
}

#[test]
fn registered_exit() {
    let reg = app_registry();
    assert!(reg.lookup("FLURX|app::exit").is_some());
}

#[test]
fn get_correct_app_name() {
    let meta = AppMetadata {
        name: "bevy_flurx_api".to_string(),
        version: "0.1.0".to_string(),
    };
    let out = webview_bridge::ops::app_output(&HostOp::AppGetName, &meta);
    match out {
        Some(OpOutput::Text(name)) => assert_eq!(name, "bevy_flurx_api"),
        _ => panic!("expected the application name"),
    }
}

#[test]
fn registered_fs_commands() {
    let mut reg = CommandRegistry::new();
    AllFsPlugins.register(&mut reg);
    assert!(reg.lookup("FLURX|fs::create_dir").is_some());
    assert!(reg.lookup("FLURX|fs::exists").is_some());
    assert!(reg.lookup("FLURX|fs::remove_dir").is_some());
    assert!(reg.lookup("FLURX|fs::copy_file").is_none());
}

#[test]
fn registered_os_and_web_window_commands() {
    let mut reg = CommandRegistry::new();
    AllOsPlugins.register(&mut reg);
    AllWebWindowPlugins.register(&mut reg);
    assert!(reg.lookup("FLURX|os::arch").is_some());
    assert!(reg.lookup("FLURX|os::locale").is_some());
    assert!(reg.lookup("FLURX|web_window::focus").is_some());
    assert!(reg.lookup("FLURX|web_window::outer_position").is_some());
}

#[test]
fn duplicate_registration_is_rejected() {
    let mut reg = CommandRegistry::new();
    AllAppPlugins.register(&mut reg);
    let added = reg.register(
        "FLURX|app::get_name".to_string(),
        webview_bridge::ops::OpKind::AppExit,
    );
    assert!(!added);
}

/// A batch mixing well-formed and malformed command messages: every
/// well-formed message is dispatched and every malformed one is dropped
/// without affecting the others.
#[test]
fn mixed_batch_dispatches_each_message_on_its_own() {
    let mut reg = CommandRegistry::new();
    AllFsPlugins.register(&mut reg);
    let good = "{\"command_id\":\"FLURX|fs::exists\",\"args\":{\"path\":\"/tmp\",\"dir\":null},\"correlation\":\"c1\"}";
    let not_json = "{\"command_id\":";
    let unknown = "{\"command_id\":\"FLURX|fs::copy_file\",\"args\":{},\"correlation\":\"c2\"}";
    let bad_args = "{\"command_id\":\"FLURX|fs::exists\",\"args\":{\"path\":7},\"correlation\":\"c3\"}";
    let mut batch = Vec::new();
    for raw in [good, not_json, unknown, bad_args] {
        match classify_inbound(1, raw) {
            Some(InboundMessage::Command(c)) => batch.push(c),
            Some(InboundMessage::Event(_)) => panic!("not an event"),
            None => batch.push(webview_bridge::envelope::CommandMessage {
                session: 1,
                payload: raw.to_string(),
            }),
        }
    }
    let out = reg.dispatch(&batch);
    assert_eq!(out.len(), 4);
    match &out[0] {
        DispatchItem::Invoke {
            session,
            correlation,
            op,
        } => {
            assert_eq!(*session, 1);
            assert_eq!(correlation, "c1");
            match op {
                HostOp::FsExists { path, dir } => {
                    assert_eq!(path, "/tmp");
                    assert!(dir.is_none());
                }
                _ => panic!("expected a filesystem existence check"),
            }
        }
        _ => panic!("the well-formed message must be dispatched"),
    }
    assert!(matches!(out[1], DispatchItem::Malformed { session: 1 }));
    match &out[2] {
        DispatchItem::Unknown {
            session,
            command_id,
        } => {
            assert_eq!(*session, 1);
            assert_eq!(command_id, "FLURX|fs::copy_file");
        }
        _ => panic!("the unknown identifier must be reported"),
    }
    assert!(matches!(out[3], DispatchItem::Malformed { session: 1 }));
}

/// The full command round trip of an existence check: the webview's envelope
/// is classified, dispatched, executed by the host (here: `/tmp` exists),
/// and resolved with one script call carrying the correlation token and the
/// boolean payload.
#[test]
fn exists_command_round_trip_resolves_correlation() {
    let mut reg = CommandRegistry::new();
    AllFsPlugins.register(&mut reg);
    let mut sessions = Sessions::new();
    assert!(sessions.add_session(7, "main".to_string()));

    let raw = "{\"command_id\":\"FLURX|fs::exists\",\"args\":{\"path\":\"/tmp\",\"dir\":null},\"correlation\":\"c1\"}";
    let message = match classify_inbound(7, raw) {
        Some(InboundMessage::Command(c)) => c,
        _ => panic!("a command envelope must classify as a command"),
    };
    let out = reg.dispatch(&vec![message]);
    assert_eq!(out.len(), 1);
    let (session, correlation, op) = match out.into_iter().next().unwrap() {
        DispatchItem::Invoke {
            session,
            correlation,
            op,
        } => (session, correlation, op),
        _ => panic!("the envelope is well-formed"),
    };
    match &op {
        HostOp::FsExists { path, dir } => {
            assert_eq!(path, "/tmp");
            assert!(dir.is_none());
        }
        _ => panic!("expected a filesystem existence check"),
    }
    let call = reg.begin_call(session, correlation);
    // The host checks the path; /tmp exists on this host.
    let exists = true;
    let script = reg
        .complete_call(call, &OpOutput::Bool(exists), &sessions)
        .expect("the session is live");
    assert_eq!(script.session, 7);
    assert_eq!(script.script, "window.__FLURX__.__resolveIpc('c1', true);");
}

#[test]
fn result_for_dead_session_is_discarded() {
    let mut reg = CommandRegistry::new();
    let sessions = Sessions::new();
    let call = reg.begin_call(3, "c9".to_string());
    assert!(reg
        .complete_call(call, &OpOutput::Null, &sessions)
        .is_none());
    // The call is consumed either way: reporting again changes nothing.
    assert!(reg
        .complete_call(call, &OpOutput::Null, &sessions)
        .is_none());
}

#[test]
fn base_directory_argument_is_decoded() {
    let mut reg = CommandRegistry::new();
    AllFsPlugins.register(&mut reg);
    let raw = "{\"command_id\":\"FLURX|fs::create_dir\",\"args\":{\"path\":\"notes\",\"dir\":\"Home\",\"recursive\":true},\"correlation\":\"c4\"}";
    let message = webview_bridge::envelope::CommandMessage {
        session: 2,
        payload: raw.to_string(),
    };
    let out = reg.dispatch(&vec![message]);
    match &out[0] {
        DispatchItem::Invoke { op, .. } => match op {
            HostOp::FsCreateDir {
                path,
                dir,
                recursive,
            } => {
                assert_eq!(path, "notes");
                assert_eq!(*dir, Some(BaseDirectory::Home));
                assert!(*recursive);
            }
            _ => panic!("expected a directory creation"),
        },
        _ => panic!("the envelope is well-formed"),
    }
}
