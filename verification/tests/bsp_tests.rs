use xcraft::bsp::{
    bsp_serve_argv, check_serve_state, forward_start, forward_step, frame_header,
    minimal_build_server_config, parse_content_length, update_build_server_config, ForwardAction,
    ForwardEvent, ForwardState, JsonField, JsonObject,
};
use xcraft::cache::{BspState, CachedState};
use xcraft::error::XcraftError;

fn text(o: &JsonObject, key: &str) -> Option<String> {
    o.entries.iter().find(|(k, _)| k == key).and_then(|(_, v)| match v {
        JsonField::Text(s) => Some(s.clone()),
        _ => None,
    })
}

fn list(o: &JsonObject, key: &str) -> Option<Vec<String>> {
    o.entries.iter().find(|(k, _)| k == key).and_then(|(_, v)| match v {
        JsonField::TextList(s) => Some(s.clone()),
        _ => None,
    })
}

#[test]
fn minimal_config() {
    let argv = vec!["/bin/xcraft".to_string(), "bsp".to_string(), "serve".to_string()];
    let o = minimal_build_server_config("0.3.1", argv.clone());
    let keys: Vec<&str> = o.entries.iter().map(|(k, _)| k.as_str()).collect();
    assert_eq!(keys, vec!["name", "version", "bspVersion", "languages", "argv"]);
    assert_eq!(text(&o, "name").as_deref(), Some("xcraft bsp"));
    assert_eq!(text(&o, "version").as_deref(), Some("0.3.1"));
    assert_eq!(text(&o, "bspVersion").as_deref(), Some("2.0"));
    assert_eq!(list(&o, "languages").unwrap(), vec!["c", "cpp", "objective-c", "objective-cpp", "swift"]);
    assert_eq!(list(&o, "argv").unwrap(), argv);
}

fn state(ws: Option<&str>, scheme: Option<&str>, bsp: Option<(Option<&str>, Option<&str>)>) -> CachedState {
    CachedState {
        workspace: ws.map(String::from),
        scheme: scheme.map(String::from),
        configuration: Some("Debug".into()),
        destination: None,
        bsp: bsp.map(|(g, b)| BspState { generated_workspace: g.map(String::from), build_root: b.map(String::from) }),
    }
}

#[test]
fn update_preserves_argv_and_sets_fields() {
    let base = minimal_build_server_config("1", vec!["x".to_string()]);
    let s = state(Some("App.xcworkspace"), Some("App"), Some((Some("Gen/App.xcworkspace"), Some("/dd"))));
    let o = update_build_server_config(base, "/root/proj", &s);
    assert_eq!(list(&o, "argv").unwrap(), vec!["x"]);
    assert_eq!(text(&o, "workspace").as_deref(), Some("/root/proj/Gen/App.xcworkspace"));
    assert_eq!(text(&o, "scheme").as_deref(), Some("App"));
    assert_eq!(text(&o, "build_root").as_deref(), Some("/dd"));
    assert_eq!(text(&o, "kind").as_deref(), Some("xcode"));
    assert_eq!(o.entries.len(), 9);
}

#[test]
fn update_replaces_existing_and_falls_back_to_cached_workspace() {
    let base = JsonObject {
        entries: vec![
            ("kind".to_string(), JsonField::Raw("42".to_string())),
            ("scheme".to_string(), JsonField::Text("Old".to_string())),
            ("extra".to_string(), JsonField::Raw("{\"a\":1}".to_string())),
        ],
    };
    let s = state(Some("/abs/App.xcworkspace"), Some("New"), None);
    let o = update_build_server_config(base, "/root", &s);
    assert_eq!(o.entries.len(), 4);
    assert_eq!(o.entries[0].0, "kind");
    assert_eq!(text(&o, "kind").as_deref(), Some("xcode"));
    assert_eq!(text(&o, "scheme").as_deref(), Some("New"));
    assert_eq!(text(&o, "workspace").as_deref(), Some("/abs/App.xcworkspace"));
    assert!(matches!(&o.entries[2].1, JsonField::Raw(r) if r == "{\"a\":1}"));
    assert!(text(&o, "build_root").is_none());
}

#[test]
fn serve_needs_workspace_and_scheme() {
    assert!(check_serve_state(&state(Some("w"), Some("s"), None)).is_ok());
    assert_eq!(check_serve_state(&state(None, Some("s"), None)), Err(XcraftError::NoCachedState));
    assert_eq!(check_serve_state(&state(Some("w"), None, None)), Err(XcraftError::NoCachedState));
}

#[test]
fn serve_argv() {
    assert_eq!(bsp_serve_argv("/bin/x", None), vec!["/bin/x", "bsp", "serve"]);
    assert_eq!(bsp_serve_argv("/bin/x", Some("dev")), vec!["/bin/x", "bsp", "serve", "--profile", "dev"]);
}

#[test]
fn content_lengths() {
    assert_eq!(parse_content_length("Content-Length: 123\r\n"), Some(123));
    assert_eq!(parse_content_length("Content-Length:7"), Some(7));
    assert_eq!(parse_content_length("Content-Length: \t 0 \n"), Some(0));
    assert_eq!(parse_content_length("Content-Length: +5\r\n"), Some(5));
    assert_eq!(parse_content_length("content-length: 5\r\n"), None);
    assert_eq!(parse_content_length("Content-Length: -5\r\n"), None);
    assert_eq!(parse_content_length("Content-Length: 5 5\r\n"), None);
    assert_eq!(parse_content_length("Content-Length: \r\n"), None);
    assert_eq!(parse_content_length("Content-Length: 99999999999999999999999\r\n"), None);
}

#[test]
fn frame_headers() {
    assert_eq!(frame_header(0), "Content-Length: 0\r\n\r\n");
    assert_eq!(frame_header(1024), "Content-Length: 1024\r\n\r\n");
}

#[test]
fn frame_round_trip_law() {
    for n in [0usize, 1, 9, 10, 99, 100, 65535, usize::MAX] {
        let header = frame_header(n);
        let first = &header[..header.len() - 2];
        assert_eq!(parse_content_length(first), Some(n));
    }
}

#[test]
fn forwarding_one_message_then_eof() {
    let (state, action) = forward_start();
    assert!(matches!(state, ForwardState::AwaitHeader));
    assert!(matches!(action, ForwardAction::ReadLine));
    let (state, action) = forward_step(state, ForwardEvent::Line("Content-Length: 2\r\n".into()));
    assert!(matches!(state, ForwardState::AwaitBlank { length: 2 }));
    assert!(matches!(action, ForwardAction::ReadLine));
    let (state, action) = forward_step(state, ForwardEvent::Line("\r\n".into()));
    assert!(matches!(action, ForwardAction::ReadBody(2)));
    let (state, action) = forward_step(state, ForwardEvent::Body(b"{}".to_vec()));
    match action {
        ForwardAction::Write { header, body } => {
            assert_eq!(header, "Content-Length: 2\r\n\r\n");
            assert_eq!(body, b"{}".to_vec());
        }
        _ => panic!(),
    }
    let (state, action) = forward_step(state, ForwardEvent::Written);
    assert!(matches!(action, ForwardAction::ReadLine));
    let (state, action) = forward_step(state, ForwardEvent::Line(String::new()));
    assert!(matches!(state, ForwardState::Done));
    assert!(matches!(action, ForwardAction::Stop(Ok(()))));
}

#[test]
fn forwarding_rejects_bad_headers() {
    let (_, action) = forward_step(ForwardState::AwaitHeader, ForwardEvent::Line("Hello\r\n".into()));
    match action {
        ForwardAction::Stop(Err(XcraftError::InvalidBspHeader { header })) => assert_eq!(header, "Hello\r\n"),
        _ => panic!(),
    }
    let (state, action) = forward_step(ForwardState::AwaitBody { length: 3 }, ForwardEvent::Body(vec![1]));
    assert!(matches!(state, ForwardState::Done));
    assert!(matches!(
        action,
        ForwardAction::Stop(Err(XcraftError::ShortBspBody { expected: 3, got: 1 }))
    ));
    let (_, action) = forward_step(ForwardState::AwaitHeader, ForwardEvent::Written);
    assert!(matches!(action, ForwardAction::Stop(Err(XcraftError::UnexpectedBspEvent))));
}

#[test]
fn updating_twice_changes_nothing_more() {
    let state = state(Some("App.xcworkspace"), Some("App"), Some((None, Some("/b"))));
    let config = minimal_build_server_config("0.1.0", vec!["xcraft".to_string()]);
    let once = update_build_server_config(config, "/root", &state);
    let once_copy = JsonObject {
        entries: once
            .entries
            .iter()
            .map(|(k, v)| (k.clone(), match v {
                JsonField::Text(s) => JsonField::Text(s.clone()),
                JsonField::TextList(l) => JsonField::TextList(l.clone()),
                JsonField::Raw(r) => JsonField::Raw(r.clone()),
            }))
            .collect(),
    };
    let twice = update_build_server_config(once_copy, "/root", &state);
    assert_eq!(twice.entries.len(), once.entries.len());
    for ((k1, v1), (k2, v2)) in once.entries.iter().zip(twice.entries.iter()) {
        assert_eq!(k1, k2);
        match (v1, v2) {
            (JsonField::Text(a), JsonField::Text(b)) => assert_eq!(a, b),
            (JsonField::TextList(a), JsonField::TextList(b)) => assert_eq!(a, b),
            (JsonField::Raw(a), JsonField::Raw(b)) => assert_eq!(a, b),
            _ => panic!("field {k1} changed kind"),
        }
    }
    assert_eq!(text(&twice, "workspace").as_deref(), Some("/root/App.xcworkspace"));
    assert_eq!(text(&twice, "build_root").as_deref(), Some("/b"));
}
