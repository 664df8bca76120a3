use flixparty::model::Message;
use flixparty::model::Op;
use flixparty::session::Session;

#[test]
fn message_json_exact() {
    let m = Message { sender: "abc".to_string(), op: Op::TogglePlay };
    assert_eq!(m.to_json(), r#"{"sender":"abc","op":"toggle_play"}"#);
    let m = Message { sender: "d1".to_string(), op: Op::Introduce };
    assert_eq!(m.to_json(), r#"{"sender":"d1","op":"introduce"}"#);
}

#[test]
fn message_json_escapes_sender() {
    let m = Message { sender: "a\"b\\c\n".to_string(), op: Op::Introduce };
    assert_eq!(m.to_json(), r#"{"sender":"a\"b\\c\n","op":"introduce"}"#);
}

#[test]
fn message_json_parses_back() {
    for sender in ["", "plain", "quote\"d", "uni\u{e9}", "tab\tand\u{1}"] {
        for op in [Op::TogglePlay, Op::Introduce] {
            let text = Message { sender: sender.to_string(), op }.to_json();
            let v: serde_json::Value = serde_json::from_str(&text).unwrap();
            let obj = v.as_object().unwrap();
            assert_eq!(obj.len(), 2);
            assert_eq!(obj["sender"].as_str().unwrap(), sender);
            assert_eq!(obj["op"].as_str().unwrap(), op.wire_name());
        }
    }
}

#[test]
fn wire_names() {
    assert_eq!(Op::TogglePlay.wire_name(), "toggle_play");
    assert_eq!(Op::Introduce.wire_name(), "introduce");
}

#[test]
fn session_messages_carry_the_client_id() {
    let s = Session::new("cid".to_string());
    let intro = s.introduction();
    assert_eq!(intro.sender, "cid");
    assert_eq!(intro.op, Op::Introduce);
    assert_eq!(s.toggle_request().to_json(), r#"{"sender":"cid","op":"toggle_play"}"#);
}
