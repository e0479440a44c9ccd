use bytes::BytesMut;
use syncplay::mpv::codec::MpvCodec;
use syncplay::mpv::command::{Command, LoadFileOptions, SeekOptions, TaggedCommand};
use syncplay::mpv::error::{CodecError, CommandError, Error, LineError};
use syncplay::mpv::json::Json;
use syncplay::mpv::listeners::{Delivery, Listeners};
use syncplay::mpv::response::{deserialize_response_result, Event, Field, Message, PropertyChange, ResponseError};
use syncplay::mpv::session::{Exchange, ExchangeEvent, Mpv, Startup, StartupEvent};
use syncplay::mpv::text::push_decimal;

fn json(text: &str) -> Json {
    Json::from_text(text.to_string()).unwrap()
}

fn line(command: Command, request_id: i64) -> String {
    TaggedCommand { command, request_id }.to_line()
}

#[test]
fn writes_decimal_numbers() {
    for n in [0i64, 7, 10, 1234567890, -1, -10, i64::MAX, i64::MIN] {
        let mut text = String::from("n=");
        push_decimal(&mut text, n);
        assert_eq!(text, format!("n={n}"));
    }
}

#[test]
fn json_documents() {
    assert_eq!(json("12.5").as_str(), "12.5");
    assert_eq!(json("true").as_bool(), Some(true));
    assert_eq!(json("false").as_bool(), Some(false));
    assert_eq!(json("null").as_bool(), None);
    assert_eq!(json("\"true\"").as_bool(), None);
    assert_eq!(Json::null().as_str(), "null");
    assert_eq!(Json::boolean(true).as_str(), "true");
    assert_eq!(Json::boolean(false).as_bool(), Some(false));
    assert!(Json::from_text("tru".to_string()).is_none());
    assert!(Json::from_text("".to_string()).is_none());
    assert_eq!(json("[1,\n2]").as_str(), "[1,2]");
    assert_eq!(json(" \t{ \"a\" : [ ] }\r\n").as_str(), r#"{"a":[]}"#);
    assert_eq!(json("\"\\u000a\"").as_str(), r#""\n""#);
    assert_eq!(json("1.50e1"), json("15.0"));
    for space in ["", " ", "\t \r", "\n\n"] {
        assert_eq!(json(&format!("{space}true{space}")).as_bool(), Some(true));
        assert_eq!(json(&format!("{space}false")).as_bool(), Some(false));
        assert_eq!(json(&format!("{space}0{space}")).as_bool(), None);
    }
    assert!(Json::from_text("\u{a0}true".to_string()).is_none());
    assert!(Json::from_text("1 2".to_string()).is_none());
    assert_eq!(json("[1,2]").clone(), json("[1,2]"));
}

#[test]
fn commands_as_lines() {
    assert_eq!(
        line(Command::Seek(json("12.5"), SeekOptions::Absolute), 0),
        r#"{"command":["seek",12.5,"absolute"],"request_id":0}"#
    );
    assert_eq!(
        line(Command::Observe(-2, "pause"), 1),
        r#"{"command":["observe_property",-2,"pause"],"request_id":1}"#
    );
    assert_eq!(
        line(Command::GetProperty("playback-time"), 2),
        r#"{"command":["get_property","playback-time"],"request_id":2}"#
    );
    assert_eq!(
        line(Command::SetProperty("pause", Json::boolean(true)), -3),
        r#"{"command":["set_property","pause",true],"request_id":-3}"#
    );
    assert_eq!(
        line(Command::LoadFile("a \"b\"\\c\n\u{1}\u{1f}é.mkv".to_string(), LoadFileOptions::Replace), 4),
        "{\"command\":[\"loadfile\",\"a \\\"b\\\"\\\\c\\n\\u0001\\u001fé.mkv\",\"replace\"],\"request_id\":4}"
    );
}

#[test]
fn commands_are_objects() {
    let commands = vec![
        Command::Seek(json("-0.25"), SeekOptions::Relative),
        Command::Observe(1, "pause"),
        Command::GetProperty("a\"b"),
        Command::SetProperty("options", json("{ \"x\": [1, null,\n \"\\n\"] }")),
        Command::LoadFile("a,b]}\n".to_string(), LoadFileOptions::Replace),
    ];
    for command in commands {
        assert_eq!(command.clone(), command);
        let arguments = command.arguments();
        let text = line(command, 12);
        assert!(!text.contains('\n'));
        let value: serde_json::Value = serde_json::from_str(&text).unwrap();
        let object = value.as_object().unwrap();
        assert_eq!(object.len(), 2);
        assert_eq!(object["request_id"], serde_json::Value::from(12));
        let list = object["command"].as_array().unwrap();
        assert_eq!(list.iter().map(|v| v.to_string()).collect::<Vec<String>>(), arguments);
    }
}

#[test]
fn seek_options_have_names() {
    assert_eq!(SeekOptions::Relative.name(), "relative");
    assert_eq!(SeekOptions::Absolute.name(), "absolute");
    assert_eq!(SeekOptions::RelativePercent.name(), "relative-percent");
    assert_eq!(SeekOptions::AbsolutePercent.name(), "absolute-percent");
    assert_eq!(LoadFileOptions::Replace.name(), "replace");
}

#[test]
fn lines_are_what_serde_json_writes() {
    let names = ["", "plain", "quote\"", "back\\slash", "\u{8}\t\n\u{c}\r", "\u{0}\u{7f}\u{80}", "日本語 🎬"];
    for name in names {
        let mut object = serde_json::Map::new();
        object.insert(
            "command".to_string(),
            serde_json::Value::from(vec!["loadfile".to_string(), name.to_string(), "replace".to_string()]),
        );
        object.insert("request_id".to_string(), serde_json::Value::from(77));
        let theirs = serde_json::to_string(&serde_json::Value::Object(object)).unwrap();
        assert_eq!(line(Command::LoadFile(name.to_string(), LoadFileOptions::Replace), 77), theirs);
    }
}

#[test]
fn written_commands_are_read_back() {
    let mut codec = MpvCodec::new();
    let mut buffer = BytesMut::new();
    let names = ["one", "two\r", "three\n\r\n"];
    for (i, name) in names.iter().enumerate() {
        let command = Command::LoadFile(name.to_string(), LoadFileOptions::Replace);
        let tagged = TaggedCommand { command, request_id: i as i64 };
        assert_eq!(codec.encode(tagged, &mut buffer), Ok(()));
    }
    for (i, name) in names.iter().enumerate() {
        let command = Command::LoadFile(name.to_string(), LoadFileOptions::Replace);
        assert_eq!(codec.decode(&mut buffer), Ok(Some(line(command, i as i64))));
    }
    assert_eq!(codec.decode(&mut buffer), Ok(None));
    assert!(buffer.is_empty());
}

#[test]
fn lines_come_in_pieces() {
    let mut codec = MpvCodec::new();
    let mut buffer = BytesMut::from(&b"{\"eve"[..]);
    assert_eq!(codec.decode(&mut buffer), Ok(None));
    assert_eq!(&buffer[..], b"{\"eve");
    buffer.extend_from_slice(b"nt\":\"pause\"}\r\nrest");
    assert_eq!(codec.decode(&mut buffer), Ok(Some("{\"event\":\"pause\"}".to_string())));
    assert_eq!(&buffer[..], b"rest");
    assert_eq!(codec.decode(&mut buffer), Ok(None));
}

#[test]
fn lines_must_be_utf8() {
    let mut codec = MpvCodec::new();
    let mut buffer = BytesMut::from(&b"\xff\xfe\nok\n\n"[..]);
    let e = codec.decode(&mut buffer).unwrap_err();
    assert_eq!(e, CodecError::LinesCodec(LineError::Io("Unable to decode input as UTF8".to_string())));
    assert_eq!(e.message(), "lines codec error: Unable to decode input as UTF8");
    assert_eq!(codec.decode(&mut buffer), Ok(Some("ok".to_string())));
    assert_eq!(codec.decode(&mut buffer), Ok(Some(String::new())));
    assert_eq!(codec.decode(&mut buffer), Ok(None));
}

#[test]
fn answers_with_success() {
    let success = || Field::Error(Some("success".to_string()));
    assert_eq!(deserialize_response_result(&vec![success()]), Ok(Ok(Json::null())));
    assert_eq!(deserialize_response_result(&vec![Field::Data(json("1.5")), success()]), Ok(Ok(json("1.5"))));
    assert_eq!(deserialize_response_result(&vec![success(), Field::Data(json("1.5"))]), Ok(Ok(json("1.5"))));
}

#[test]
fn answers_with_errors() {
    let error = |text: &str| Field::Error(Some(text.to_string()));
    assert_eq!(
        deserialize_response_result(&vec![error("property unavailable")]),
        Ok(Err("property unavailable".to_string()))
    );
    assert_eq!(
        deserialize_response_result(&vec![Field::Data(Json::null()), error("invalid parameter")]),
        Err(ResponseError::MissingError)
    );
    assert_eq!(deserialize_response_result(&vec![]), Err(ResponseError::MissingError));
    assert_eq!(deserialize_response_result(&vec![Field::Data(Json::null())]), Err(ResponseError::MissingError));
}

#[test]
fn first_fault_of_an_answer_decides() {
    let success = || Field::Error(Some("success".to_string()));
    let data = || Field::Data(Json::null());
    assert_eq!(deserialize_response_result(&vec![data(), data(), Field::Error(None)]), Err(ResponseError::DuplicateData));
    assert_eq!(deserialize_response_result(&vec![success(), success(), data(), data()]), Err(ResponseError::DuplicateError));
    assert_eq!(deserialize_response_result(&vec![success(), Field::Error(None)]), Err(ResponseError::DuplicateError));
    assert_eq!(deserialize_response_result(&vec![data(), Field::Error(None), data()]), Err(ResponseError::UnreadableError));
}

#[test]
fn answers_find_their_listeners() {
    let mut listeners: Listeners<&str> = Listeners::new();
    listeners.register(0, "zero");
    listeners.register(1, "one");
    listeners.register(2, "two");
    listeners.register(2, "another two");
    let answer = |request_id: i64| Message::Response { request_id, result: Ok(Json::boolean(true)) };
    assert_eq!(
        listeners.dispatch(answer(1)),
        Delivery::Answer { listener: "one", result: Ok(Json::boolean(true)) }
    );
    assert_eq!(listeners.dispatch(answer(1)), Delivery::NoListener);
    assert_eq!(listeners.dispatch(answer(9)), Delivery::NoListener);
    assert_eq!(listeners.dispatch(Message::Event(Event::Pause)), Delivery::Broadcast(Event::Pause));
    assert_eq!(
        listeners.dispatch(Message::Response { request_id: 2, result: Err("no".to_string()) }),
        Delivery::Answer { listener: "another two", result: Err("no".to_string()) }
    );
    assert_eq!(
        listeners.dispatch(answer(0)),
        Delivery::Answer { listener: "zero", result: Ok(Json::boolean(true)) }
    );
}

#[test]
fn events_are_for_everybody() {
    let mut listeners: Listeners<u8> = Listeners::new();
    let change = || Event::PropertyChange { id: 2, property_change: PropertyChange::PlaybackTime(json("0.25")) };
    assert_eq!(listeners.dispatch(Message::Event(change())), Delivery::Broadcast(change()));
    assert_eq!(change().clone(), change());
    let answer = Message::Response { request_id: 3, result: Err("no".to_string()) };
    assert_eq!(answer.clone(), answer);
    assert_eq!(
        listeners.dispatch(Message::Event(Event::PlaybackRestart)),
        Delivery::Broadcast(Event::PlaybackRestart)
    );
}

#[test]
fn starts_a_player() {
    let (startup, launch) = Mpv::spawn(4711);
    assert_eq!(launch.program, "mpv");
    assert_eq!(launch.socket, "/tmp/mpv.4711.sock");
    assert_eq!(launch.arguments, vec!["--input-ipc-server=/tmp/mpv.4711.sock", "--idle", "--no-terminal"]);
    let mut startup = startup.step(StartupEvent::Started);
    for _ in 0..3 {
        assert!(matches!(startup, Startup::Connecting(_)));
        startup = startup.step(StartupEvent::NotConnected);
    }
    let mut mpv = match startup.step(StartupEvent::Connected) {
        Startup::Finished(Ok(mpv)) => mpv,
        other => panic!("{other:?}"),
    };
    assert!(mpv.has_request_id());
    for id in 0..3 {
        let (tagged, exchange) = mpv.send_command(Command::GetProperty("pause"));
        assert_eq!(tagged, TaggedCommand { command: Command::GetProperty("pause"), request_id: id });
        assert_eq!(exchange, Exchange::Sending);
    }
}

#[test]
fn player_must_start() {
    let (startup, _) = Mpv::spawn(1);
    let reason = || "No such file or directory".to_string();
    assert_eq!(
        startup.step(StartupEvent::NotStarted(reason())),
        Startup::Finished(Err(Error::StartProcessError(reason())))
    );
}

#[test]
fn commands_are_told_apart() {
    let commands = [
        Command::Seek(json("1"), SeekOptions::Relative),
        Command::Seek(json("1"), SeekOptions::Absolute),
        Command::Seek(json("1"), SeekOptions::RelativePercent),
        Command::Seek(json("1"), SeekOptions::AbsolutePercent),
        Command::Seek(json("11"), SeekOptions::Absolute),
        Command::Seek(json("\"1,\""), SeekOptions::Absolute),
        Command::Observe(1, "a"),
        Command::Observe(-1, "a"),
        Command::Observe(1, ",\"a"),
        Command::GetProperty("a"),
        Command::GetProperty("a\",\"b"),
        Command::GetProperty("\n"),
        Command::GetProperty("\\n"),
        Command::SetProperty("a", json("\"b\"")),
        Command::SetProperty("a\",\"b", json("null")),
        Command::LoadFile("a".to_string(), LoadFileOptions::Replace),
    ];
    let mut lines: Vec<String> = Vec::new();
    for id in [1, 11, -1] {
        for command in &commands {
            lines.push(line(command.clone(), id));
        }
    }
    for i in 0..lines.len() {
        for j in 0..i {
            assert_ne!(lines[i], lines[j]);
        }
    }
}

#[test]
fn exchanges_succeed() {
    let exchange = Exchange::Sending.step(ExchangeEvent::Sent);
    assert_eq!(exchange, Exchange::Registering);
    let exchange = exchange.step(ExchangeEvent::Registered);
    assert_eq!(exchange, Exchange::Awaiting);
    let exchange = exchange.step(ExchangeEvent::Answered(Ok(json("1"))));
    assert_eq!(exchange, Exchange::Finished(Ok(json("1"))));
}

#[test]
fn exchanges_fail() {
    let reason = || "channel closed".to_string();
    assert_eq!(
        Exchange::Sending.step(ExchangeEvent::NotSent(CodecError::Io("broken pipe".to_string()))),
        Exchange::Finished(Err(Error::CodecError(CodecError::Io("broken pipe".to_string()))))
    );
    assert_eq!(
        Exchange::Registering.step(ExchangeEvent::NotRegistered(reason())),
        Exchange::Finished(Err(Error::CommandError(CommandError::SendError(reason()))))
    );
    assert_eq!(
        Exchange::Awaiting.step(ExchangeEvent::Lost(reason())),
        Exchange::Finished(Err(Error::CommandError(CommandError::RecvError(reason()))))
    );
    assert_eq!(
        Exchange::Awaiting.step(ExchangeEvent::Answered(Err("error running command".to_string()))),
        Exchange::Finished(Err(Error::CommandError(CommandError::MpvError("error running command".to_string()))))
    );
}

#[test]
fn errors_in_words() {
    let why = || "why".to_string();
    assert_eq!(Error::StartProcessError(why()).message(), "failed to start process: why");
    assert_eq!(
        Error::CodecError(CodecError::LinesCodec(LineError::MaxLineLengthExceeded)).message(),
        "ipc codec error: lines codec error: max line length exceeded"
    );
    assert_eq!(CodecError::Serialization(why()).message(), "serialization error: why");
    assert_eq!(CodecError::Io(why()).message(), "io error: why");
    assert_eq!(CodecError::Fmt(why()).message(), "fmt error: why");
    assert_eq!(
        Error::CommandError(CommandError::SendError(why())).message(),
        "error sending command: why"
    );
    assert_eq!(CommandError::RecvError(why()).message(), "error receiving result: why");
    assert_eq!(CommandError::MpvError(why()).message(), "mpv responded with error: why");
    assert_eq!(LineError::Io(why()).message(), "why");
}
