use oxy::arg::{args_to_config, parse_port, try_args_to_config, CliMatches, ConfigSource};
use oxy::config::{server_connection_config, Config, Mode};
use oxy::innermessage::InnerMessage;
use oxy::messagewatchers::{done, eat, ignore, log_message, pong, MessageWatcherResult};
use oxy::metacommand::{do_metacommand, MetaCommand};
use oxy::oxy::{ConversationTable, MidRoute, MidSender};
use oxy::pty::{pty_input_watcher, pty_output_message};
use oxy::ui::{tty_size_message, ui_read, UiAction};
use oxy::mid::{get_sequence_number, set_conversation_id, MID_PACKET_SIZE, PAYLOAD_SIZE};

#[test]
fn server_arguments_give_server_config() {
    let source = args_to_config(CliMatches::Server {
        port: None,
        outer_key: Some("MZXW6YTBOI".to_string()),
    });
    match source {
        ConfigSource::Args(c) => {
            assert_eq!(c.mode, Some(Mode::Server));
            assert_eq!(c.outer_key, Some(b"foobar".to_vec()));
            assert_eq!(c.destination, None);
            assert_eq!(c.port_number, None);
        }
        ConfigSource::File(_) => panic!("no file was named"),
    }
}

#[test]
fn client_arguments_give_client_config() {
    let source = args_to_config(CliMatches::Client {
        destination: Some("example.com:2600".to_string()),
        outer_key: None,
    });
    match source {
        ConfigSource::Args(c) => {
            assert_eq!(c.mode, Some(Mode::Client));
            assert_eq!(c.destination, Some("example.com:2600".to_string()));
            assert_eq!(c.outer_key, None);
        }
        ConfigSource::File(_) => panic!("no file was named"),
    }
}

#[test]
fn raw_arguments_name_a_file() {
    match args_to_config(CliMatches::Raw { filename: "oxy.toml".to_string() }) {
        ConfigSource::File(f) => assert_eq!(f, "oxy.toml"),
        ConfigSource::Args(_) => panic!("a file was named"),
    }
}

#[test]
fn other_arguments_give_empty_config() {
    match args_to_config(CliMatches::Config { subcommand: "init-server".to_string() }) {
        ConfigSource::Args(c) => {
            assert_eq!(c.mode, None);
            assert_eq!(c.outer_key, None);
        }
        ConfigSource::File(_) => panic!("no file was named"),
    }
}

#[test]
fn invalid_outer_key_is_refused() {
    assert!(try_args_to_config(CliMatches::Server {
        port: None,
        outer_key: Some("not base32!".to_string()),
    })
    .is_none());
    assert!(try_args_to_config(CliMatches::Server {
        port: None,
        outer_key: Some("MZXW6YTBOI".to_string()),
    })
    .is_some());
}

#[test]
fn server_port_comes_from_the_command_line() {
    let source = args_to_config(CliMatches::Server {
        port: Some("2600".to_string()),
        outer_key: None,
    });
    match source {
        ConfigSource::Args(c) => {
            assert_eq!(c.mode, Some(Mode::Server));
            assert_eq!(c.port_number, Some(2600));
            assert_eq!(c.outer_key, None);
        }
        ConfigSource::File(_) => panic!("no file was named"),
    }
}

#[test]
fn invalid_port_leaves_port_unset() {
    for bad in ["", "x", "26x0", "-1", "65536", "99999999999999999999", " 80"] {
        match try_args_to_config(CliMatches::Server {
            port: Some(bad.to_string()),
            outer_key: None,
        }) {
            Some(ConfigSource::Args(c)) => {
                assert_eq!(c.mode, Some(Mode::Server));
                assert_eq!(c.port_number, None, "{:?} is no port", bad);
            }
            _ => panic!("{:?} still gives a configuration", bad),
        }
    }
    match try_args_to_config(CliMatches::Server {
        port: Some("65535".to_string()),
        outer_key: None,
    }) {
        Some(ConfigSource::Args(c)) => assert_eq!(c.port_number, Some(65535)),
        _ => panic!("65535 is a port"),
    }
}

#[test]
fn ports_are_decimal_digits() {
    assert_eq!(parse_port("0"), Some(0));
    assert_eq!(parse_port("2600"), Some(2600));
    assert_eq!(parse_port("007"), Some(7));
    assert_eq!(parse_port("65535"), Some(65535));
    assert_eq!(parse_port("65536"), None);
    assert_eq!(parse_port(""), None);
    assert_eq!(parse_port("12a"), None);
    assert_eq!(parse_port("+1"), None);
}

#[test]
fn server_connection_keeps_all_but_mode() {
    let mut config = Config::default();
    config.mode = Some(Mode::Server);
    config.port_number = Some(2600);
    config.outer_key = Some(vec![1, 2, 3]);
    let c = server_connection_config(config);
    assert_eq!(c.mode, Some(Mode::ServerConnection));
    assert_eq!(c.port_number, Some(2600));
    assert_eq!(c.outer_key, Some(vec![1, 2, 3]));
}

#[test]
fn watchers_answer_pings_only() {
    assert_eq!(done(), MessageWatcherResult { keep_watching: false, consume_message: true });
    assert_eq!(log_message(3, &InnerMessage::Ping {}), ignore());
    assert_eq!(pong(9, &InnerMessage::Ping {}), (eat(), Some(InnerMessage::Pong { message_number: 9 })));
    assert_eq!(pong(9, &InnerMessage::Dummy {}), (ignore(), None));
}

#[test]
fn metacommands() {
    assert_eq!(do_metacommand("quit"), MetaCommand::Quit);
    assert_eq!(
        do_metacommand("pty"),
        MetaCommand::Send(InnerMessage::PtyRequest {
            path: "/bin/bash".to_string(),
            argv: vec!["-bash".to_string()],
        })
    );
    assert_eq!(do_metacommand("qui"), MetaCommand::Nothing);
}

#[test]
fn function_keys_and_typing() {
    assert_eq!(ui_read(&[27, 91, 50, 52, 126]), UiAction::Stop);
    assert_eq!(ui_read(&[27, 91, 50, 49, 126]), UiAction::Metacommand);
    assert_eq!(
        ui_read(b"ls\r"),
        UiAction::Send(InnerMessage::PtyInput { id: 0, input: b"ls\r".to_vec() })
    );
    assert_eq!(tty_size_message(80, 24), InnerMessage::PtySizeAdvertisement { id: 0, w: 80, h: 24 });
}

#[test]
fn terminal_output_and_input() {
    assert_eq!(pty_output_message(4, b""), None);
    assert_eq!(
        pty_output_message(4, b"$ "),
        Some(InnerMessage::PtyOutput { id: 4, output: b"$ ".to_vec() })
    );
    assert_eq!(
        pty_input_watcher(&InnerMessage::PtyInput { id: 1, input: b"x".to_vec() }),
        (eat(), Some(b"x".to_vec()))
    );
    assert_eq!(pty_input_watcher(&InnerMessage::Ping {}), (ignore(), None));
}

#[test]
fn sequence_numbers_count_up() {
    let mut sender = MidSender::new();
    let payload = vec![0u8; PAYLOAD_SIZE];
    assert_eq!(get_sequence_number(&sender.next_mid_packet(&payload)), 0);
    assert_eq!(get_sequence_number(&sender.next_mid_packet(&payload)), 1);
    assert_eq!(get_sequence_number(&sender.next_mid_packet(&payload)), 2);
}

#[test]
fn server_routes_by_conversation_id() {
    let mut table: ConversationTable<&str> = ConversationTable::new();
    let mut mid = [0u8; MID_PACKET_SIZE];
    assert_eq!(table.route(Mode::Server, &mid), MidRoute::NewConversation(0));
    assert_eq!(table.route(Mode::Server, &mid), MidRoute::NewConversation(1));
    table.insert(1, "first");
    set_conversation_id(&mut mid, 1);
    assert_eq!(table.route(Mode::Server, &mid), MidRoute::Existing(1));
    assert_eq!(table.get(1), Some(&"first"));
    set_conversation_id(&mut mid, 5);
    assert_eq!(table.route(Mode::Server, &mid), MidRoute::Unknown(5));
    assert_eq!(table.remove(5), None);
    assert_eq!(table.route(Mode::Client, &mid), MidRoute::Local);
}

#[test]
fn new_conversation_is_routed_and_recorded() {
    let mut table: ConversationTable<&str> = ConversationTable::new();
    let mut mid = [0u8; MID_PACKET_SIZE];
    assert_eq!(table.route_and_record(Mode::Server, &mid, "a"), MidRoute::NewConversation(0));
    assert_eq!(table.route_and_record(Mode::Server, &mid, "b"), MidRoute::NewConversation(1));
    assert_eq!(table.get(1), Some(&"b"));
    set_conversation_id(&mut mid, 1);
    assert_eq!(table.route_and_record(Mode::Server, &mid, "c"), MidRoute::Existing(1));
    assert_eq!(table.get(1), Some(&"b"));
    assert_eq!(table.next_conversation_id(), 2);
    assert_eq!(table.remove(1), Some("b"));
    assert_eq!(table.route(Mode::Server, &mid), MidRoute::Unknown(1));
    assert_eq!(table.route_and_record(Mode::Client, &mid, "d"), MidRoute::Local);
    assert_eq!(table.get(2), None);
}
