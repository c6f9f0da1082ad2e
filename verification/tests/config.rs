use scpsl_wrapper::config::{CliArgs, Config};

fn args(api_url: &str, server_name: &str) -> CliArgs {
    CliArgs {
        server_bin: "/root/game/LocalAdmin".to_string(),
        port: 7777,
        api_url: api_url.to_string(),
        server_name: server_name.to_string(),
        secret_key: "test-secret".to_string(),
        server_type: "SCPSL".to_string(),
        reconnect_secs: 5,
        strip_ansi: true,
        buffer_size: 10000,
    }
}

#[test]
fn load_copies_every_value() {
    let c = Config::load(args("ws://localhost:8000/server/rcon/connect", "test-server"));
    assert_eq!(c.server_bin, "/root/game/LocalAdmin");
    assert_eq!(c.port, 7777);
    assert_eq!(c.api_url, "ws://localhost:8000/server/rcon/connect");
    assert_eq!(c.server_name, "test-server");
    assert_eq!(c.secret_key, "test-secret");
    assert_eq!(c.server_type, "SCPSL");
    assert_eq!(c.reconnect_secs, 5);
    assert!(c.strip_ansi);
    assert_eq!(c.buffer_size, 10000);
}

#[test]
fn ws_url_gets_the_server_name_query() {
    let c = Config::load(args("ws://api.example.com/server/rcon/connect", "server1"));
    assert_eq!(
        c.build_ws_url().unwrap(),
        "ws://api.example.com/server/rcon/connect?server_name=server1"
    );
}

#[test]
fn ws_url_encodes_the_server_name_and_keeps_an_existing_query() {
    let c = Config::load(args("ws://api:8000/connect?x=1", "my server&1"));
    assert_eq!(c.build_ws_url().unwrap(), "ws://api:8000/connect?x=1&server_name=my+server%261");
}

#[test]
fn ws_url_of_an_invalid_api_url_is_an_error() {
    let c = Config::load(args("not a url", "server1"));
    assert!(c.build_ws_url().is_err());
}
