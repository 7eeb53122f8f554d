use rustwire::config::{load, load_with_report, parse_u32, resolve_str, resolve_uint, Config,
    EnvSnapshot, FileListen, ListenerConfig, PgConfig, ValueSource};

fn assert_listen_default(c: &Config) {
    assert_eq!(c.listen.host, "127.0.0.1");
    assert_eq!(c.listen.port, 8080);
    assert_eq!(c.listen.read_timeout, 25);
    assert_eq!(c.listen.write_timeout, 25);
    assert_eq!(c.listen.idle_timeout, 300);
}

fn assert_db_default(c: &Config) {
    assert_eq!(c.db.host, "127.0.0.1");
    assert_eq!(c.db.port, 5433);
    assert_eq!(c.db.db_name, "postgres");
    assert_eq!(c.db.ssl_mode, "disable");
    assert_eq!(c.db.password, "password");
    assert_eq!(c.db.username, "postgres");
}

#[test]
fn defaults_when_no_file() {
    let c = load(None, &EnvSnapshot::empty());
    assert_listen_default(&c);
    assert_db_default(&c);
}

#[test]
fn defaults_when_file_malformed() {
    let c = load(Some("listen: [unclosed"), &EnvSnapshot::empty());
    assert_listen_default(&c);
    assert_db_default(&c);
}

#[test]
fn defaults_when_sections_missing() {
    let c = load(Some("other: 1\n"), &EnvSnapshot::empty());
    assert_listen_default(&c);
    assert_db_default(&c);
}

#[test]
fn defaults_when_root_is_not_a_mapping() {
    let c = load(Some("just a string\n"), &EnvSnapshot::empty());
    assert_listen_default(&c);
    assert_db_default(&c);
}

#[test]
fn file_port_overrides_default() {
    let c = load(Some("listen: {port: 9090}\n"), &EnvSnapshot::empty());
    assert_eq!(c.listen.port, 9090);
    assert_eq!(c.listen.host, "127.0.0.1");
    assert_db_default(&c);
}

#[test]
fn env_overrides_file_and_default() {
    let mut env = EnvSnapshot::empty();
    env.db_port = Some("6000".to_string());
    let c = load(Some("db: {port: 5555}\n"), &env);
    assert_eq!(c.db.port, 6000);
}

#[test]
fn file_values_override_all_defaults() {
    let yaml = "listen:\n  host: 0.0.0.0\n  port: 81\n  read_timeout: 1\n  write_timeout: 2\n  idle_timeout: 3\ndb:\n  host: db.local\n  port: 5432\n  db_name: appdb\n  ssl_mode: require\n  password: hunter2\n  username: app\n";
    let c = load(Some(yaml), &EnvSnapshot::empty());
    assert_eq!(c.listen.host, "0.0.0.0");
    assert_eq!(c.listen.port, 81);
    assert_eq!(c.listen.read_timeout, 1);
    assert_eq!(c.listen.write_timeout, 2);
    assert_eq!(c.listen.idle_timeout, 3);
    assert_eq!(c.db.host, "db.local");
    assert_eq!(c.db.port, 5432);
    assert_eq!(c.db.db_name, "appdb");
    assert_eq!(c.db.ssl_mode, "require");
    assert_eq!(c.db.password, "hunter2");
    assert_eq!(c.db.username, "app");
}

#[test]
fn env_values_override_everything() {
    let yaml = "listen:\n  host: filehost\n  port: 1\ndb:\n  host: filedb\n  port: 2\n  db_name: filedb\n  ssl_mode: fileSSL\n  password: filepw\n  username: fileuser\n";
    let env = EnvSnapshot {
        listener_host: Some("envhost".to_string()),
        listener_port: Some("1001".to_string()),
        listener_read_timeout: Some("1002".to_string()),
        listener_write_timeout: Some("1003".to_string()),
        listener_idle_timeout: Some("1004".to_string()),
        db_host: Some("envdb".to_string()),
        db_port: Some("1005".to_string()),
        db_name: Some("envname".to_string()),
        db_ssl: Some("envssl".to_string()),
        db_password: Some("envpw".to_string()),
        db_user: Some("envuser".to_string()),
    };
    let c = load(Some(yaml), &env);
    assert_eq!(c.listen.host, "envhost");
    assert_eq!(c.listen.port, 1001);
    assert_eq!(c.listen.read_timeout, 1002);
    assert_eq!(c.listen.write_timeout, 1003);
    assert_eq!(c.listen.idle_timeout, 1004);
    assert_eq!(c.db.host, "envdb");
    assert_eq!(c.db.port, 1005);
    assert_eq!(c.db.db_name, "envname");
    assert_eq!(c.db.ssl_mode, "envssl");
    assert_eq!(c.db.password, "envpw");
    assert_eq!(c.db.username, "envuser");
}

#[test]
fn wrong_typed_file_value_falls_back_to_default() {
    let c = load(
        Some("listen: {port: not_a_number, host: 123}\n"),
        &EnvSnapshot::empty(),
    );
    assert_eq!(c.listen.port, 8080);
    assert_eq!(c.listen.host, "127.0.0.1");
}

#[test]
fn malformed_env_integer_falls_back_to_file() {
    let mut env = EnvSnapshot::empty();
    env.listener_port = Some("12x".to_string());
    let c = load(Some("listen: {port: 9090}\n"), &env);
    assert_eq!(c.listen.port, 9090);
}

#[test]
fn overflowing_env_integer_falls_back_to_file() {
    let mut env = EnvSnapshot::empty();
    env.listener_port = Some("4294967296".to_string());
    let c = load(Some("listen: {port: 9090}\n"), &env);
    assert_eq!(c.listen.port, 9090);
}

#[test]
fn env_integer_with_plus_sign_is_used() {
    let mut env = EnvSnapshot::empty();
    env.listener_port = Some("+123".to_string());
    let c = load(None, &EnvSnapshot::empty());
    assert_eq!(c.listen.port, 8080);
    let c2 = load(Some("listen: {}\n"), &env);
    assert_eq!(c2.listen.port, 123);
}

#[test]
fn env_is_ignored_when_file_is_unreadable() {
    let mut env = EnvSnapshot::empty();
    env.listener_port = Some("9999".to_string());
    let c = load(None, &env);
    assert_eq!(c.listen.port, 8080);
}

#[test]
fn file_integer_above_u32_falls_back_to_default() {
    let c = load(Some("listen: {port: 4294967297}\n"), &EnvSnapshot::empty());
    assert_eq!(c.listen.port, 8080);
}

#[test]
fn env_still_wins_over_an_out_of_range_file_integer() {
    let mut env = EnvSnapshot::empty();
    env.listener_port = Some("9000".to_string());
    let c = load(Some("listen: {port: 4294967297}\n"), &env);
    assert_eq!(c.listen.port, 9000);
}

#[test]
fn report_says_where_each_value_came_from() {
    let mut env = EnvSnapshot::empty();
    env.listener_port = Some("1001".to_string());
    let (c, rep) = load_with_report(Some("listen: {host: h1, port: 9}\n"), &env);
    assert!(rep.file_loaded);
    assert_eq!(rep.listen.host, ValueSource::File);
    assert_eq!(rep.listen.port, ValueSource::Env);
    assert_eq!(rep.listen.read_timeout, ValueSource::Default);
    assert_eq!(rep.db.db_name, ValueSource::Default);
    assert_eq!(c.listen.host, "h1");
    assert_eq!(c.listen.port, 1001);
}

#[test]
fn report_on_a_missing_or_malformed_file() {
    let (_, rep) = load_with_report(None, &EnvSnapshot::empty());
    assert!(!rep.file_loaded);
    assert_eq!(rep.db.db_name, ValueSource::Default);
    let mut env = EnvSnapshot::empty();
    env.db_port = Some("6000".to_string());
    let (c2, rep2) = load_with_report(Some("listen: [unclosed"), &env);
    assert!(!rep2.file_loaded);
    assert_eq!(rep2.db.port, ValueSource::Default);
    assert_eq!(c2.db.port, 5433);
}

#[test]
fn report_counts_wrong_shaped_values_as_default() {
    let mut env = EnvSnapshot::empty();
    env.listener_port = Some("12x".to_string());
    let (_, rep) = load_with_report(Some("listen: {port: 4294967297}\n"), &env);
    assert!(rep.file_loaded);
    assert_eq!(rep.listen.port, ValueSource::Default);
}

fn to_yaml(c: &Config) -> String {
    format!(
        "listen:\n  host: {}\n  port: {}\n  read_timeout: {}\n  write_timeout: {}\n  idle_timeout: {}\ndb:\n  host: {}\n  port: {}\n  db_name: {}\n  ssl_mode: {}\n  password: {}\n  username: {}\n",
        c.listen.host,
        c.listen.port,
        c.listen.read_timeout,
        c.listen.write_timeout,
        c.listen.idle_timeout,
        c.db.host,
        c.db.port,
        c.db.db_name,
        c.db.ssl_mode,
        c.db.password,
        c.db.username
    )
}

#[test]
fn round_trip_through_a_written_file() {
    let c = Config {
        listen: ListenerConfig {
            host: "0.0.0.0".to_string(),
            port: 9191,
            read_timeout: 11,
            write_timeout: 12,
            idle_timeout: 13,
        },
        db: PgConfig {
            host: "db.internal".to_string(),
            port: 6543,
            db_name: "orders".to_string(),
            ssl_mode: "require".to_string(),
            password: "hunter2".to_string(),
            username: "svc".to_string(),
        },
    };
    let yaml = to_yaml(&c);
    let c2 = load(Some(&yaml), &EnvSnapshot::empty());
    assert_eq!(c2.listen.host, c.listen.host);
    assert_eq!(c2.listen.port, c.listen.port);
    assert_eq!(c2.listen.read_timeout, c.listen.read_timeout);
    assert_eq!(c2.listen.write_timeout, c.listen.write_timeout);
    assert_eq!(c2.listen.idle_timeout, c.listen.idle_timeout);
    assert_eq!(c2.db.host, c.db.host);
    assert_eq!(c2.db.port, c.db.port);
    assert_eq!(c2.db.db_name, c.db.db_name);
    assert_eq!(c2.db.ssl_mode, c.db.ssl_mode);
    assert_eq!(c2.db.password, c.db.password);
    assert_eq!(c2.db.username, c.db.username);
}

#[test]
fn round_trip_of_the_default_config() {
    let c = Config::default();
    let yaml = to_yaml(&c);
    let c2 = load(Some(&yaml), &EnvSnapshot::empty());
    assert_listen_default(&c2);
    assert_db_default(&c2);
}

#[test]
fn parse_u32_accepts_plain_decimals() {
    assert_eq!(parse_u32("0"), Some(0));
    assert_eq!(parse_u32("007"), Some(7));
    assert_eq!(parse_u32("8080"), Some(8080));
    assert_eq!(parse_u32("4294967295"), Some(u32::MAX));
    assert_eq!(parse_u32("+42"), Some(42));
}

#[test]
fn parse_u32_rejects_everything_else() {
    assert_eq!(parse_u32(""), None);
    assert_eq!(parse_u32("+"), None);
    assert_eq!(parse_u32("-1"), None);
    assert_eq!(parse_u32("1a"), None);
    assert_eq!(parse_u32(" 1"), None);
    assert_eq!(parse_u32("4294967296"), None);
    assert_eq!(parse_u32("99999999999999999999"), None);
    assert_eq!(parse_u32("++1"), None);
}

#[test]
fn resolve_precedence_on_plain_values() {
    assert_eq!(
        resolve_str(Some("e".to_string()), Some("f".to_string()), "d"),
        "e"
    );
    assert_eq!(resolve_str(None, Some("f".to_string()), "d"), "f");
    assert_eq!(resolve_str(None, None, "d"), "d");
    assert_eq!(resolve_uint(Some("9".to_string()), Some(5), 7), 9);
    assert_eq!(resolve_uint(Some("x".to_string()), Some(5), 7), 5);
    assert_eq!(resolve_uint(None, Some(5), 7), 5);
    assert_eq!(resolve_uint(None, Some(4294967296), 7), 7);
    assert_eq!(resolve_uint(None, None, 7), 7);
}

#[test]
fn listener_section_resolves_field_by_field() {
    let file = FileListen {
        host: None,
        port: Some(9090),
        read_timeout: None,
        write_timeout: Some(50),
        idle_timeout: None,
    };
    let mut env = EnvSnapshot::empty();
    env.listener_read_timeout = Some("99".to_string());
    let l = ListenerConfig::load_config(file, &env);
    assert_eq!(l.host, "127.0.0.1");
    assert_eq!(l.port, 9090);
    assert_eq!(l.read_timeout, 99);
    assert_eq!(l.write_timeout, 50);
    assert_eq!(l.idle_timeout, 300);
}

#[test]
fn default_config_holds_documented_values() {
    let c = Config::default();
    assert_listen_default(&c);
    assert_db_default(&c);
}
