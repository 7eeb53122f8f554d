//! Layered configuration resolution: every field of the configuration is
//! resolved from an environment value if one is present (and, for integer
//! fields, parses), else from the configuration file's value, else from a
//! built-in default.  Resolution is total: it never fails, whatever the
//! sources hold.

use vstd::prelude::*;

verus! {

pub const DEFAULT_PORT: u32 = 8080;

pub const DEFAULT_READ_TIMEOUT: u32 = 25;

pub const DEFAULT_WRITE_TIMEOUT: u32 = 25;

pub const DEFAULT_IDLE_TIMEOUT: u32 = 300;

pub const DEFAULT_DB_PORT: u32 = 5433;

/// Default listener host.
pub open spec fn default_host() -> Seq<char> {
    "127.0.0.1"@
}

/// Default database host.
pub open spec fn default_db_host() -> Seq<char> {
    "127.0.0.1"@
}

/// Default database name.
pub open spec fn default_db_name() -> Seq<char> {
    "postgres"@
}

/// Default database SSL mode.
pub open spec fn default_db_ssl_mode() -> Seq<char> {
    "disable"@
}

/// Default database password.
pub open spec fn default_db_password() -> Seq<char> {
    "password"@
}

/// Default database user name.
pub open spec fn default_db_username() -> Seq<char> {
    "postgres"@
}

/// Every character of `s` is an ASCII decimal digit.
pub open spec fn dec_digits(s: Seq<char>) -> bool {
    forall|i: int| 0 <= i < s.len() ==> 48 <= #[trigger] (s[i] as int) <= 57
}

/// Numeric value of a string of decimal digits, most significant first.
pub open spec fn dec_value(s: Seq<char>) -> int
    decreases s.len(),
{
    if s.len() == 0 {
        0
    } else {
        dec_value(s.drop_last()) * 10 + (s.last() as int - 48)
    }
}

/// The digits of a decimal literal: an optional leading `+` sign is dropped.
pub open spec fn dec_digits_part(s: Seq<char>) -> Seq<char> {
    if s.len() > 0 && s[0] == '+' {
        s.subrange(1, s.len() as int)
    } else {
        s
    }
}

/// `s` is a decimal literal that a `u32` can hold: an optional `+` sign,
/// then one or more digits, with a value of at most `u32::MAX`.
pub open spec fn u32_parses(s: Seq<char>) -> bool {
    let d = dec_digits_part(s);
    d.len() > 0 && dec_digits(d) && dec_value(d) <= 0xFFFF_FFFF
}

/// The value of such a literal.
pub open spec fn u32_value(s: Seq<char>) -> u32 {
    dec_value(dec_digits_part(s)) as u32
}

/// The value of a digit string is never negative.
proof fn lemma_dec_value_nonneg(s: Seq<char>)
    requires
        dec_digits(s),
    ensures
        dec_value(s) >= 0,
    decreases s.len(),
{
    if s.len() > 0 {
        assert(dec_digits(s.drop_last()));
        lemma_dec_value_nonneg(s.drop_last());
    }
}

/// Parses a decimal `u32` the way the standard library does: an optional
/// leading `+`, then one or more ASCII digits, rejecting empty input, other
/// characters, and values above `u32::MAX`.
pub fn parse_u32(s: &str) -> (r: Option<u32>)
    ensures
        r == (if u32_parses(s@) {
            Some(u32_value(s@))
        } else {
            None::<u32>
        }),
{
    let len = s.unicode_len();
    let mut start: usize = 0;
    if len > 0 && s.get_char(0) == '+' {
        start = 1;
    }
    proof {
        assert(s@.subrange(start as int, len as int) =~= dec_digits_part(s@));
    }
    if start >= len {
        return None;
    }
    let ghost d = dec_digits_part(s@);
    let mut i: usize = start;
    let mut val: u64 = 0;
    while i < len
        invariant
            start <= i <= len,
            len == s@.len(),
            start == 0 || start == 1,
            d == dec_digits_part(s@),
            d == s@.subrange(start as int, len as int),
            dec_digits(s@.subrange(start as int, i as int)),
            val <= 0x1_0000_0000,
            ({
                let p = s@.subrange(start as int, i as int);
                if dec_value(p) <= 0xFFFF_FFFF {
                    val == dec_value(p)
                } else {
                    val == 0x1_0000_0000
                }
            }),
        decreases len - i,
    {
        let ghost p = s@.subrange(start as int, i as int);
        proof {
            lemma_dec_value_nonneg(p);
        }
        let c = s.get_char(i);
        let cu = c as u32;
        if cu < 48 || cu > 57 {
            proof {
                assert(d[i - start] == s@[i as int]);
            }
            return None;
        }
        let digit: u64 = (cu - 48) as u64;
        val = val * 10 + digit;
        if val > 0xFFFF_FFFF {
            val = 0x1_0000_0000;
        }
        i = i + 1;
        proof {
            let q = s@.subrange(start as int, i as int);
            assert(q =~= p.push(s@[i - 1]));
            assert(q.drop_last() =~= p);
        }
    }
    proof {
        assert(s@.subrange(start as int, i as int) =~= d);
        lemma_dec_value_nonneg(d);
    }
    if val > 0xFFFF_FFFF {
        None
    } else {
        Some(val as u32)
    }
}

/// Network listener parameters.
pub struct ListenerConfig {
    pub host: String,
    pub port: u32,
    pub read_timeout: u32,
    pub write_timeout: u32,
    pub idle_timeout: u32,
}

/// Database connection parameters.
pub struct PgConfig {
    pub host: String,
    pub port: u32,
    pub db_name: String,
    pub ssl_mode: String,
    pub password: String,
    pub username: String,
}

/// The fully resolved configuration: every field holds a defined value.
pub struct Config {
    pub listen: ListenerConfig,
    pub db: PgConfig,
}

/// The values a configuration file gave for the listener section; a field is
/// `None` when the file lacks the key or holds it with the wrong type.
pub struct FileListen {
    pub host: Option<String>,
    pub port: Option<u64>,
    pub read_timeout: Option<u64>,
    pub write_timeout: Option<u64>,
    pub idle_timeout: Option<u64>,
}

/// The values a configuration file gave for the database section.
pub struct FileDb {
    pub host: Option<String>,
    pub port: Option<u64>,
    pub db_name: Option<String>,
    pub ssl_mode: Option<String>,
    pub password: Option<String>,
    pub username: Option<String>,
}

/// The environment values consulted during resolution, one per recognized
/// variable, captured once at startup; `None` where the variable is unset.
pub struct EnvSnapshot {
    pub listener_host: Option<String>,
    pub listener_port: Option<String>,
    pub listener_read_timeout: Option<String>,
    pub listener_write_timeout: Option<String>,
    pub listener_idle_timeout: Option<String>,
    pub db_host: Option<String>,
    pub db_port: Option<String>,
    pub db_name: Option<String>,
    pub db_ssl: Option<String>,
    pub db_password: Option<String>,
    pub db_user: Option<String>,
}

impl EnvSnapshot {
    /// A snapshot with every variable unset.
    pub fn empty() -> (r: Self)
        ensures
            env_is_empty(r),
    {
        EnvSnapshot {
            listener_host: None,
            listener_port: None,
            listener_read_timeout: None,
            listener_write_timeout: None,
            listener_idle_timeout: None,
            db_host: None,
            db_port: None,
            db_name: None,
            db_ssl: None,
            db_password: None,
            db_user: None,
        }
    }
}

/// No environment variable is set in the snapshot.
pub open spec fn env_is_empty(env: EnvSnapshot) -> bool {
    &&& env.listener_host is None
    &&& env.listener_port is None
    &&& env.listener_read_timeout is None
    &&& env.listener_write_timeout is None
    &&& env.listener_idle_timeout is None
    &&& env.db_host is None
    &&& env.db_port is None
    &&& env.db_name is None
    &&& env.db_ssl is None
    &&& env.db_password is None
    &&& env.db_user is None
}

/// The file contributed nothing for the listener section.
pub open spec fn file_listen_is_empty(f: FileListen) -> bool {
    &&& f.host is None
    &&& f.port is None
    &&& f.read_timeout is None
    &&& f.write_timeout is None
    &&& f.idle_timeout is None
}

/// The file contributed nothing for the database section.
pub open spec fn file_db_is_empty(f: FileDb) -> bool {
    &&& f.host is None
    &&& f.port is None
    &&& f.db_name is None
    &&& f.ssl_mode is None
    &&& f.password is None
    &&& f.username is None
}

/// View of an optional string as an optional character sequence.
pub open spec fn opt_view(o: Option<String>) -> Option<Seq<char>> {
    match o {
        Some(s) => Some(s@),
        None => None,
    }
}

/// Resolution of one string field: the environment value wins when present,
/// else the file value, else the default.
pub open spec fn pick_str(env: Option<Seq<char>>, file: Option<Seq<char>>, default: Seq<char>) -> Seq<
    char,
> {
    if env is Some {
        env->0
    } else if file is Some {
        file->0
    } else {
        default
    }
}

/// Resolution of one integer field: an environment value that parses as a
/// decimal `u32` wins; else a file value that a `u32` can hold; else the
/// default.  A value of the wrong shape for the field — an environment
/// value that does not parse, or a file value above `u32::MAX` — is treated
/// as absent.
pub open spec fn pick_uint(env: Option<Seq<char>>, file: Option<u64>, default: u32) -> u32 {
    if env is Some && u32_parses(env->0) {
        u32_value(env->0)
    } else if file is Some && file->0 <= 0xFFFF_FFFF {
        file->0 as u32
    } else {
        default
    }
}

/// Copies an optional string; resolution consults each environment value
/// once per field without consuming the snapshot.
fn clone_opt(o: &Option<String>) -> (r: Option<String>)
    ensures
        r == *o,
{
    match o {
        Some(s) => Some(s.clone()),
        None => None,
    }
}

/// Resolves one string field from the three layered sources.
pub fn resolve_str(env: Option<String>, file: Option<String>, default: &str) -> (r: String)
    ensures
        r@ == pick_str(opt_view(env), opt_view(file), default@),
{
    let (v, _) = resolve_str_with_source(env, file, default);
    v
}

/// Resolves one integer field from the three layered sources.
pub fn resolve_uint(env: Option<String>, file: Option<u64>, default: u32) -> (r: u32)
    ensures
        r == pick_uint(opt_view(env), file, default),
{
    let (v, _) = resolve_uint_with_source(env, file, default);
    v
}

/// `r` is the resolution of the listener section from the file values `f`
/// and the environment snapshot `env`: field by field, environment over file
/// over default.
pub open spec fn listen_resolved(r: ListenerConfig, f: FileListen, env: EnvSnapshot) -> bool {
    &&& r.host@ == pick_str(opt_view(env.listener_host), opt_view(f.host), default_host())
    &&& r.port == pick_uint(opt_view(env.listener_port), f.port, DEFAULT_PORT)
    &&& r.read_timeout == pick_uint(
        opt_view(env.listener_read_timeout),
        f.read_timeout,
        DEFAULT_READ_TIMEOUT,
    )
    &&& r.write_timeout == pick_uint(
        opt_view(env.listener_write_timeout),
        f.write_timeout,
        DEFAULT_WRITE_TIMEOUT,
    )
    &&& r.idle_timeout == pick_uint(
        opt_view(env.listener_idle_timeout),
        f.idle_timeout,
        DEFAULT_IDLE_TIMEOUT,
    )
}

/// `r` is the resolution of the database section from the file values `f`
/// and the environment snapshot `env`.
pub open spec fn db_resolved(r: PgConfig, f: FileDb, env: EnvSnapshot) -> bool {
    &&& r.host@ == pick_str(opt_view(env.db_host), opt_view(f.host), default_db_host())
    &&& r.port == pick_uint(opt_view(env.db_port), f.port, DEFAULT_DB_PORT)
    &&& r.db_name@ == pick_str(opt_view(env.db_name), opt_view(f.db_name), default_db_name())
    &&& r.ssl_mode@ == pick_str(opt_view(env.db_ssl), opt_view(f.ssl_mode), default_db_ssl_mode())
    &&& r.password@ == pick_str(
        opt_view(env.db_password),
        opt_view(f.password),
        default_db_password(),
    )
    &&& r.username@ == pick_str(opt_view(env.db_user), opt_view(f.username), default_db_username())
}

/// The listener section holds exactly the built-in defaults.
pub open spec fn listen_is_default(l: ListenerConfig) -> bool {
    &&& l.host@ == default_host()
    &&& l.port == DEFAULT_PORT
    &&& l.read_timeout == DEFAULT_READ_TIMEOUT
    &&& l.write_timeout == DEFAULT_WRITE_TIMEOUT
    &&& l.idle_timeout == DEFAULT_IDLE_TIMEOUT
}

/// The database section holds exactly the built-in defaults.
pub open spec fn db_is_default(d: PgConfig) -> bool {
    &&& d.host@ == default_db_host()
    &&& d.port == DEFAULT_DB_PORT
    &&& d.db_name@ == default_db_name()
    &&& d.ssl_mode@ == default_db_ssl_mode()
    &&& d.password@ == default_db_password()
    &&& d.username@ == default_db_username()
}

/// The whole configuration holds exactly the built-in defaults.
pub open spec fn config_is_default(c: Config) -> bool {
    listen_is_default(c.listen) && db_is_default(c.db)
}

impl ListenerConfig {
    /// The all-defaults listener section.
    pub fn load_default() -> (r: Self)
        ensures
            listen_is_default(r),
    {
        ListenerConfig {
            host: "127.0.0.1".to_owned(),
            port: DEFAULT_PORT,
            read_timeout: DEFAULT_READ_TIMEOUT,
            write_timeout: DEFAULT_WRITE_TIMEOUT,
            idle_timeout: DEFAULT_IDLE_TIMEOUT,
        }
    }

    /// Resolves the listener section, field by field, from the file values
    /// and the environment snapshot.
    pub fn load_config(file: FileListen, env: &EnvSnapshot) -> (r: Self)
        ensures
            listen_resolved(r, file, *env),
    {
        let (cfg, _) = Self::load_config_with_sources(file, env);
        cfg
    }
}

impl PgConfig {
    /// The all-defaults database section.
    pub fn load_default() -> (r: Self)
        ensures
            db_is_default(r),
    {
        PgConfig {
            host: "127.0.0.1".to_owned(),
            port: DEFAULT_DB_PORT,
            db_name: "postgres".to_owned(),
            ssl_mode: "disable".to_owned(),
            password: "password".to_owned(),
            username: "postgres".to_owned(),
        }
    }

    /// Resolves the database section, field by field, from the file values
    /// and the environment snapshot.
    pub fn load_config(file: FileDb, env: &EnvSnapshot) -> (r: Self)
        ensures
            db_resolved(r, file, *env),
    {
        let (cfg, _) = Self::load_config_with_sources(file, env);
        cfg
    }
}

impl Config {
    /// The all-defaults configuration, the value resolution falls back to
    /// when no configuration file can be read.
    pub fn default() -> (r: Self)
        ensures
            config_is_default(r),
    {
        let listen = ListenerConfig::load_default();
        let db = PgConfig::load_default();
        Config { listen, db }
    }
}

/// Law: with only the default source available — no environment variable
/// set and no file value present — every field of a resolved configuration
/// holds its documented default, exactly.
pub proof fn lemma_only_defaults(c: Config, fl: FileListen, fd: FileDb, env: EnvSnapshot)
    requires
        env_is_empty(env),
        file_listen_is_empty(fl),
        file_db_is_empty(fd),
        listen_resolved(c.listen, fl, env),
        db_resolved(c.db, fd, env),
    ensures
        config_is_default(c),
{
}

/// Law: a valid file value overrides the default for its field when no
/// environment variable is set; an integer file value above `u32::MAX` is
/// of the wrong type for its field, is treated as absent, and the field
/// takes its default.
pub proof fn lemma_file_overrides_default(c: Config, fl: FileListen, fd: FileDb, env: EnvSnapshot)
    requires
        env_is_empty(env),
        listen_resolved(c.listen, fl, env),
        db_resolved(c.db, fd, env),
    ensures
        fl.host matches Some(v) ==> c.listen.host@ == v@,
        fl.port matches Some(v) ==> v <= 0xFFFF_FFFF ==> c.listen.port == v as u32,
        fl.read_timeout matches Some(v) ==> v <= 0xFFFF_FFFF ==> c.listen.read_timeout == v as u32,
        fl.write_timeout matches Some(v) ==> v <= 0xFFFF_FFFF ==> c.listen.write_timeout
            == v as u32,
        fl.idle_timeout matches Some(v) ==> v <= 0xFFFF_FFFF ==> c.listen.idle_timeout == v as u32,
        fd.host matches Some(v) ==> c.db.host@ == v@,
        fd.port matches Some(v) ==> v <= 0xFFFF_FFFF ==> c.db.port == v as u32,
        fd.db_name matches Some(v) ==> c.db.db_name@ == v@,
        fd.ssl_mode matches Some(v) ==> c.db.ssl_mode@ == v@,
        fd.password matches Some(v) ==> c.db.password@ == v@,
        fd.username matches Some(v) ==> c.db.username@ == v@,
        fl.port matches Some(v) ==> v > 0xFFFF_FFFF ==> c.listen.port == DEFAULT_PORT,
        fl.read_timeout matches Some(v) ==> v > 0xFFFF_FFFF ==> c.listen.read_timeout
            == DEFAULT_READ_TIMEOUT,
        fl.write_timeout matches Some(v) ==> v > 0xFFFF_FFFF ==> c.listen.write_timeout
            == DEFAULT_WRITE_TIMEOUT,
        fl.idle_timeout matches Some(v) ==> v > 0xFFFF_FFFF ==> c.listen.idle_timeout
            == DEFAULT_IDLE_TIMEOUT,
        fd.port matches Some(v) ==> v > 0xFFFF_FFFF ==> c.db.port == DEFAULT_DB_PORT,
{
}

/// Law: an environment value overrides both the file value and the default
/// for its field, whatever the file holds; for integer fields this holds
/// whenever the environment value parses as a decimal `u32`.
pub proof fn lemma_env_overrides_file_and_default(
    c: Config,
    fl: FileListen,
    fd: FileDb,
    env: EnvSnapshot,
)
    requires
        listen_resolved(c.listen, fl, env),
        db_resolved(c.db, fd, env),
    ensures
        env.listener_host matches Some(v) ==> c.listen.host@ == v@,
        env.listener_port matches Some(v) ==> u32_parses(v@) ==> c.listen.port == u32_value(v@),
        env.listener_read_timeout matches Some(v) ==> u32_parses(v@) ==> c.listen.read_timeout
            == u32_value(v@),
        env.listener_write_timeout matches Some(v) ==> u32_parses(v@) ==> c.listen.write_timeout
            == u32_value(v@),
        env.listener_idle_timeout matches Some(v) ==> u32_parses(v@) ==> c.listen.idle_timeout
            == u32_value(v@),
        env.db_host matches Some(v) ==> c.db.host@ == v@,
        env.db_port matches Some(v) ==> u32_parses(v@) ==> c.db.port == u32_value(v@),
        env.db_name matches Some(v) ==> c.db.db_name@ == v@,
        env.db_ssl matches Some(v) ==> c.db.ssl_mode@ == v@,
        env.db_password matches Some(v) ==> c.db.password@ == v@,
        env.db_user matches Some(v) ==> c.db.username@ == v@,
{
}

/// `f` holds, as file values, exactly the fields of the listener section
/// `l` — the shape of a document written out from `l`.
pub open spec fn file_of_listen(f: FileListen, l: ListenerConfig) -> bool {
    &&& f.host matches Some(v) && v@ == l.host@
    &&& f.port == Some(l.port as u64)
    &&& f.read_timeout == Some(l.read_timeout as u64)
    &&& f.write_timeout == Some(l.write_timeout as u64)
    &&& f.idle_timeout == Some(l.idle_timeout as u64)
}

/// `f` holds, as file values, exactly the fields of the database section
/// `d`.
pub open spec fn file_of_db(f: FileDb, d: PgConfig) -> bool {
    &&& f.host matches Some(v) && v@ == d.host@
    &&& f.port == Some(d.port as u64)
    &&& f.db_name matches Some(v) && v@ == d.db_name@
    &&& f.ssl_mode matches Some(v) && v@ == d.ssl_mode@
    &&& f.password matches Some(v) && v@ == d.password@
    &&& f.username matches Some(v) && v@ == d.username@
}

/// Law (round trip): a configuration written out field for field as a file
/// document and resolved again, with no environment overrides, yields the
/// same field values.
pub proof fn lemma_round_trip(c: Config, c2: Config, fl: FileListen, fd: FileDb, env: EnvSnapshot)
    requires
        env_is_empty(env),
        file_of_listen(fl, c.listen),
        file_of_db(fd, c.db),
        listen_resolved(c2.listen, fl, env),
        db_resolved(c2.db, fd, env),
    ensures
        c2.listen.host@ == c.listen.host@,
        c2.listen.port == c.listen.port,
        c2.listen.read_timeout == c.listen.read_timeout,
        c2.listen.write_timeout == c.listen.write_timeout,
        c2.listen.idle_timeout == c.listen.idle_timeout,
        c2.db.host@ == c.db.host@,
        c2.db.port == c.db.port,
        c2.db.db_name@ == c.db.db_name@,
        c2.db.ssl_mode@ == c.db.ssl_mode@,
        c2.db.password@ == c.db.password@,
        c2.db.username@ == c.db.username@,
{
}

/// The text is a well-formed YAML document, the ones `serde_yaml::from_str`
/// parses into a value; whether it does depends on the text alone.
pub uninterp spec fn yaml_well_formed(content: Seq<char>) -> bool;

/// The string value under `key` in the mapping under `section` of the
/// document that the text `content` parses to; `None` when the text is not
/// a well-formed document, a mapping on that path is missing, or the value
/// there is not a string.
pub uninterp spec fn yaml_str_at(content: Seq<char>, section: Seq<char>, key: Seq<char>) -> Option<
    Seq<char>,
>;

/// The unsigned-integer value under `key` in the mapping under `section` of
/// the document that the text `content` parses to; `None` when the text is
/// not a well-formed document, a mapping on that path is missing, or the
/// value there is not an integer a `u64` can hold.
pub uninterp spec fn yaml_uint_at(content: Seq<char>, section: Seq<char>, key: Seq<char>) -> Option<
    u64,
>;

/// Relies on `serde_yaml::from_str::<Value>`: whether a text parses as a
/// YAML document is a function of the text alone.
#[verifier::external_body]
fn is_well_formed_yaml(content: &str) -> (r: bool)
    ensures
        r == yaml_well_formed(content@),
{
    serde_yaml::from_str::<serde_yaml::Value>(content).is_ok()
}

/// Relies on serde_yaml's `from_str::<Value>`, `Value::get` and
/// `Value::as_str`: each is total, and what they yield for given texts is a
/// function of those texts alone, so the looked-up string bears a name.
#[verifier::external_body]
fn yaml_lookup_str(content: &str, section: &str, key: &str) -> (r: Option<String>)
    ensures
        opt_view(r) == yaml_str_at(content@, section@, key@),
{
    let doc: serde_yaml::Value = match serde_yaml::from_str(content) {
        Ok(v) => v,
        Err(_) => return None,
    };
    doc.get(section).and_then(|s| s.get(key)).and_then(|v| v.as_str()).map(str::to_owned)
}

/// Relies on serde_yaml's `from_str::<Value>`, `Value::get` and
/// `Value::as_u64`: each is total, and what they yield for given texts is a
/// function of those texts alone, so the looked-up integer bears a name.
#[verifier::external_body]
fn yaml_lookup_uint(content: &str, section: &str, key: &str) -> (r: Option<u64>)
    ensures
        r == yaml_uint_at(content@, section@, key@),
{
    let doc: serde_yaml::Value = match serde_yaml::from_str(content) {
        Ok(v) => v,
        Err(_) => return None,
    };
    doc.get(section).and_then(|s| s.get(key)).and_then(|v| v.as_u64())
}

/// The file values for the listener section are exactly the ones the text
/// holds.
pub open spec fn listen_file_of_text(f: FileListen, content: Seq<char>) -> bool {
    &&& opt_view(f.host) == yaml_str_at(content, "listen"@, "host"@)
    &&& f.port == yaml_uint_at(content, "listen"@, "port"@)
    &&& f.read_timeout == yaml_uint_at(content, "listen"@, "read_timeout"@)
    &&& f.write_timeout == yaml_uint_at(content, "listen"@, "write_timeout"@)
    &&& f.idle_timeout == yaml_uint_at(content, "listen"@, "idle_timeout"@)
}

/// The file values for the database section are exactly the ones the text
/// holds.
pub open spec fn db_file_of_text(f: FileDb, content: Seq<char>) -> bool {
    &&& opt_view(f.host) == yaml_str_at(content, "db"@, "host"@)
    &&& f.port == yaml_uint_at(content, "db"@, "port"@)
    &&& opt_view(f.db_name) == yaml_str_at(content, "db"@, "db_name"@)
    &&& opt_view(f.ssl_mode) == yaml_str_at(content, "db"@, "ssl_mode"@)
    &&& opt_view(f.password) == yaml_str_at(content, "db"@, "password"@)
    &&& opt_view(f.username) == yaml_str_at(content, "db"@, "username"@)
}

/// Reads the listener section's values out of the file text.
fn listen_file_values(content: &str) -> (f: FileListen)
    ensures
        listen_file_of_text(f, content@),
{
    FileListen {
        host: yaml_lookup_str(content, "listen", "host"),
        port: yaml_lookup_uint(content, "listen", "port"),
        read_timeout: yaml_lookup_uint(content, "listen", "read_timeout"),
        write_timeout: yaml_lookup_uint(content, "listen", "write_timeout"),
        idle_timeout: yaml_lookup_uint(content, "listen", "idle_timeout"),
    }
}

/// Reads the database section's values out of the file text.
fn db_file_values(content: &str) -> (f: FileDb)
    ensures
        db_file_of_text(f, content@),
{
    FileDb {
        host: yaml_lookup_str(content, "db", "host"),
        port: yaml_lookup_uint(content, "db", "port"),
        db_name: yaml_lookup_str(content, "db", "db_name"),
        ssl_mode: yaml_lookup_str(content, "db", "ssl_mode"),
        password: yaml_lookup_str(content, "db", "password"),
        username: yaml_lookup_str(content, "db", "username"),
    }
}

/// `r` is the resolution of the listener section from the values the file
/// text holds and the environment snapshot: field by field, environment
/// over file over default.
pub open spec fn listen_resolved_from_text(
    r: ListenerConfig,
    content: Seq<char>,
    env: EnvSnapshot,
) -> bool {
    &&& r.host@ == pick_str(
        opt_view(env.listener_host),
        yaml_str_at(content, "listen"@, "host"@),
        default_host(),
    )
    &&& r.port == pick_uint(
        opt_view(env.listener_port),
        yaml_uint_at(content, "listen"@, "port"@),
        DEFAULT_PORT,
    )
    &&& r.read_timeout == pick_uint(
        opt_view(env.listener_read_timeout),
        yaml_uint_at(content, "listen"@, "read_timeout"@),
        DEFAULT_READ_TIMEOUT,
    )
    &&& r.write_timeout == pick_uint(
        opt_view(env.listener_write_timeout),
        yaml_uint_at(content, "listen"@, "write_timeout"@),
        DEFAULT_WRITE_TIMEOUT,
    )
    &&& r.idle_timeout == pick_uint(
        opt_view(env.listener_idle_timeout),
        yaml_uint_at(content, "listen"@, "idle_timeout"@),
        DEFAULT_IDLE_TIMEOUT,
    )
}

/// `r` is the resolution of the database section from the values the file
/// text holds and the environment snapshot.
pub open spec fn db_resolved_from_text(r: PgConfig, content: Seq<char>, env: EnvSnapshot) -> bool {
    &&& r.host@ == pick_str(
        opt_view(env.db_host),
        yaml_str_at(content, "db"@, "host"@),
        default_db_host(),
    )
    &&& r.port == pick_uint(
        opt_view(env.db_port),
        yaml_uint_at(content, "db"@, "port"@),
        DEFAULT_DB_PORT,
    )
    &&& r.db_name@ == pick_str(
        opt_view(env.db_name),
        yaml_str_at(content, "db"@, "db_name"@),
        default_db_name(),
    )
    &&& r.ssl_mode@ == pick_str(
        opt_view(env.db_ssl),
        yaml_str_at(content, "db"@, "ssl_mode"@),
        default_db_ssl_mode(),
    )
    &&& r.password@ == pick_str(
        opt_view(env.db_password),
        yaml_str_at(content, "db"@, "password"@),
        default_db_password(),
    )
    &&& r.username@ == pick_str(
        opt_view(env.db_user),
        yaml_str_at(content, "db"@, "username"@),
        default_db_username(),
    )
}

/// Where a resolved field's value came from.
#[derive(Clone, Copy, PartialEq, Eq, Structural, Debug)]
pub enum ValueSource {
    Env,
    File,
    Default,
}

/// The source a string field resolves from: the environment value when
/// present, else the file value when present, else the default.
pub open spec fn str_source(env: Option<Seq<char>>, file: Option<Seq<char>>) -> ValueSource {
    if env is Some {
        ValueSource::Env
    } else if file is Some {
        ValueSource::File
    } else {
        ValueSource::Default
    }
}

/// The source an integer field resolves from; a value of the wrong shape —
/// an environment value that does not parse, or a file value above
/// `u32::MAX` — counts as absent.
pub open spec fn uint_source(env: Option<Seq<char>>, file: Option<u64>) -> ValueSource {
    if env is Some && u32_parses(env->0) {
        ValueSource::Env
    } else if file is Some && file->0 <= 0xFFFF_FFFF {
        ValueSource::File
    } else {
        ValueSource::Default
    }
}

/// Where each listener field's value came from.
pub struct ListenSources {
    pub host: ValueSource,
    pub port: ValueSource,
    pub read_timeout: ValueSource,
    pub write_timeout: ValueSource,
    pub idle_timeout: ValueSource,
}

/// Where each database field's value came from.
pub struct DbSources {
    pub host: ValueSource,
    pub port: ValueSource,
    pub db_name: ValueSource,
    pub ssl_mode: ValueSource,
    pub password: ValueSource,
    pub username: ValueSource,
}

/// The outcome of one resolution: whether a well-formed file was used, and
/// where each field's value came from.
pub struct LoadReport {
    pub file_loaded: bool,
    pub listen: ListenSources,
    pub db: DbSources,
}

/// The listener sources follow from the file values and the environment.
pub open spec fn listen_sources_ok(s: ListenSources, f: FileListen, env: EnvSnapshot) -> bool {
    &&& s.host == str_source(opt_view(env.listener_host), opt_view(f.host))
    &&& s.port == uint_source(opt_view(env.listener_port), f.port)
    &&& s.read_timeout == uint_source(opt_view(env.listener_read_timeout), f.read_timeout)
    &&& s.write_timeout == uint_source(opt_view(env.listener_write_timeout), f.write_timeout)
    &&& s.idle_timeout == uint_source(opt_view(env.listener_idle_timeout), f.idle_timeout)
}

/// The database sources follow from the file values and the environment.
pub open spec fn db_sources_ok(s: DbSources, f: FileDb, env: EnvSnapshot) -> bool {
    &&& s.host == str_source(opt_view(env.db_host), opt_view(f.host))
    &&& s.port == uint_source(opt_view(env.db_port), f.port)
    &&& s.db_name == str_source(opt_view(env.db_name), opt_view(f.db_name))
    &&& s.ssl_mode == str_source(opt_view(env.db_ssl), opt_view(f.ssl_mode))
    &&& s.password == str_source(opt_view(env.db_password), opt_view(f.password))
    &&& s.username == str_source(opt_view(env.db_user), opt_view(f.username))
}

/// The listener sources follow from the values the file text holds and the
/// environment.
pub open spec fn listen_sources_from_text(
    s: ListenSources,
    content: Seq<char>,
    env: EnvSnapshot,
) -> bool {
    &&& s.host == str_source(opt_view(env.listener_host), yaml_str_at(content, "listen"@, "host"@))
    &&& s.port == uint_source(
        opt_view(env.listener_port),
        yaml_uint_at(content, "listen"@, "port"@),
    )
    &&& s.read_timeout == uint_source(
        opt_view(env.listener_read_timeout),
        yaml_uint_at(content, "listen"@, "read_timeout"@),
    )
    &&& s.write_timeout == uint_source(
        opt_view(env.listener_write_timeout),
        yaml_uint_at(content, "listen"@, "write_timeout"@),
    )
    &&& s.idle_timeout == uint_source(
        opt_view(env.listener_idle_timeout),
        yaml_uint_at(content, "listen"@, "idle_timeout"@),
    )
}

/// The database sources follow from the values the file text holds and the
/// environment.
pub open spec fn db_sources_from_text(s: DbSources, content: Seq<char>, env: EnvSnapshot) -> bool {
    &&& s.host == str_source(opt_view(env.db_host), yaml_str_at(content, "db"@, "host"@))
    &&& s.port == uint_source(opt_view(env.db_port), yaml_uint_at(content, "db"@, "port"@))
    &&& s.db_name == str_source(opt_view(env.db_name), yaml_str_at(content, "db"@, "db_name"@))
    &&& s.ssl_mode == str_source(opt_view(env.db_ssl), yaml_str_at(content, "db"@, "ssl_mode"@))
    &&& s.password == str_source(
        opt_view(env.db_password),
        yaml_str_at(content, "db"@, "password"@),
    )
    &&& s.username == str_source(opt_view(env.db_user), yaml_str_at(content, "db"@, "username"@))
}

/// Every field fell back to its default.
pub open spec fn sources_all_default(rep: LoadReport) -> bool {
    &&& rep.listen.host == ValueSource::Default
    &&& rep.listen.port == ValueSource::Default
    &&& rep.listen.read_timeout == ValueSource::Default
    &&& rep.listen.write_timeout == ValueSource::Default
    &&& rep.listen.idle_timeout == ValueSource::Default
    &&& rep.db.host == ValueSource::Default
    &&& rep.db.port == ValueSource::Default
    &&& rep.db.db_name == ValueSource::Default
    &&& rep.db.ssl_mode == ValueSource::Default
    &&& rep.db.password == ValueSource::Default
    &&& rep.db.username == ValueSource::Default
}

/// Resolves one string field and says where its value came from.
pub fn resolve_str_with_source(env: Option<String>, file: Option<String>, default: &str) -> (r: (
    String,
    ValueSource,
))
    ensures
        r.0@ == pick_str(opt_view(env), opt_view(file), default@),
        r.1 == str_source(opt_view(env), opt_view(file)),
{
    match env {
        Some(e) => (e, ValueSource::Env),
        None => match file {
            Some(f) => (f, ValueSource::File),
            None => (default.to_owned(), ValueSource::Default),
        },
    }
}

/// Resolves one integer field and says where its value came from.
pub fn resolve_uint_with_source(env: Option<String>, file: Option<u64>, default: u32) -> (r: (
    u32,
    ValueSource,
))
    ensures
        r.0 == pick_uint(opt_view(env), file, default),
        r.1 == uint_source(opt_view(env), file),
{
    if let Some(e) = env {
        if let Some(v) = parse_u32(e.as_str()) {
            return (v, ValueSource::Env);
        }
    }
    match file {
        Some(u) => if u <= 0xFFFF_FFFF {
            (u as u32, ValueSource::File)
        } else {
            (default, ValueSource::Default)
        },
        None => (default, ValueSource::Default),
    }
}

impl ListenerConfig {
    /// Resolves the listener section and reports each field's source.
    pub fn load_config_with_sources(file: FileListen, env: &EnvSnapshot) -> (r: (
        Self,
        ListenSources,
    ))
        ensures
            listen_resolved(r.0, file, *env),
            listen_sources_ok(r.1, file, *env),
    {
        let host = resolve_str_with_source(clone_opt(&env.listener_host), file.host, "127.0.0.1");
        let port = resolve_uint_with_source(
            clone_opt(&env.listener_port),
            file.port,
            DEFAULT_PORT,
        );
        let read_timeout = resolve_uint_with_source(
            clone_opt(&env.listener_read_timeout),
            file.read_timeout,
            DEFAULT_READ_TIMEOUT,
        );
        let write_timeout = resolve_uint_with_source(
            clone_opt(&env.listener_write_timeout),
            file.write_timeout,
            DEFAULT_WRITE_TIMEOUT,
        );
        let idle_timeout = resolve_uint_with_source(
            clone_opt(&env.listener_idle_timeout),
            file.idle_timeout,
            DEFAULT_IDLE_TIMEOUT,
        );
        (
            ListenerConfig {
                host: host.0,
                port: port.0,
                read_timeout: read_timeout.0,
                write_timeout: write_timeout.0,
                idle_timeout: idle_timeout.0,
            },
            ListenSources {
                host: host.1,
                port: port.1,
                read_timeout: read_timeout.1,
                write_timeout: write_timeout.1,
                idle_timeout: idle_timeout.1,
            },
        )
    }
}

impl PgConfig {
    /// Resolves the database section and reports each field's source.
    pub fn load_config_with_sources(file: FileDb, env: &EnvSnapshot) -> (r: (Self, DbSources))
        ensures
            db_resolved(r.0, file, *env),
            db_sources_ok(r.1, file, *env),
    {
        let host = resolve_str_with_source(clone_opt(&env.db_host), file.host, "127.0.0.1");
        let port = resolve_uint_with_source(clone_opt(&env.db_port), file.port, DEFAULT_DB_PORT);
        let db_name = resolve_str_with_source(clone_opt(&env.db_name), file.db_name, "postgres");
        let ssl_mode = resolve_str_with_source(clone_opt(&env.db_ssl), file.ssl_mode, "disable");
        let password = resolve_str_with_source(
            clone_opt(&env.db_password),
            file.password,
            "password",
        );
        let username = resolve_str_with_source(clone_opt(&env.db_user), file.username, "postgres");
        (
            PgConfig {
                host: host.0,
                port: port.0,
                db_name: db_name.0,
                ssl_mode: ssl_mode.0,
                password: password.0,
                username: username.0,
            },
            DbSources {
                host: host.1,
                port: port.1,
                db_name: db_name.1,
                ssl_mode: ssl_mode.1,
                password: password.1,
                username: username.1,
            },
        )
    }
}

/// Loads the configuration from the text of the configuration file (`None`
/// when the file is missing or unreadable) and the environment snapshot,
/// and reports whether the file was used and where each field's value came
/// from.
///
/// Resolution is total.  When there is no readable, well-formed file, the
/// result is the all-defaults configuration; otherwise every field is
/// resolved from the values the text holds and the environment, environment
/// over file over default.
pub fn load_with_report(file_content: Option<&str>, env: &EnvSnapshot) -> (r: (Config, LoadReport))
    ensures
        r.1.file_loaded == (file_content matches Some(c) && yaml_well_formed(c@)),
        file_content is None ==> config_is_default(r.0) && sources_all_default(r.1),
        (file_content matches Some(c) && !yaml_well_formed(c@)) ==> config_is_default(r.0)
            && sources_all_default(r.1),
        file_content matches Some(c) ==> yaml_well_formed(c@) ==> listen_resolved_from_text(
            r.0.listen,
            c@,
            *env,
        ) && db_resolved_from_text(r.0.db, c@, *env) && listen_sources_from_text(
            r.1.listen,
            c@,
            *env,
        ) && db_sources_from_text(r.1.db, c@, *env),
{
    let all_default = LoadReport {
        file_loaded: false,
        listen: ListenSources {
            host: ValueSource::Default,
            port: ValueSource::Default,
            read_timeout: ValueSource::Default,
            write_timeout: ValueSource::Default,
            idle_timeout: ValueSource::Default,
        },
        db: DbSources {
            host: ValueSource::Default,
            port: ValueSource::Default,
            db_name: ValueSource::Default,
            ssl_mode: ValueSource::Default,
            password: ValueSource::Default,
            username: ValueSource::Default,
        },
    };
    match file_content {
        None => (Config::default(), all_default),
        Some(content) => {
            if !is_well_formed_yaml(content) {
                return (Config::default(), all_default);
            }
            let fl = listen_file_values(content);
            let fd = db_file_values(content);
            let ghost gfl = fl;
            let ghost gfd = fd;
            let listen = ListenerConfig::load_config_with_sources(fl, env);
            let db = PgConfig::load_config_with_sources(fd, env);
            let cfg = Config { listen: listen.0, db: db.0 };
            let rep = LoadReport { file_loaded: true, listen: listen.1, db: db.1 };
            proof {
                assert(listen_file_of_text(gfl, content@) && listen_resolved(
                    cfg.listen,
                    gfl,
                    *env,
                ));
                assert(db_file_of_text(gfd, content@) && db_resolved(cfg.db, gfd, *env));
            }
            (cfg, rep)
        },
    }
}

/// Loads the configuration from the text of the configuration file (`None`
/// when the file is missing or unreadable) and the environment snapshot.
///
/// Resolution is total.  When there is no readable, well-formed file, the
/// result is the all-defaults configuration; otherwise every field is
/// resolved from the values the text holds and the environment, environment
/// over file over default.
pub fn load(file_content: Option<&str>, env: &EnvSnapshot) -> (r: Config)
    ensures
        file_content is None ==> config_is_default(r),
        (file_content matches Some(c) && !yaml_well_formed(c@)) ==> config_is_default(r),
        file_content matches Some(c) ==> yaml_well_formed(c@) ==> listen_resolved_from_text(
            r.listen,
            c@,
            *env,
        ) && db_resolved_from_text(r.db, c@, *env),
{
    let (cfg, _) = load_with_report(file_content, env);
    cfg
}

} // verus!
