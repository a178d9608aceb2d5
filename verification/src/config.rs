//! Service configuration: defaults for unset environment variables, port parsing,
//! and the connection parameters derived from the configuration.

use vstd::prelude::*;
use crate::decimal::{digit_char, IntParseError, parse_u16, push_decimal, decimal_text, spec_parse_unsigned};

verus! {

/// The raw values of the service's environment variables (`None` where a variable is unset).
pub struct EnvValues {
    pub clickhouse_host: Option<String>,
    pub clickhouse_port: Option<String>,
    pub clickhouse_user: Option<String>,
    pub clickhouse_password: Option<String>,
    pub clickhouse_database: Option<String>,
    pub mqtt_host: Option<String>,
    pub mqtt_port: Option<String>,
    pub mqtt_client_id: Option<String>,
    pub mqtt_topic: Option<String>,
    pub mqtt_username: Option<String>,
    pub mqtt_password: Option<String>,
    pub server_host: Option<String>,
    pub server_port: Option<String>,
}

/// The resolved connection and listening settings of the service.
pub struct ServiceConfig {
    pub clickhouse_host: String,
    pub clickhouse_port: u16,
    pub clickhouse_user: String,
    pub clickhouse_password: String,
    pub clickhouse_database: String,
    pub mqtt_host: String,
    pub mqtt_port: u16,
    pub mqtt_client_id: String,
    pub mqtt_topic: String,
    pub mqtt_username: String,
    pub mqtt_password: String,
    pub server_host: String,
    pub server_port: u16,
}

/// A port variable whose text is not a `u16`.
pub struct ConfigError {
    /// The name of the environment variable.
    pub variable: String,
    /// Why its text is not a port number.
    pub kind: IntParseError,
}

/// The value of a setting: the variable's text, or the default when it is unset.
pub open spec fn spec_setting(value: Option<Seq<char>>, default: Seq<char>) -> Seq<char> {
    match value {
        Some(v) => v,
        None => default,
    }
}

/// The outcome of reading a port setting.
pub open spec fn spec_port(value: Option<Seq<char>>, default: Seq<char>) -> Result<nat, IntParseError> {
    spec_parse_unsigned(spec_setting(value, default), u16::MAX as nat)
}

pub open spec fn clickhouse_port_outcome(values: EnvValues) -> Result<nat, IntParseError> {
    spec_port(values.clickhouse_port.deep_view(), "8123"@)
}

pub open spec fn mqtt_port_outcome(values: EnvValues) -> Result<nat, IntParseError> {
    spec_port(values.mqtt_port.deep_view(), "1883"@)
}

pub open spec fn server_port_outcome(values: EnvValues) -> Result<nat, IntParseError> {
    spec_port(values.server_port.deep_view(), "8080"@)
}

/// `config` holds exactly the settings that `values` resolve to.
pub open spec fn resolved_from(config: ServiceConfig, values: EnvValues) -> bool {
    &&& config.clickhouse_host@ == spec_setting(values.clickhouse_host.deep_view(), "127.0.0.1"@)
    &&& clickhouse_port_outcome(values) == Ok::<nat, IntParseError>(config.clickhouse_port as nat)
    &&& config.clickhouse_user@ == spec_setting(values.clickhouse_user.deep_view(), "default"@)
    &&& config.clickhouse_password@ == spec_setting(values.clickhouse_password.deep_view(), ""@)
    &&& config.clickhouse_database@ == spec_setting(values.clickhouse_database.deep_view(), "sinan_db"@)
    &&& config.mqtt_host@ == spec_setting(values.mqtt_host.deep_view(), "127.0.0.1"@)
    &&& mqtt_port_outcome(values) == Ok::<nat, IntParseError>(config.mqtt_port as nat)
    &&& config.mqtt_client_id@ == spec_setting(values.mqtt_client_id.deep_view(), "sinan-backend"@)
    &&& config.mqtt_topic@ == spec_setting(values.mqtt_topic.deep_view(), "sinan/alerts"@)
    &&& config.mqtt_username@ == spec_setting(values.mqtt_username.deep_view(), ""@)
    &&& config.mqtt_password@ == spec_setting(values.mqtt_password.deep_view(), ""@)
    &&& config.server_host@ == spec_setting(values.server_host.deep_view(), "0.0.0.0"@)
    &&& server_port_outcome(values) == Ok::<nat, IntParseError>(config.server_port as nat)
}

/// `error` reports the first port variable, in the order ClickHouse, MQTT, server,
/// whose text is not a port number.
pub open spec fn first_port_error(error: ConfigError, values: EnvValues) -> bool {
    if clickhouse_port_outcome(values) is Err {
        &&& error.variable@ == "CLICKHOUSE_PORT"@
        &&& clickhouse_port_outcome(values) == Err::<nat, IntParseError>(error.kind)
    } else if mqtt_port_outcome(values) is Err {
        &&& error.variable@ == "MQTT_PORT"@
        &&& mqtt_port_outcome(values) == Err::<nat, IntParseError>(error.kind)
    } else {
        &&& error.variable@ == "SERVER_PORT"@
        &&& server_port_outcome(values) == Err::<nat, IntParseError>(error.kind)
    }
}

/// The value of a setting: the variable's text, or `default` when it is unset.
pub fn setting_or(value: Option<String>, default: &str) -> (setting: String)
    ensures
        setting@ == spec_setting(value.deep_view(), default@),
{
    match value {
        Some(v) => v,
        None => String::from_str(default),
    }
}

/// Reads a port setting: the variable's text, or `default` when it is unset, as a `u16`.
pub fn port_setting(variable: &str, value: Option<String>, default: &str) -> (port: Result<u16, ConfigError>)
    ensures
        match port {
            Ok(p) => spec_port(value.deep_view(), default@) == Ok::<nat, IntParseError>(p as nat),
            Err(e) => e.variable@ == variable@
                && spec_port(value.deep_view(), default@) == Err::<nat, IntParseError>(e.kind),
        },
{
    let text = setting_or(value, default);
    match parse_u16(text.as_str()) {
        Ok(p) => Ok(p),
        Err(kind) => Err(ConfigError { variable: String::from_str(variable), kind }),
    }
}

/// Connection parameters of the time-series database.
pub struct ClickHouseTarget {
    pub url: String,
    pub database: String,
    /// User and password, present when a user is configured.
    pub credentials: Option<(String, String)>,
}

impl ServiceConfig {
    /// Resolves the settings from the environment: unset variables take their defaults,
    /// and the three ports must be `u16` numbers.
    pub fn from_env_values(values: EnvValues) -> (result: Result<ServiceConfig, ConfigError>)
        ensures
            result is Ok <==> (clickhouse_port_outcome(values) is Ok && mqtt_port_outcome(values) is Ok
                && server_port_outcome(values) is Ok),
            match result {
                Ok(config) => resolved_from(config, values),
                Err(error) => first_port_error(error, values),
            },
    {
        let EnvValues {
            clickhouse_host,
            clickhouse_port,
            clickhouse_user,
            clickhouse_password,
            clickhouse_database,
            mqtt_host,
            mqtt_port,
            mqtt_client_id,
            mqtt_topic,
            mqtt_username,
            mqtt_password,
            server_host,
            server_port,
        } = values;
        let clickhouse_host = setting_or(clickhouse_host, "127.0.0.1");
        let clickhouse_port = match port_setting("CLICKHOUSE_PORT", clickhouse_port, "8123") {
            Ok(p) => p,
            Err(e) => return Err(e),
        };
        let clickhouse_user = setting_or(clickhouse_user, "default");
        let clickhouse_password = setting_or(clickhouse_password, "");
        let clickhouse_database = setting_or(clickhouse_database, "sinan_db");
        let mqtt_host = setting_or(mqtt_host, "127.0.0.1");
        let mqtt_port = match port_setting("MQTT_PORT", mqtt_port, "1883") {
            Ok(p) => p,
            Err(e) => return Err(e),
        };
        let mqtt_client_id = setting_or(mqtt_client_id, "sinan-backend");
        let mqtt_topic = setting_or(mqtt_topic, "sinan/alerts");
        let mqtt_username = setting_or(mqtt_username, "");
        let mqtt_password = setting_or(mqtt_password, "");
        let server_host = setting_or(server_host, "0.0.0.0");
        let server_port = match port_setting("SERVER_PORT", server_port, "8080") {
            Ok(p) => p,
            Err(e) => return Err(e),
        };
        Ok(ServiceConfig {
            clickhouse_host,
            clickhouse_port,
            clickhouse_user,
            clickhouse_password,
            clickhouse_database,
            mqtt_host,
            mqtt_port,
            mqtt_client_id,
            mqtt_topic,
            mqtt_username,
            mqtt_password,
            server_host,
            server_port,
        })
    }

    pub open spec fn spec_clickhouse_url(self) -> Seq<char> {
        if self.clickhouse_password@.len() == 0 {
            "http://"@ + self.clickhouse_host@ + ":"@ + decimal_text(self.clickhouse_port as nat)
                + "/?database="@ + self.clickhouse_database@
        } else {
            "http://"@ + self.clickhouse_user@ + ":"@ + self.clickhouse_password@ + "@"@
                + self.clickhouse_host@ + ":"@ + decimal_text(self.clickhouse_port as nat)
                + "/?database="@ + self.clickhouse_database@
        }
    }

    /// The database URL, with the user and password in it when a password is set.
    pub fn clickhouse_url(&self) -> (url: String)
        ensures
            url@ == self.spec_clickhouse_url(),
    {
        let mut url = String::from_str("http://");
        if !self.clickhouse_password.as_str().is_empty() {
            url.append(self.clickhouse_user.as_str());
            url.append(":");
            url.append(self.clickhouse_password.as_str());
            url.append("@");
        }
        url.append(self.clickhouse_host.as_str());
        url.append(":");
        push_decimal(&mut url, self.clickhouse_port as u64);
        url.append("/?database=");
        url.append(self.clickhouse_database.as_str());
        url
    }

    /// How the database client connects: host and port, database, and the credentials
    /// when a user is configured.
    pub fn clickhouse_target(&self) -> (target: ClickHouseTarget)
        ensures
            target.url@ == "http://"@ + self.clickhouse_host@ + ":"@ + decimal_text(
                self.clickhouse_port as nat,
            ),
            target.database@ == self.clickhouse_database@,
            match target.credentials {
                Some((user, password)) => self.clickhouse_user@.len() > 0 && user@
                    == self.clickhouse_user@ && password@ == self.clickhouse_password@,
                None => self.clickhouse_user@.len() == 0,
            },
    {
        let mut url = String::from_str("http://");
        url.append(self.clickhouse_host.as_str());
        url.append(":");
        push_decimal(&mut url, self.clickhouse_port as u64);
        let credentials = if self.clickhouse_user.as_str().is_empty() {
            None
        } else {
            Some((self.clickhouse_user.clone(), self.clickhouse_password.clone()))
        };
        ClickHouseTarget { url, database: self.clickhouse_database.clone(), credentials }
    }

    /// The address the HTTP server listens on: host, a colon and the port.
    pub fn server_address(&self) -> (address: String)
        ensures
            address@ == self.server_host@ + ":"@ + decimal_text(self.server_port as nat),
    {
        let mut address = self.server_host.clone();
        address.append(":");
        push_decimal(&mut address, self.server_port as u64);
        address
    }

    /// The broker credentials, present when a user name is configured.
    pub fn mqtt_credentials(&self) -> (credentials: Option<(String, String)>)
        ensures
            match credentials {
                Some((user, password)) => self.mqtt_username@.len() > 0 && user@ == self.mqtt_username@
                    && password@ == self.mqtt_password@,
                None => self.mqtt_username@.len() == 0,
            },
    {
        if self.mqtt_username.as_str().is_empty() {
            None
        } else {
            Some((self.mqtt_username.clone(), self.mqtt_password.clone()))
        }
    }
}

proof fn lemma_default_ports()
    ensures
        spec_parse_unsigned("8123"@, 65535) == Ok::<nat, IntParseError>(8123),
        spec_parse_unsigned("1883"@, 65535) == Ok::<nat, IntParseError>(1883),
        spec_parse_unsigned("8080"@, 65535) == Ok::<nat, IntParseError>(8080),
{
    reveal_strlit("8123");
    reveal_strlit("1883");
    reveal_strlit("8080");
    assert(decimal_text(8) == seq![digit_char(8)]);
    assert(decimal_text(81) == decimal_text(8).push(digit_char(1)));
    assert(decimal_text(812) == decimal_text(81).push(digit_char(2)));
    assert(decimal_text(8123) == decimal_text(812).push(digit_char(3)));
    assert(digit_char(1) == '1');
    assert(digit_char(2) == '2');
    assert(digit_char(3) == '3');
    assert(digit_char(8) == '8');
    assert(decimal_text(8123) =~= "8123"@);
    assert(decimal_text(1) == seq![digit_char(1)]);
    assert(decimal_text(18) == decimal_text(1).push(digit_char(8)));
    assert(decimal_text(188) == decimal_text(18).push(digit_char(8)));
    assert(decimal_text(1883) == decimal_text(188).push(digit_char(3)));
    assert(digit_char(1) == '1');
    assert(digit_char(3) == '3');
    assert(digit_char(8) == '8');
    assert(decimal_text(1883) =~= "1883"@);
    assert(decimal_text(8) == seq![digit_char(8)]);
    assert(decimal_text(80) == decimal_text(8).push(digit_char(0)));
    assert(decimal_text(808) == decimal_text(80).push(digit_char(8)));
    assert(decimal_text(8080) == decimal_text(808).push(digit_char(0)));
    assert(digit_char(0) == '0');
    assert(digit_char(8) == '8');
    assert(decimal_text(8080) =~= "8080"@);
    crate::decimal::lemma_decimal_round_trip(8123, 65535);
    crate::decimal::lemma_decimal_round_trip(1883, 65535);
    crate::decimal::lemma_decimal_round_trip(8080, 65535);
}

/// Every text setting is its own variable's text when that variable is set and its
/// default otherwise (hosts `127.0.0.1` and `0.0.0.0`, user `default`, database
/// `sinan_db`, client `sinan-backend`, topic `sinan/alerts`, empty passwords and broker
/// user); every port set by its variable is that variable's text read as a number, and
/// every unset port its default (8123, 1883, 8080).
pub proof fn lemma_settings_from_own_variables(config: ServiceConfig, values: EnvValues)
    requires
        resolved_from(config, values),
    ensures
        values.clickhouse_host matches Some(v) ==> config.clickhouse_host@ == v@,
        values.clickhouse_host is None ==> config.clickhouse_host@ == "127.0.0.1"@,
        values.clickhouse_user matches Some(v) ==> config.clickhouse_user@ == v@,
        values.clickhouse_user is None ==> config.clickhouse_user@ == "default"@,
        values.clickhouse_password matches Some(v) ==> config.clickhouse_password@ == v@,
        values.clickhouse_password is None ==> config.clickhouse_password@ == ""@,
        values.clickhouse_database matches Some(v) ==> config.clickhouse_database@ == v@,
        values.clickhouse_database is None ==> config.clickhouse_database@ == "sinan_db"@,
        values.mqtt_host matches Some(v) ==> config.mqtt_host@ == v@,
        values.mqtt_host is None ==> config.mqtt_host@ == "127.0.0.1"@,
        values.mqtt_client_id matches Some(v) ==> config.mqtt_client_id@ == v@,
        values.mqtt_client_id is None ==> config.mqtt_client_id@ == "sinan-backend"@,
        values.mqtt_topic matches Some(v) ==> config.mqtt_topic@ == v@,
        values.mqtt_topic is None ==> config.mqtt_topic@ == "sinan/alerts"@,
        values.mqtt_username matches Some(v) ==> config.mqtt_username@ == v@,
        values.mqtt_username is None ==> config.mqtt_username@ == ""@,
        values.mqtt_password matches Some(v) ==> config.mqtt_password@ == v@,
        values.mqtt_password is None ==> config.mqtt_password@ == ""@,
        values.server_host matches Some(v) ==> config.server_host@ == v@,
        values.server_host is None ==> config.server_host@ == "0.0.0.0"@,
        values.clickhouse_port matches Some(v) ==> spec_parse_unsigned(v@, 65535) == Ok::<nat, IntParseError>(
            config.clickhouse_port as nat,
        ),
        values.clickhouse_port is None ==> config.clickhouse_port == 8123,
        values.mqtt_port matches Some(v) ==> spec_parse_unsigned(v@, 65535) == Ok::<nat, IntParseError>(
            config.mqtt_port as nat,
        ),
        values.mqtt_port is None ==> config.mqtt_port == 1883,
        values.server_port matches Some(v) ==> spec_parse_unsigned(v@, 65535) == Ok::<nat, IntParseError>(
            config.server_port as nat,
        ),
        values.server_port is None ==> config.server_port == 8080,
{
    lemma_default_ports();
}

/// Resolution succeeds exactly when the three port variables read as `u16` numbers
/// (each unset one taking its default); otherwise the error names the first of
/// `CLICKHOUSE_PORT`, `MQTT_PORT`, `SERVER_PORT` whose text does not.
pub proof fn lemma_first_bad_port_named(error: ConfigError, values: EnvValues)
    requires
        first_port_error(error, values),
    ensures
        spec_port(values.clickhouse_port.deep_view(), "8123"@) is Err ==> error.variable@
            == "CLICKHOUSE_PORT"@ && spec_port(values.clickhouse_port.deep_view(), "8123"@)
            == Err::<nat, IntParseError>(error.kind),
        error.variable@ == "MQTT_PORT"@ ==> clickhouse_port_outcome(values) is Ok,
        error.variable@ == "SERVER_PORT"@ ==> clickhouse_port_outcome(values) is Ok
            && mqtt_port_outcome(values) is Ok,
{
    reveal_strlit("CLICKHOUSE_PORT");
    reveal_strlit("MQTT_PORT");
    reveal_strlit("SERVER_PORT");
    assert("CLICKHOUSE_PORT"@.len() != "MQTT_PORT"@.len());
    assert("CLICKHOUSE_PORT"@.len() != "SERVER_PORT"@.len());
    assert("MQTT_PORT"@.len() != "SERVER_PORT"@.len());
}

/// The database URL is `http://`, then `user:password@` exactly when a password is set
/// (whatever the user), then the host, a colon, the port in decimal and the database
/// after `/?database=`.
pub proof fn lemma_clickhouse_url_credentials(config: ServiceConfig)
    ensures
        config.clickhouse_password@.len() == 0 ==> config.spec_clickhouse_url() == "http://"@ + (
        config.clickhouse_host@ + ":"@ + decimal_text(config.clickhouse_port as nat) + "/?database="@
            + config.clickhouse_database@),
        config.clickhouse_password@.len() > 0 ==> config.spec_clickhouse_url() == "http://"@ + (
        config.clickhouse_user@ + ":"@ + config.clickhouse_password@ + "@"@) + (
        config.clickhouse_host@ + ":"@ + decimal_text(config.clickhouse_port as nat) + "/?database="@
            + config.clickhouse_database@),
{
    let tail = config.clickhouse_host@ + ":"@ + decimal_text(config.clickhouse_port as nat)
        + "/?database="@ + config.clickhouse_database@;
    let cred = config.clickhouse_user@ + ":"@ + config.clickhouse_password@ + "@"@;
    if config.clickhouse_password@.len() == 0 {
        assert(config.spec_clickhouse_url() =~= "http://"@ + tail);
    } else {
        assert(config.spec_clickhouse_url() =~= "http://"@ + cred + tail);
    }
}

} // verus!
