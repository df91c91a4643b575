use vstd::prelude::*;
use crate::text::same_text;

verus! {

/// Relies on `str::to_lowercase`: the result depends on the characters alone.
pub uninterp spec fn lower_of(s: Seq<char>) -> Seq<char>;

/// Relies on `str::to_lowercase`.
#[verifier::external_body]
fn lowercase(s: &str) -> (r: String)
    ensures
        r@ == lower_of(s@),
{
    s.to_lowercase()
}

#[derive(Copy, Clone, Debug, PartialEq, Eq, Structural)]
pub enum ConnectionMethod {
    Tcp,
    UnixSocket,
}

/// How a connection method is named in the configuration, case aside.
pub open spec fn connection_method_named(lowered: Seq<char>) -> Result<ConnectionMethod, ()> {
    if lowered == "tcp"@ {
        Ok(ConnectionMethod::Tcp)
    } else if lowered == "unixsocket"@ {
        Ok(ConnectionMethod::UnixSocket)
    } else {
        Err(())
    }
}

impl ConnectionMethod {
    /// Reads a connection method named in any case; UDP is refused with its
    /// own message.
    pub fn try_from(value: &str) -> (r: Result<ConnectionMethod, &'static str>)
        ensures
            match connection_method_named(lower_of(value@)) {
                Ok(m) => r == Ok::<ConnectionMethod, &'static str>(m),
                Err(_) => r is Err,
            },
            lower_of(value@) == "udp"@ ==> r is Err && r->Err_0@ == "UDP is not supported"@,
    {
        let lowered = lowercase(value);
        ConnectionMethod::from_lowercase(lowered.as_str())
    }

    /// Reads a connection method from its name in lower case; UDP is refused
    /// with its own message.
    pub fn from_lowercase(lowered: &str) -> (r: Result<ConnectionMethod, &'static str>)
        ensures
            match connection_method_named(lowered@) {
                Ok(m) => r == Ok::<ConnectionMethod, &'static str>(m),
                Err(_) => r is Err,
            },
            lowered@ == "udp"@ ==> r is Err && r->Err_0@ == "UDP is not supported"@,
    {
        proof {
            reveal_strlit("tcp");
            reveal_strlit("udp");
            reveal_strlit("unixsocket");
            assert("tcp"@.len() != "unixsocket"@.len());
            assert("udp"@.len() != "unixsocket"@.len());
            assert("udp"@[0] != "tcp"@[0]);
        }
        if same_text(lowered, "tcp") {
            Ok(ConnectionMethod::Tcp)
        } else if same_text(lowered, "udp") {
            Err("UDP is not supported")
        } else if same_text(lowered, "unixsocket") {
            Ok(ConnectionMethod::UnixSocket)
        } else {
            Err("Failed to parse connection method")
        }
    }
}

/// A setting that can be written once: the first `set_value` fixes it.
pub struct ConfigField<T> {
    pub value: T,
    pub is_ro: bool,
}

impl<T: Clone> ConfigField<T> {
    pub fn get_value(&self) -> (r: T)
        ensures
            cloned(self.value, r),
    {
        self.value.clone()
    }

    pub fn new_empty(value: T) -> (r: ConfigField<T>)
        ensures
            r.value == value,
            !r.is_ro,
    {
        ConfigField { value, is_ro: false }
    }

    pub fn set_value(&mut self, value: T)
        ensures
            !old(self).is_ro ==> final(self).value == value,
            old(self).is_ro ==> final(self).value == old(self).value,
            final(self).is_ro,
    {
        if !self.is_ro {
            self.value = value;
            self.is_ro = true;
        }
    }
}

pub struct ApplicationConfig {
    pub max_upload_size: ConfigField<u16>,
}

impl ApplicationConfig {
    pub fn new() -> (r: ApplicationConfig)
        ensures
            r.max_upload_size.value == 0 && !r.max_upload_size.is_ro,
    {
        ApplicationConfig { max_upload_size: ConfigField::new_empty(0) }
    }
}

pub open spec fn empty_text_field(f: ConfigField<String>) -> bool {
    f.value@.len() == 0 && !f.is_ro
}

pub struct FilesystemConfig {
    pub ffprobe_path: ConfigField<String>,
    pub default_userconfig_filepath: ConfigField<String>,
    pub static_webcontent_path: ConfigField<String>,
    pub uploads_path: ConfigField<String>,
    pub uploads_prv_path: ConfigField<String>,
}

impl FilesystemConfig {
    pub fn new() -> (r: FilesystemConfig)
        ensures
            empty_text_field(r.ffprobe_path),
            empty_text_field(r.default_userconfig_filepath),
            empty_text_field(r.static_webcontent_path),
            empty_text_field(r.uploads_path),
            empty_text_field(r.uploads_prv_path),
    {
        FilesystemConfig {
            ffprobe_path: ConfigField::new_empty(String::new()),
            default_userconfig_filepath: ConfigField::new_empty(String::new()),
            static_webcontent_path: ConfigField::new_empty(String::new()),
            uploads_path: ConfigField::new_empty(String::new()),
            uploads_prv_path: ConfigField::new_empty(String::new()),
        }
    }
}

pub struct NetworkConfig {
    pub ip_addr: ConfigField<String>,
    pub port: ConfigField<u16>,
}

impl NetworkConfig {
    pub fn new() -> (r: NetworkConfig)
        ensures
            empty_text_field(r.ip_addr),
            r.port.value == 0 && !r.port.is_ro,
    {
        NetworkConfig { ip_addr: ConfigField::new_empty(String::new()), port: ConfigField::new_empty(0) }
    }
}

pub struct PostgresConfig {
    pub host: ConfigField<String>,
    pub port: ConfigField<u16>,
    pub unix_socket_dir: ConfigField<String>,
    pub connection_method: ConfigField<ConnectionMethod>,
    pub user: ConfigField<String>,
    pub password: ConfigField<String>,
    pub db_name: ConfigField<String>,
    pub required_schema_version: ConfigField<u32>,
}

impl PostgresConfig {
    pub fn new() -> (r: PostgresConfig)
        ensures
            empty_text_field(r.host),
            r.port.value == 0 && !r.port.is_ro,
            empty_text_field(r.unix_socket_dir),
            r.connection_method.value == ConnectionMethod::Tcp && !r.connection_method.is_ro,
            empty_text_field(r.user),
            empty_text_field(r.password),
            empty_text_field(r.db_name),
            r.required_schema_version.value == 0 && !r.required_schema_version.is_ro,
    {
        PostgresConfig {
            host: ConfigField::new_empty(String::new()),
            port: ConfigField::new_empty(0),
            unix_socket_dir: ConfigField::new_empty(String::new()),
            connection_method: ConfigField::new_empty(ConnectionMethod::Tcp),
            user: ConfigField::new_empty(String::new()),
            password: ConfigField::new_empty(String::new()),
            db_name: ConfigField::new_empty(String::new()),
            required_schema_version: ConfigField::new_empty(0),
        }
    }
}

pub struct RedisConfig {
    pub host: ConfigField<String>,
    pub port: ConfigField<u16>,
    pub unix_socket_file: ConfigField<String>,
    pub connection_method: ConfigField<ConnectionMethod>,
}

impl RedisConfig {
    pub fn new() -> (r: RedisConfig)
        ensures
            empty_text_field(r.host),
            r.port.value == 0 && !r.port.is_ro,
            empty_text_field(r.unix_socket_file),
            r.connection_method.value == ConnectionMethod::Tcp && !r.connection_method.is_ro,
    {
        RedisConfig {
            host: ConfigField::new_empty(String::new()),
            port: ConfigField::new_empty(0),
            unix_socket_file: ConfigField::new_empty(String::new()),
            connection_method: ConfigField::new_empty(ConnectionMethod::Tcp),
        }
    }
}

pub struct SecurityConfig {
    pub password_hash_key: ConfigField<String>,
    pub session_private_key: ConfigField<String>,
    pub register_password: ConfigField<String>,
}

impl SecurityConfig {
    pub fn new() -> (r: SecurityConfig)
        ensures
            empty_text_field(r.password_hash_key),
            empty_text_field(r.session_private_key),
            empty_text_field(r.register_password),
    {
        SecurityConfig {
            password_hash_key: ConfigField::new_empty(String::new()),
            session_private_key: ConfigField::new_empty(String::new()),
            register_password: ConfigField::new_empty(String::new()),
        }
    }
}

pub struct ProjectConfig {
    pub application_config: ApplicationConfig,
    pub filesystem_config: FilesystemConfig,
    pub network_config: NetworkConfig,
    pub postgres_config: PostgresConfig,
    pub redis_config: RedisConfig,
    pub security_config: SecurityConfig,
}

impl ProjectConfig {
    /// A configuration with every setting empty and still writable.
    pub fn new() -> (r: ProjectConfig)
        ensures
            empty_text_field(r.filesystem_config.uploads_path),
            empty_text_field(r.filesystem_config.uploads_prv_path),
            empty_text_field(r.security_config.password_hash_key),
            r.redis_config.connection_method.value == ConnectionMethod::Tcp,
    {
        ProjectConfig {
            application_config: ApplicationConfig::new(),
            filesystem_config: FilesystemConfig::new(),
            network_config: NetworkConfig::new(),
            postgres_config: PostgresConfig::new(),
            redis_config: RedisConfig::new(),
            security_config: SecurityConfig::new(),
        }
    }
}

} // verus!
