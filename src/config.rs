//! Connection settings and the addresses derived from them.
use vstd::prelude::*;
use vstd::string::StringExecFns;

verus! {

/// Connection settings of the processor.
#[derive(Debug, Clone)]
pub struct Config {
    pub rabbitmq_default_user: String,
    pub rabbitmq_default_pass: String,
    pub rabbitmq_host: String,
    pub rabbitmq_port: String,
    pub postgres_user: String,
    pub postgres_password: String,
    pub postgres_db: String,
    pub postgres_host: String,
    pub postgres_port: String,
}

/// The AMQP address of the broker, on its default virtual host.
pub open spec fn amqp_addr_of(c: Config) -> Seq<char> {
    "amqp://"@ + c.rabbitmq_default_user@ + ":"@ + c.rabbitmq_default_pass@ + "@"@
        + c.rabbitmq_host@ + ":"@ + c.rabbitmq_port@ + "/%2f"@
}

/// The connection URL of the ledger database, without TLS.
pub open spec fn database_url_of(c: Config) -> Seq<char> {
    "postgres://"@ + c.postgres_user@ + ":"@ + c.postgres_password@ + "@"@ + c.postgres_host@
        + ":"@ + c.postgres_port@ + "/"@ + c.postgres_db@ + "?sslmode=disable"@
}

impl Config {
    /// The AMQP address of the broker.
    pub fn rabbitmq_amqp_addr(&self) -> (r: String)
        ensures
            r@ == amqp_addr_of(*self),
    {
        let mut s = String::from_str("amqp://");
        s.append(self.rabbitmq_default_user.as_str());
        s.append(":");
        s.append(self.rabbitmq_default_pass.as_str());
        s.append("@");
        s.append(self.rabbitmq_host.as_str());
        s.append(":");
        s.append(self.rabbitmq_port.as_str());
        s.append("/%2f");
        s
    }

    /// The connection URL of the ledger database.
    pub fn database_url(&self) -> (r: String)
        ensures
            r@ == database_url_of(*self),
    {
        let mut s = String::from_str("postgres://");
        s.append(self.postgres_user.as_str());
        s.append(":");
        s.append(self.postgres_password.as_str());
        s.append("@");
        s.append(self.postgres_host.as_str());
        s.append(":");
        s.append(self.postgres_port.as_str());
        s.append("/");
        s.append(self.postgres_db.as_str());
        s.append("?sslmode=disable");
        s
    }
}

} // verus!
