//! The options of a client: broker, session and connection settings.
use crate::protocol::packet::connect::will::{LastWill, LastWillModel};
use crate::protocol::packet::utf8_bytes;
use crate::tls::TlsConfig;
use std::sync::Arc;
use vstd::prelude::*;

verus! {

pub enum NetworkProtocol {
    Tcp,
    Tls(TlsConfig),
}

impl Default for NetworkProtocol {
    fn default() -> (r: Self)
        ensures
            r is Tcp,
    {
        Self::Tcp
    }
}

/// The client identifier was refused.
#[derive(Debug, Clone, Copy, PartialEq, Eq, Structural)]
pub enum OptionsError {
    InvalidClientId,
}

pub struct MqttOptions {
    /// broker address that you want to connect to
    broker_addr: String,
    /// broker port
    port: u16,
    /// keep alive time to send pingreq to broker when the connection
    /// is idle
    keep_alive: u16,
    /// clean (or) persistent session
    clean_session: bool,
    /// client identifier
    client_id: Arc<String>,
    /// username and password
    credentials: Option<(Arc<String>, Arc<String>)>,
    /// maximum incoming packet size (verifies remaining length of
    /// the packet)
    max_incoming_packet_size: usize,
    /// Maximum outgoing packet size (only verifies publish payload
    /// size)
    max_outgoing_packet_size: usize,
    /// Last will that will be issued on unexpected disconnect
    last_will: Option<LastWill>,
    /// Whether the client connects again after losing the connection
    pub auto_reconnect: bool,
    pub network_protocol: NetworkProtocol,
}

/// The options of a client, as plain data.
pub struct MqttOptionsModel {
    pub broker_addr: Seq<char>,
    pub port: u16,
    pub keep_alive: u16,
    pub clean_session: bool,
    pub client_id: Seq<char>,
    pub credentials: Option<(Seq<char>, Seq<char>)>,
    pub max_incoming_packet_size: usize,
    pub max_outgoing_packet_size: usize,
    pub last_will: Option<LastWillModel>,
    pub auto_reconnect: bool,
    /// The TLS settings when the connection runs over TLS; none over TCP.
    pub tls: Option<TlsConfig>,
}

impl View for MqttOptions {
    type V = MqttOptionsModel;

    closed spec fn view(&self) -> MqttOptionsModel {
        MqttOptionsModel {
            broker_addr: self.broker_addr@,
            port: self.port,
            keep_alive: self.keep_alive,
            clean_session: self.clean_session,
            client_id: (*self.client_id)@,
            credentials: match self.credentials {
                Some((u, p)) => Some(((*u)@, (*p)@)),
                None => None,
            },
            max_incoming_packet_size: self.max_incoming_packet_size,
            max_outgoing_packet_size: self.max_outgoing_packet_size,
            last_will: match self.last_will {
                Some(w) => Some(w@),
                None => None,
            },
            auto_reconnect: self.auto_reconnect,
            tls: match self.network_protocol {
                NetworkProtocol::Tcp => None,
                NetworkProtocol::Tls(config) => Some(config),
            },
        }
    }
}

/// A client identifier is refused when it is empty or starts with a space.
pub open spec fn spec_client_id_valid(id: Seq<char>) -> bool {
    utf8_bytes(id).len() > 0 && utf8_bytes(id)[0] != 32
}

/// Another handle on the same text.
fn copy_text(s: &Arc<String>) -> (r: Arc<String>)
    ensures
        (*r)@ == (**s)@,
{
    Arc::new((**s).clone())
}

impl MqttOptions {
    pub fn new(id: String, host: String, port: u16) -> (r: Result<MqttOptions, OptionsError>)
        ensures
            match r {
                Ok(o) => spec_client_id_valid(id@) && o@ == (MqttOptionsModel {
                    broker_addr: host@,
                    port,
                    keep_alive: 60,
                    clean_session: true,
                    client_id: id@,
                    credentials: None,
                    max_incoming_packet_size: 10240usize,
                    max_outgoing_packet_size: 10240usize,
                    last_will: None,
                    auto_reconnect: false,
                    tls: None,
                }),
                Err(e) => !spec_client_id_valid(id@) && e == OptionsError::InvalidClientId,
            },
    {
        let bytes = id.as_str().as_bytes();
        if bytes.len() == 0 || bytes[0] == 32 {
            return Err(OptionsError::InvalidClientId);
        }
        Ok(
            MqttOptions {
                broker_addr: host,
                port,
                keep_alive: 60,
                clean_session: true,
                client_id: Arc::new(id),
                credentials: None,
                max_incoming_packet_size: 10 * 1024,
                max_outgoing_packet_size: 10 * 1024,
                last_will: None,
                auto_reconnect: false,
                network_protocol: NetworkProtocol::default(),
            },
        )
    }

    /// Reconnects after losing the connection; asks the broker to keep the
    /// session.
    pub fn auto_reconnect(self) -> (r: Self)
        ensures
            r@ == (MqttOptionsModel { auto_reconnect: true, clean_session: false, ..self@ }),
    {
        let mut s = self;
        s.auto_reconnect = true;
        s.set_clean_session(false)
    }

    pub fn set_tls(self, config: TlsConfig) -> (r: Self)
        ensures
            r@ == (MqttOptionsModel { tls: Some(config), ..self@ }),
    {
        let mut s = self;
        s.network_protocol = NetworkProtocol::Tls(config);
        s
    }

    /// Broker address
    pub fn broker_address(&self) -> (r: (String, u16))
        ensures
            r.0@ == self@.broker_addr,
            r.1 == self@.port,
    {
        (self.broker_addr.clone(), self.port)
    }

    pub fn set_last_will(self, will: LastWill) -> (r: Self)
        ensures
            r@ == (MqttOptionsModel { last_will: Some(will@), ..self@ }),
    {
        let mut s = self;
        s.last_will = Some(will);
        s
    }

    pub fn last_will(&self) -> (r: Option<LastWill>)
        ensures
            match r {
                Some(w) => self@.last_will == Some(w@),
                None => self@.last_will is None,
            },
    {
        match &self.last_will {
            Some(w) => Some(w.clone()),
            None => None,
        }
    }

    /// Set number of seconds after which client should ping the
    /// broker if there is no other data exchange
    pub fn set_keep_alive(self, duration: u16) -> (r: Self)
        requires
            duration >= 5,
        ensures
            r@ == (MqttOptionsModel { keep_alive: duration, ..self@ }),
    {
        let mut s = self;
        s.keep_alive = duration;
        s
    }

    /// Keep alive time
    pub fn keep_alive(&self) -> (r: u16)
        ensures
            r == self@.keep_alive,
    {
        self.keep_alive
    }

    /// Client identifier
    pub fn client_id(&self) -> (r: Arc<String>)
        ensures
            (*r)@ == self@.client_id,
    {
        copy_text(&self.client_id)
    }

    /// Set packet size limit for outgoing an incoming packets
    pub fn set_max_packet_size(self, incoming: usize, outgoing: usize) -> (r: Self)
        ensures
            r@ == (MqttOptionsModel {
                max_incoming_packet_size: incoming,
                max_outgoing_packet_size: outgoing,
                ..self@
            }),
    {
        let mut s = self;
        s.max_incoming_packet_size = incoming;
        s.max_outgoing_packet_size = outgoing;
        s
    }

    /// Maximum packet size
    pub fn max_packet_size(&self) -> (r: usize)
        ensures
            r == self@.max_incoming_packet_size,
    {
        self.max_incoming_packet_size
    }

    /// `clean_session = true` removes all the state from queues &
    /// instructs the broker to clean all the client state when
    /// client disconnects.
    pub fn set_clean_session(self, clean_session: bool) -> (r: Self)
        ensures
            r@ == (MqttOptionsModel { clean_session, ..self@ }),
    {
        let mut s = self;
        s.clean_session = clean_session;
        s
    }

    /// Clean session
    pub fn clean_session(&self) -> (r: bool)
        ensures
            r == self@.clean_session,
    {
        self.clean_session
    }

    /// Username and password
    pub fn set_credentials(self, username: String, password: String) -> (r: Self)
        ensures
            r@ == (MqttOptionsModel { credentials: Some((username@, password@)), ..self@ }),
    {
        let mut s = self;
        s.credentials = Some((Arc::new(username), Arc::new(password)));
        s
    }

    /// Security options
    pub fn credentials(&self) -> (r: Option<(Arc<String>, Arc<String>)>)
        ensures
            match r {
                Some((u, p)) => self@.credentials == Some(((*u)@, (*p)@)),
                None => self@.credentials is None,
            },
    {
        match &self.credentials {
            Some((u, p)) => Some((copy_text(u), copy_text(p))),
            None => None,
        }
    }
}

} // verus!
