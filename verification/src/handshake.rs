//! What the login negotiation is asked to do.

use vstd::prelude::*;
use crate::log::Credentials;

verus! {

/// Width of the display that the handshake announces.
pub const DISPLAY_WIDTH: u16 = 800;

/// Height of the display that the handshake announces.
pub const DISPLAY_HEIGHT: u16 = 600;

/// The protocol client's configuration of one session. Its fields are its
/// own; what it holds is spoken of through `connector_screen`,
/// `connector_login` and `connector_switches`.
#[verifier::external_type_specification]
#[verifier::external_body]
pub struct ExConnector(rdp::core::client::Connector);

/// The display size that a configuration announces: width, then height.
pub uninterp spec fn connector_screen(connector: rdp::core::client::Connector) -> (u16, u16);

/// The login that a configuration presents: domain, username, password.
pub uninterp spec fn connector_login(connector: rdp::core::client::Connector) -> (
    Seq<char>,
    Seq<char>,
    Seq<char>,
);

/// The switches of a configuration: restricted admin mode, automatic logon,
/// certificate checking.
pub uninterp spec fn connector_switches(connector: rdp::core::client::Connector) -> (
    bool,
    bool,
    bool,
);

/// `Connector::new`: a configuration with the protocol client's defaults,
/// which are a display of 800 by 600, an empty domain, username and
/// password, and all three switches off.
pub assume_specification[ rdp::core::client::Connector::new ]() -> (connector:
    rdp::core::client::Connector)
    ensures
        connector_screen(connector) == (800u16, 600u16),
        connector_login(connector) == (
            Seq::<char>::empty(),
            Seq::<char>::empty(),
            Seq::<char>::empty(),
        ),
        connector_switches(connector) == (false, false, false),
;

/// `Connector::screen`: the same configuration with the given display size;
/// login and switches stay.
pub assume_specification[ rdp::core::client::Connector::screen ](
    connector: rdp::core::client::Connector,
    width: u16,
    height: u16,
) -> (configured: rdp::core::client::Connector)
    ensures
        connector_screen(configured) == (width, height),
        connector_login(configured) == connector_login(connector),
        connector_switches(configured) == connector_switches(connector),
;

/// `Connector::credentials`: the same configuration with the given domain,
/// username and password; display size and switches stay.
pub assume_specification[ rdp::core::client::Connector::credentials ](
    connector: rdp::core::client::Connector,
    domain: String,
    username: String,
    password: String,
) -> (configured: rdp::core::client::Connector)
    ensures
        connector_screen(configured) == connector_screen(connector),
        connector_login(configured) == (domain@, username@, password@),
        connector_switches(configured) == connector_switches(connector),
;

/// `Connector::set_restricted_admin_mode`: the same configuration with that
/// mode as given; everything else stays.
pub assume_specification[ rdp::core::client::Connector::set_restricted_admin_mode ](
    connector: rdp::core::client::Connector,
    state: bool,
) -> (configured: rdp::core::client::Connector)
    ensures
        connector_screen(configured) == connector_screen(connector),
        connector_login(configured) == connector_login(connector),
        connector_switches(configured) == (
            state,
            connector_switches(connector).1,
            connector_switches(connector).2,
        ),
;

/// `Connector::auto_logon`: the same configuration with automatic logon as
/// given; everything else stays.
pub assume_specification[ rdp::core::client::Connector::auto_logon ](
    connector: rdp::core::client::Connector,
    auto_logon: bool,
) -> (configured: rdp::core::client::Connector)
    ensures
        connector_screen(configured) == connector_screen(connector),
        connector_login(configured) == connector_login(connector),
        connector_switches(configured) == (
            connector_switches(connector).0,
            auto_logon,
            connector_switches(connector).2,
        ),
;

/// `Connector::check_certificate`: the same configuration with certificate
/// checking as given; everything else stays.
pub assume_specification[ rdp::core::client::Connector::check_certificate ](
    connector: rdp::core::client::Connector,
    check_certificate: bool,
) -> (configured: rdp::core::client::Connector)
    ensures
        connector_screen(configured) == connector_screen(connector),
        connector_login(configured) == connector_login(connector),
        connector_switches(configured) == (
            connector_switches(connector).0,
            connector_switches(connector).1,
            check_certificate,
        ),
;

/// Everything one handshake is given besides the open connection.
#[derive(Clone, Debug, PartialEq, Eq)]
pub struct HandshakeSettings {
    pub display_width: u16,
    pub display_height: u16,
    pub domain: String,
    pub username: String,
    pub password: String,
    pub restricted_admin_mode: bool,
    pub auto_logon: bool,
    pub verify_certificate: bool,
}

impl HandshakeSettings {
    /// The settings of every handshake of a run: the fixed display size, no
    /// domain, the run's credentials, and all three switches off.
    pub fn for_login(credentials: &Credentials) -> (s: HandshakeSettings)
        ensures
            s.display_width == DISPLAY_WIDTH,
            s.display_height == DISPLAY_HEIGHT,
            s.domain@ == Seq::<char>::empty(),
            s.username == credentials.username,
            s.password == credentials.password,
            !s.restricted_admin_mode,
            !s.auto_logon,
            !s.verify_certificate,
    {
        HandshakeSettings {
            display_width: DISPLAY_WIDTH,
            display_height: DISPLAY_HEIGHT,
            domain: String::new(),
            username: credentials.username.clone(),
            password: credentials.password.clone(),
            restricted_admin_mode: false,
            auto_logon: false,
            verify_certificate: false,
        }
    }

    /// The protocol client's configuration that holds exactly these
    /// settings: every one is handed to the call that takes it.
    pub fn into_connector(self) -> (connector: rdp::core::client::Connector)
        ensures
            connector_screen(connector) == (self.display_width, self.display_height),
            connector_login(connector) == (self.domain@, self.username@, self.password@),
            connector_switches(connector) == (
                self.restricted_admin_mode,
                self.auto_logon,
                self.verify_certificate,
            ),
    {
        rdp::core::client::Connector::new()
            .screen(self.display_width, self.display_height)
            .credentials(self.domain, self.username, self.password)
            .set_restricted_admin_mode(self.restricted_admin_mode)
            .auto_logon(self.auto_logon)
            .check_certificate(self.verify_certificate)
    }
}

} // verus!
