//! The audit data model: every notable interaction on one connection is
//! recorded as an `AuditLogAction`, and one `AuditLog` collects, in order of
//! occurrence, everything that happened on that connection.

use vstd::prelude::*;

verus! {

/// A password or public-key login attempt, recorded whether or not it was
/// accepted.
#[derive(Debug, Clone, PartialEq, Eq)]
pub enum LoginAttemptEvent {
    UsernamePassword { username: String, password: String },
    PublicKey { kind: String, fingerprint: String },
}

#[derive(Debug, Clone, PartialEq, Eq)]
pub struct ExecCommandEvent {
    pub args: Vec<String>,
}

#[derive(Debug, Clone, PartialEq, Eq)]
pub struct OpenX11Event {
    pub originator_address: String,
    pub originator_port: u32,
}

#[derive(Debug, Clone, PartialEq, Eq)]
pub struct OpenDirectTcpIpEvent {
    pub host_to_connect: String,
    pub port_to_connect: u32,
    pub originator_address: String,
    pub originator_port: u32,
}

#[derive(Debug, Clone, PartialEq, Eq)]
pub struct PtyRequestEvent {
    pub term: String,
    pub col_width: u32,
    pub row_height: u32,
    pub pix_width: u32,
    pub pix_height: u32,
    pub modes: Vec<(u8, u32)>,
}

#[derive(Debug, Clone, PartialEq, Eq)]
pub struct X11RequestEvent {
    pub single_connection: bool,
    pub x11_auth_protocol: String,
    pub x11_auth_cookie: String,
    pub x11_screen_number: u32,
}

#[derive(Debug, Clone, PartialEq, Eq)]
pub struct SubsystemRequestEvent {
    pub name: String,
}

#[derive(Debug, Clone, PartialEq, Eq)]
pub struct WindowChangeRequestEvent {
    pub col_width: u32,
    pub row_height: u32,
    pub pix_width: u32,
    pub pix_height: u32,
}

#[derive(Debug, Clone, PartialEq, Eq)]
pub struct WindowAdjustedEvent {
    pub new_size: usize,
}

#[derive(Debug, Clone, PartialEq, Eq)]
pub struct SignalEvent {
    pub name: String,
}

#[derive(Debug, Clone, PartialEq, Eq)]
pub struct TcpIpForwardEvent {
    pub address: String,
    pub port: u32,
}

/// One recorded interaction. Each variant is immutable once constructed.
#[derive(Debug, Clone, PartialEq, Eq)]
pub enum AuditLogAction {
    LoginAttempt(LoginAttemptEvent),
    ShellRequested,
    ExecCommand(ExecCommandEvent),
    OpenX11(OpenX11Event),
    OpenDirectTcpIp(OpenDirectTcpIpEvent),
    PtyRequest(PtyRequestEvent),
    X11Request(X11RequestEvent),
    SubsystemRequest(SubsystemRequestEvent),
    WindowChangeRequest(WindowChangeRequestEvent),
    WindowAdjusted(WindowAdjustedEvent),
    Signal(SignalEvent),
    TcpIpForward(TcpIpForwardEvent),
    CancelTcpIpForward(TcpIpForwardEvent),
}

/// The mathematical shape of one recorded action: the same variants as
/// `AuditLogAction`, with every string replaced by its character sequence.
pub enum ActionView {
    LoginUsernamePassword { username: Seq<char>, password: Seq<char> },
    LoginPublicKey { kind: Seq<char>, fingerprint: Seq<char> },
    ShellRequested,
    ExecCommand { args: Seq<Seq<char>> },
    OpenX11 { originator_address: Seq<char>, originator_port: u32 },
    OpenDirectTcpIp {
        host_to_connect: Seq<char>,
        port_to_connect: u32,
        originator_address: Seq<char>,
        originator_port: u32,
    },
    PtyRequest {
        term: Seq<char>,
        col_width: u32,
        row_height: u32,
        pix_width: u32,
        pix_height: u32,
        modes: Seq<(u8, u32)>,
    },
    X11Request {
        single_connection: bool,
        x11_auth_protocol: Seq<char>,
        x11_auth_cookie: Seq<char>,
        x11_screen_number: u32,
    },
    SubsystemRequest { name: Seq<char> },
    WindowChangeRequest { col_width: u32, row_height: u32, pix_width: u32, pix_height: u32 },
    WindowAdjusted { new_size: usize },
    Signal { name: Seq<char> },
    TcpIpForward { address: Seq<char>, port: u32 },
    CancelTcpIpForward { address: Seq<char>, port: u32 },
}

impl View for AuditLogAction {
    type V = ActionView;

    open spec fn view(&self) -> ActionView {
        match self {
            AuditLogAction::LoginAttempt(e) => match e {
                LoginAttemptEvent::UsernamePassword { username, password } =>
                    ActionView::LoginUsernamePassword {
                        username: username@,
                        password: password@,
                    },
                LoginAttemptEvent::PublicKey { kind, fingerprint } =>
                    ActionView::LoginPublicKey { kind: kind@, fingerprint: fingerprint@ },
            },
            AuditLogAction::ShellRequested => ActionView::ShellRequested,
            AuditLogAction::ExecCommand(e) => ActionView::ExecCommand { args: e.args.deep_view() },
            AuditLogAction::OpenX11(e) => ActionView::OpenX11 {
                originator_address: e.originator_address@,
                originator_port: e.originator_port,
            },
            AuditLogAction::OpenDirectTcpIp(e) => ActionView::OpenDirectTcpIp {
                host_to_connect: e.host_to_connect@,
                port_to_connect: e.port_to_connect,
                originator_address: e.originator_address@,
                originator_port: e.originator_port,
            },
            AuditLogAction::PtyRequest(e) => ActionView::PtyRequest {
                term: e.term@,
                col_width: e.col_width,
                row_height: e.row_height,
                pix_width: e.pix_width,
                pix_height: e.pix_height,
                modes: e.modes@,
            },
            AuditLogAction::X11Request(e) => ActionView::X11Request {
                single_connection: e.single_connection,
                x11_auth_protocol: e.x11_auth_protocol@,
                x11_auth_cookie: e.x11_auth_cookie@,
                x11_screen_number: e.x11_screen_number,
            },
            AuditLogAction::SubsystemRequest(e) => ActionView::SubsystemRequest { name: e.name@ },
            AuditLogAction::WindowChangeRequest(e) => ActionView::WindowChangeRequest {
                col_width: e.col_width,
                row_height: e.row_height,
                pix_width: e.pix_width,
                pix_height: e.pix_height,
            },
            AuditLogAction::WindowAdjusted(e) => ActionView::WindowAdjusted { new_size: e.new_size },
            AuditLogAction::Signal(e) => ActionView::Signal { name: e.name@ },
            AuditLogAction::TcpIpForward(e) => ActionView::TcpIpForward {
                address: e.address@,
                port: e.port,
            },
            AuditLogAction::CancelTcpIpForward(e) => ActionView::CancelTcpIpForward {
                address: e.address@,
                port: e.port,
            },
        }
    }
}

impl DeepView for AuditLogAction {
    type V = ActionView;

    open spec fn deep_view(&self) -> ActionView {
        self.view()
    }
}

/// The complete, ordered log of one connection's notable interactions.
/// Actions appear in the order they occurred; environment variable pairs
/// appear in the order they were submitted.
#[derive(Debug, Clone, PartialEq, Eq)]
pub struct AuditLog {
    pub connection_id: u128,
    pub peer_address: Option<String>,
    pub actions: Vec<AuditLogAction>,
    pub environment_variables: Vec<(String, String)>,
}

/// The mathematical shape of one audit log.
pub struct AuditLogView {
    pub connection_id: u128,
    pub peer_address: Option<Seq<char>>,
    pub actions: Seq<ActionView>,
    pub environment_variables: Seq<(Seq<char>, Seq<char>)>,
}

impl View for AuditLog {
    type V = AuditLogView;

    open spec fn view(&self) -> AuditLogView {
        AuditLogView {
            connection_id: self.connection_id,
            peer_address: match self.peer_address {
                Some(a) => Some(a@),
                None => None,
            },
            actions: self.actions.deep_view(),
            environment_variables: self.environment_variables@.map_values(
                |p: (String, String)| (p.0@, p.1@),
            ),
        }
    }
}

impl DeepView for AuditLog {
    type V = AuditLogView;

    open spec fn deep_view(&self) -> AuditLogView {
        self.view()
    }
}

impl AuditLog {
    /// A fresh, empty log for a newly accepted connection.
    pub fn new(connection_id: u128, peer_address: Option<String>) -> (log: AuditLog)
        ensures
            log@.connection_id == connection_id,
            log@.peer_address == match peer_address {
                Some(a) => Some::<Seq<char>>(a@),
                None => None::<Seq<char>>,
            },
            log@.actions == Seq::<ActionView>::empty(),
            log@.environment_variables == Seq::<(Seq<char>, Seq<char>)>::empty(),
    {
        let log = AuditLog {
            connection_id,
            peer_address,
            actions: Vec::new(),
            environment_variables: Vec::new(),
        };
        proof {
            assert(log@.actions =~= Seq::<ActionView>::empty());
            assert(log@.environment_variables =~= Seq::<(Seq<char>, Seq<char>)>::empty());
        }
        log
    }

    /// Appends one action; nothing already recorded moves or changes.
    pub fn push_action(&mut self, action: AuditLogAction)
        ensures
            final(self)@.actions == old(self)@.actions.push(action@),
            final(self)@.connection_id == old(self)@.connection_id,
            final(self)@.peer_address == old(self)@.peer_address,
            final(self)@.environment_variables == old(self)@.environment_variables,
    {
        self.actions.push(action);
        proof {
            assert(self@.actions =~= old(self)@.actions.push(self.actions@.last()@));
        }
    }

    /// Appends one environment variable pair; nothing already recorded moves
    /// or changes.
    pub fn push_environment_variable(&mut self, name: String, value: String)
        ensures
            final(self)@.environment_variables
                == old(self)@.environment_variables.push((name@, value@)),
            final(self)@.connection_id == old(self)@.connection_id,
            final(self)@.peer_address == old(self)@.peer_address,
            final(self)@.actions == old(self)@.actions,
    {
        let ghost n = name@;
        let ghost v = value@;
        self.environment_variables.push((name, value));
        proof {
            assert(self@.environment_variables
                =~= old(self)@.environment_variables.push((n, v)));
        }
    }
}

} // verus!
