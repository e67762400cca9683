//! The per-connection session controller: it turns decoded protocol events
//! into policy decisions, emulator invocations and audit actions, and hands
//! the finished audit log to the pipeline exactly once when the connection
//! closes.

use vstd::prelude::*;
use vstd::string::StringExecFns;
use crate::audit::{
    ActionView, AuditLog, AuditLogAction, AuditLogView, ExecCommandEvent, LoginAttemptEvent,
    OpenDirectTcpIpEvent, OpenX11Event, PtyRequestEvent, SignalEvent, SubsystemRequestEvent,
    TcpIpForwardEvent, WindowAdjustedEvent, WindowChangeRequestEvent, X11RequestEvent,
};
use crate::pipeline::AuditPipeline;
use crate::policy::AcceptancePolicy;

verus! {

/// What a byte string decodes to under lossy UTF-8 decoding: a function of
/// the bytes alone.
pub uninterp spec fn decoded_lossy(bytes: Seq<u8>) -> Seq<char>;

/// What POSIX-shell word splitting makes of a command line, or `None` when
/// the line cannot be parsed: a function of the line alone.
pub uninterp spec fn shell_tokens(line: Seq<char>) -> Option<Seq<Seq<char>>>;

/// The argument vector a raw exec payload parses to, if it parses.
pub open spec fn parsed_command(bytes: Seq<u8>) -> Option<Seq<Seq<char>>> {
    shell_tokens(decoded_lossy(bytes))
}

/// Relies on `String::from_utf8_lossy`: the result depends on the bytes
/// alone.
#[verifier::external_body]
fn decode_lossy(bytes: &[u8]) -> (line: String)
    ensures
        line@ == decoded_lossy(bytes@),
{
    String::from_utf8_lossy(bytes).into_owned()
}

/// Relies on `shlex::split`: shell-style word splitting, a function of the
/// line alone, `None` exactly on lines it reports as erroneous.
#[verifier::external_body]
fn split_words(line: &str) -> (words: Option<Vec<String>>)
    ensures
        match words {
            Some(w) => shell_tokens(line@) == Some(w.deep_view()),
            None => shell_tokens(line@) is None,
        },
{
    shlex::split(line)
}

/// Relies on `uuid::Uuid::new_v4` for a random 128-bit connection
/// identifier; nothing is promised of the value drawn.
#[verifier::external_body]
fn fresh_connection_id() -> u128 {
    uuid::Uuid::new_v4().as_u128()
}

/// The fixed prompt the fabricated shell presents.
pub fn shell_prompt() -> (prompt: String)
    ensures
        prompt@ == "bash-5.1$ "@,
{
    String::from_str("bash-5.1$ ")
}

/// The answer handed back to the transport engine for an authentication
/// attempt.
#[derive(Debug, Clone, Copy, PartialEq, Eq)]
pub enum AuthOutcome {
    /// Let the attacker in.
    Accept,
    /// Offer a secondary password prompt instead of terminating.
    PartialPrompt,
    Reject,
    UnsupportedMethod,
}

/// Where a connection stands in its life cycle. Channel-scoped requests are
/// independent of each other, so the phase constrains nothing; it is kept
/// for observability.
#[derive(Debug, Clone, Copy, PartialEq, Eq, Structural)]
pub enum Phase {
    Connected,
    Authenticating,
    Authenticated,
    Closed,
}

/// What the controller asks its caller to do in answer to one event.
#[derive(Debug, Clone, PartialEq, Eq)]
pub enum Reply {
    Auth(AuthOutcome),
    ChannelSuccess,
    ChannelFailure,
    /// Refuse a port-forwarding request.
    ForwardRefused,
    /// Answer nothing.
    Quiet,
    /// Confirm the channel, then present the shell prompt.
    ShellStarted,
    /// Run the command emulator on `args`, write its output back, then
    /// confirm the channel.
    RunExec { args: Vec<String> },
    /// Free-form shell input: run the emulator when a command parsed, then
    /// present the prompt again either way.
    RunShellLine { args: Option<Vec<String>> },
}

/// How one attempt to finalize the connection ended.
#[derive(Debug, Clone, Copy, PartialEq, Eq)]
pub enum CloseOutcome {
    /// The audit log was handed to the pipeline.
    Submitted,
    /// A previous call already finalized this connection; nothing happened.
    AlreadyFinalized,
    /// Pipeline intake had closed for shutdown; the log was dropped.
    DroppedAtShutdown,
}

/// One decoded protocol event, as the transport engine delivers it.
#[derive(Debug, Clone, PartialEq, Eq)]
pub enum Event {
    AuthPassword { user: String, password: String },
    AuthPublicKey { kind: String, fingerprint: String },
    AuthKeyboardInteractive,
    AuthNone,
    ChannelOpenSession,
    ChannelOpenX11 { originator_address: String, originator_port: u32 },
    ChannelOpenDirectTcpIp {
        host_to_connect: String,
        port_to_connect: u32,
        originator_address: String,
        originator_port: u32,
    },
    ChannelClose,
    ChannelEof,
    Data { data: Vec<u8> },
    ExtendedData,
    WindowAdjusted { new_size: usize },
    PtyRequest {
        term: String,
        col_width: u32,
        row_height: u32,
        pix_width: u32,
        pix_height: u32,
        modes: Vec<(u8, u32)>,
    },
    X11Request {
        single_connection: bool,
        x11_auth_protocol: String,
        x11_auth_cookie: String,
        x11_screen_number: u32,
    },
    EnvRequest { variable_name: String, variable_value: String },
    ShellRequest,
    ExecRequest { data: Vec<u8> },
    SubsystemRequest { name: String },
    WindowChangeRequest { col_width: u32, row_height: u32, pix_width: u32, pix_height: u32 },
    Signal { name: String },
    TcpIpForward { address: String, port: u32 },
    CancelTcpIpForward { address: String, port: u32 },
}

/// The audit actions one event leaves in the log: at most one, and the same
/// whatever the policy or the emulator decides.
pub open spec fn actions_of_event(ev: Event) -> Seq<ActionView> {
    match ev {
        Event::AuthPassword { user, password } => seq![
            ActionView::LoginUsernamePassword { username: user@, password: password@ },
        ],
        Event::AuthPublicKey { kind, fingerprint } => seq![
            ActionView::LoginPublicKey { kind: kind@, fingerprint: fingerprint@ },
        ],
        Event::AuthKeyboardInteractive => seq![],
        Event::AuthNone => seq![],
        Event::ChannelOpenSession => seq![],
        Event::ChannelOpenX11 { originator_address, originator_port } => seq![
            ActionView::OpenX11 {
                originator_address: originator_address@,
                originator_port,
            },
        ],
        Event::ChannelOpenDirectTcpIp {
            host_to_connect,
            port_to_connect,
            originator_address,
            originator_port,
        } => seq![
            ActionView::OpenDirectTcpIp {
                host_to_connect: host_to_connect@,
                port_to_connect,
                originator_address: originator_address@,
                originator_port,
            },
        ],
        Event::ChannelClose => seq![],
        Event::ChannelEof => seq![],
        Event::Data { data } => match parsed_command(data@) {
            Some(args) => seq![ActionView::ExecCommand { args }],
            None => seq![],
        },
        Event::ExtendedData => seq![],
        Event::WindowAdjusted { new_size } => seq![ActionView::WindowAdjusted { new_size }],
        Event::PtyRequest { term, col_width, row_height, pix_width, pix_height, modes } => seq![
            ActionView::PtyRequest {
                term: term@,
                col_width,
                row_height,
                pix_width,
                pix_height,
                modes: modes@,
            },
        ],
        Event::X11Request {
            single_connection,
            x11_auth_protocol,
            x11_auth_cookie,
            x11_screen_number,
        } => seq![
            ActionView::X11Request {
                single_connection,
                x11_auth_protocol: x11_auth_protocol@,
                x11_auth_cookie: x11_auth_cookie@,
                x11_screen_number,
            },
        ],
        Event::EnvRequest { .. } => seq![],
        Event::ShellRequest => seq![ActionView::ShellRequested],
        Event::ExecRequest { data } => match parsed_command(data@) {
            Some(args) => seq![ActionView::ExecCommand { args }],
            None => seq![],
        },
        Event::SubsystemRequest { name } => seq![ActionView::SubsystemRequest { name: name@ }],
        Event::WindowChangeRequest { col_width, row_height, pix_width, pix_height } => seq![
            ActionView::WindowChangeRequest { col_width, row_height, pix_width, pix_height },
        ],
        Event::Signal { name } => seq![ActionView::Signal { name: name@ }],
        Event::TcpIpForward { address, port } => seq![
            ActionView::TcpIpForward { address: address@, port },
        ],
        Event::CancelTcpIpForward { address, port } => seq![
            ActionView::CancelTcpIpForward { address: address@, port },
        ],
    }
}

/// The environment pairs one event stores on the record.
pub open spec fn env_of_event(ev: Event) -> Seq<(Seq<char>, Seq<char>)> {
    match ev {
        Event::EnvRequest { variable_name, variable_value } => seq![
            (variable_name@, variable_value@),
        ],
        _ => seq![],
    }
}

/// The log grew by exactly `action`, and nothing else about it changed.
pub open spec fn log_records(pre: AuditLogView, post: AuditLogView, action: ActionView) -> bool {
    &&& post.connection_id == pre.connection_id
    &&& post.peer_address == pre.peer_address
    &&& post.actions == pre.actions.push(action)
    &&& post.environment_variables == pre.environment_variables
}

/// The per-connection controller: one per accepted connection, owner of that
/// connection's audit log until finalization.
pub struct Connection {
    record: AuditLog,
    finalized: bool,
    phase: Phase,
}

impl Connection {
    /// The audit log accumulated so far.
    pub closed spec fn log(self) -> AuditLogView {
        self.record@
    }

    /// Whether the log was already handed over (or dropped at shutdown).
    pub closed spec fn is_finalized(self) -> bool {
        self.finalized
    }

    /// Where the connection stands in its life cycle.
    pub closed spec fn phase(self) -> Phase {
        self.phase
    }

    /// A controller for a newly accepted connection: empty log, not
    /// finalized.
    pub fn new(connection_id: u128, peer_address: Option<String>) -> (conn: Connection)
        ensures
            conn.log().connection_id == connection_id,
            conn.log().peer_address == match peer_address {
                Some(a) => Some::<Seq<char>>(a@),
                None => None::<Seq<char>>,
            },
            conn.log().actions == Seq::<ActionView>::empty(),
            conn.log().environment_variables == Seq::<(Seq<char>, Seq<char>)>::empty(),
            !conn.is_finalized(),
            conn.phase() == Phase::Connected,
    {
        Connection {
            record: AuditLog::new(connection_id, peer_address),
            finalized: false,
            phase: Phase::Connected,
        }
    }

    /// A view of the accumulated log, for the caller that serializes it.
    pub fn audit_log(&self) -> (record: &AuditLog)
        ensures
            record@ == self.log(),
    {
        &self.record
    }

    /// Where the connection stands in its life cycle.
    pub fn current_phase(&self) -> (phase: Phase)
        ensures
            phase == self.phase(),
    {
        self.phase
    }

    /// Whether the log was already handed over.
    pub fn finished(&self) -> (finalized: bool)
        ensures
            finalized == self.is_finalized(),
    {
        self.finalized
    }

    /// Records one password login attempt — accepted or not — and answers
    /// with the policy's decision.
    pub fn try_login(
        &mut self,
        user: &str,
        password: &str,
        policy: &mut AcceptancePolicy,
    ) -> (accepted: bool)
        requires
            old(policy).wf(),
        ensures
            final(policy).wf(),
            final(policy).threshold() == old(policy).threshold(),
            log_records(
                old(self).log(),
                final(self).log(),
                ActionView::LoginUsernamePassword { username: user@, password: password@ },
            ),
            final(self).is_finalized() == old(self).is_finalized(),
            final(self).phase() == old(self).phase(),
            old(policy).credentials().contains(password@) ==> accepted,
            accepted ==> final(policy).credentials().contains(password@),
            !accepted ==> final(policy).credentials() == old(policy).credentials(),
            crate::policy::credentials_monotonic(*old(policy), *final(policy)),
            forall|q: Seq<char>|
                final(policy).credentials().contains(q)
                    ==> old(policy).credentials().contains(q) || q == password@,
            old(policy).threshold() == 0 && !old(policy).credentials().contains(password@)
                ==> !accepted,
            old(policy).threshold() == crate::policy::DRAW_BOUND ==> accepted,
    {
        let accepted = policy.decide(password);
        self.record.push_action(AuditLogAction::LoginAttempt(
            LoginAttemptEvent::UsernamePassword {
                username: user.to_owned(),
                password: password.to_owned(),
            },
        ));
        accepted
    }

    /// A password authentication attempt: always recorded; accepted exactly
    /// when the policy accepts, and otherwise answered with a secondary
    /// prompt so the attacker stays engaged.
    pub fn auth_password(
        &mut self,
        user: &str,
        password: &str,
        policy: &mut AcceptancePolicy,
    ) -> (outcome: AuthOutcome)
        requires
            old(policy).wf(),
        ensures
            final(policy).wf(),
            final(policy).threshold() == old(policy).threshold(),
            log_records(
                old(self).log(),
                final(self).log(),
                ActionView::LoginUsernamePassword { username: user@, password: password@ },
            ),
            final(self).is_finalized() == old(self).is_finalized(),
            outcome == AuthOutcome::Accept || outcome == AuthOutcome::PartialPrompt,
            outcome == AuthOutcome::Accept
                ==> final(policy).credentials().contains(password@)
                    && final(self).phase() == Phase::Authenticated,
            outcome == AuthOutcome::PartialPrompt
                ==> final(policy).credentials() == old(policy).credentials()
                    && final(self).phase() == Phase::Authenticating,
            old(policy).credentials().contains(password@) ==> outcome == AuthOutcome::Accept,
            crate::policy::credentials_monotonic(*old(policy), *final(policy)),
            forall|q: Seq<char>|
                final(policy).credentials().contains(q)
                    ==> old(policy).credentials().contains(q) || q == password@,
            old(policy).threshold() == 0 && !old(policy).credentials().contains(password@)
                ==> outcome == AuthOutcome::PartialPrompt,
            old(policy).threshold() == crate::policy::DRAW_BOUND
                ==> outcome == AuthOutcome::Accept,
    {
        if self.try_login(user, password, policy) {
            self.phase = Phase::Authenticated;
            AuthOutcome::Accept
        } else {
            self.phase = Phase::Authenticating;
            AuthOutcome::PartialPrompt
        }
    }

    /// Public-key authentication is rejected for every key, but the attempt
    /// is still recorded with the key's algorithm name and fingerprint.
    pub fn auth_publickey(&mut self, kind: &str, fingerprint: &str) -> (outcome: AuthOutcome)
        ensures
            outcome == AuthOutcome::Reject,
            log_records(
                old(self).log(),
                final(self).log(),
                ActionView::LoginPublicKey { kind: kind@, fingerprint: fingerprint@ },
            ),
            final(self).is_finalized() == old(self).is_finalized(),
            final(self).phase() == Phase::Authenticating,
    {
        self.record.push_action(AuditLogAction::LoginAttempt(LoginAttemptEvent::PublicKey {
            kind: kind.to_owned(),
            fingerprint: fingerprint.to_owned(),
        }));
        self.phase = Phase::Authenticating;
        AuthOutcome::Reject
    }

    /// Keyboard-interactive authentication is not functional and resolves to
    /// a rejection; nothing is recorded.
    pub fn auth_keyboard_interactive(&mut self) -> (outcome: AuthOutcome)
        ensures
            outcome == AuthOutcome::Reject,
            final(self).log() == old(self).log(),
            final(self).is_finalized() == old(self).is_finalized(),
            final(self).phase() == Phase::Authenticating,
    {
        self.phase = Phase::Authenticating;
        AuthOutcome::Reject
    }

    /// Anonymous authentication is not offered.
    pub fn auth_none(&mut self) -> (outcome: AuthOutcome)
        ensures
            outcome == AuthOutcome::UnsupportedMethod,
            final(self).log() == old(self).log(),
            final(self).is_finalized() == old(self).is_finalized(),
            final(self).phase() == Phase::Authenticating,
    {
        self.phase = Phase::Authenticating;
        AuthOutcome::UnsupportedMethod
    }

    /// A plain interactive session channel is the one kind that is accepted.
    pub fn channel_open_session(&mut self) -> (r: Reply)
        ensures
            r == Reply::ChannelSuccess,
            final(self).log() == old(self).log(),
            final(self).is_finalized() == old(self).is_finalized(),
            final(self).phase() == old(self).phase(),
    {
        Reply::ChannelSuccess
    }

    /// An X11 channel is always refused, and the attempted originator is
    /// recorded.
    pub fn channel_open_x11(
        &mut self,
        originator_address: &str,
        originator_port: u32,
    ) -> (r: Reply)
        ensures
            r == Reply::ChannelFailure,
            log_records(
                old(self).log(),
                final(self).log(),
                ActionView::OpenX11 { originator_address: originator_address@, originator_port },
            ),
            final(self).is_finalized() == old(self).is_finalized(),
            final(self).phase() == old(self).phase(),
    {
        self.record.push_action(AuditLogAction::OpenX11(OpenX11Event {
            originator_address: originator_address.to_owned(),
            originator_port,
        }));
        Reply::ChannelFailure
    }

    /// A direct-tcpip channel is always refused, and the attempted endpoints
    /// are recorded.
    pub fn channel_open_direct_tcpip(
        &mut self,
        host_to_connect: &str,
        port_to_connect: u32,
        originator_address: &str,
        originator_port: u32,
    ) -> (r: Reply)
        ensures
            r == Reply::ChannelFailure,
            log_records(
                old(self).log(),
                final(self).log(),
                ActionView::OpenDirectTcpIp {
                    host_to_connect: host_to_connect@,
                    port_to_connect,
                    originator_address: originator_address@,
                    originator_port,
                },
            ),
            final(self).is_finalized() == old(self).is_finalized(),
            final(self).phase() == old(self).phase(),
    {
        self.record.push_action(AuditLogAction::OpenDirectTcpIp(OpenDirectTcpIpEvent {
            host_to_connect: host_to_connect.to_owned(),
            port_to_connect,
            originator_address: originator_address.to_owned(),
            originator_port,
        }));
        Reply::ChannelFailure
    }

    /// Closing a channel is confirmed and leaves no trace of its own.
    pub fn channel_close(&mut self) -> (r: Reply)
        ensures
            r == Reply::ChannelSuccess,
            final(self).log() == old(self).log(),
            final(self).is_finalized() == old(self).is_finalized(),
            final(self).phase() == old(self).phase(),
    {
        Reply::ChannelSuccess
    }

    /// End-of-file on a channel is confirmed and leaves no trace of its own.
    pub fn channel_eof(&mut self) -> (r: Reply)
        ensures
            r == Reply::ChannelSuccess,
            final(self).log() == old(self).log(),
            final(self).is_finalized() == old(self).is_finalized(),
            final(self).phase() == old(self).phase(),
    {
        Reply::ChannelSuccess
    }

    /// Free-form input on the fabricated shell: when it parses as a command
    /// line, the command is recorded and handed to the emulator; the prompt
    /// is presented again either way.
    pub fn data(&mut self, data: &[u8]) -> (r: Reply)
        ensures
            final(self).is_finalized() == old(self).is_finalized(),
            final(self).phase() == old(self).phase(),
            final(self).log().connection_id == old(self).log().connection_id,
            final(self).log().peer_address == old(self).log().peer_address,
            final(self).log().environment_variables == old(self).log().environment_variables,
            match parsed_command(data@) {
                Some(args) => {
                    &&& final(self).log().actions
                        == old(self).log().actions.push(ActionView::ExecCommand { args })
                    &&& (r matches Reply::RunShellLine { args: ra }
                        && ra matches Some(v) && v.deep_view() == args)
                },
                None => {
                    &&& final(self).log().actions == old(self).log().actions
                    &&& r == (Reply::RunShellLine { args: None })
                },
            },
    {
        let line = decode_lossy(data);
        match split_words(line.as_str()) {
            Some(args) => {
                let recorded = args.clone();
                proof {
                    assert(recorded.deep_view() =~= args.deep_view());
                }
                self.record.push_action(AuditLogAction::ExecCommand(ExecCommandEvent {
                    args: recorded,
                }));
                Reply::RunShellLine { args: Some(args) }
            },
            None => Reply::RunShellLine { args: None },
        }
    }

    /// An exec request: the raw payload is shell-token-split; a payload that
    /// parses is recorded and handed to the emulator with the channel
    /// confirmed, one that does not parse fails the request without
    /// invoking the emulator.
    pub fn exec_request(&mut self, data: &[u8]) -> (r: Reply)
        ensures
            final(self).is_finalized() == old(self).is_finalized(),
            final(self).phase() == old(self).phase(),
            final(self).log().connection_id == old(self).log().connection_id,
            final(self).log().peer_address == old(self).log().peer_address,
            final(self).log().environment_variables == old(self).log().environment_variables,
            match parsed_command(data@) {
                Some(args) => {
                    &&& final(self).log().actions
                        == old(self).log().actions.push(ActionView::ExecCommand { args })
                    &&& (r matches Reply::RunExec { args: ra } && ra.deep_view() == args)
                },
                None => {
                    &&& final(self).log().actions == old(self).log().actions
                    &&& r == Reply::ChannelFailure
                },
            },
    {
        let line = decode_lossy(data);
        match split_words(line.as_str()) {
            Some(args) => {
                let recorded = args.clone();
                proof {
                    assert(recorded.deep_view() =~= args.deep_view());
                }
                self.record.push_action(AuditLogAction::ExecCommand(ExecCommandEvent {
                    args: recorded,
                }));
                Reply::RunExec { args }
            },
            None => Reply::ChannelFailure,
        }
    }

    /// A shell request is recorded and confirmed, and the prompt presented.
    pub fn shell_request(&mut self) -> (r: Reply)
        ensures
            r == Reply::ShellStarted,
            log_records(old(self).log(), final(self).log(), ActionView::ShellRequested),
            final(self).is_finalized() == old(self).is_finalized(),
            final(self).phase() == old(self).phase(),
    {
        self.record.push_action(AuditLogAction::ShellRequested);
        Reply::ShellStarted
    }

    /// A window adjustment is recorded; the size passes through unchanged,
    /// so no response is owed.
    pub fn window_adjusted(&mut self, new_window_size: usize) -> (r: Reply)
        ensures
            r == Reply::Quiet,
            log_records(
                old(self).log(),
                final(self).log(),
                ActionView::WindowAdjusted { new_size: new_window_size },
            ),
            final(self).is_finalized() == old(self).is_finalized(),
            final(self).phase() == old(self).phase(),
    {
        self.record.push_action(AuditLogAction::WindowAdjusted(WindowAdjustedEvent {
            new_size: new_window_size,
        }));
        Reply::Quiet
    }

    /// The channel carries fabricated data, so no real flow-control
    /// accounting is needed: the current window size is kept as it is.
    pub fn adjust_window(&mut self, current: u32) -> (next: u32)
        ensures
            next == current,
            final(self).log() == old(self).log(),
            final(self).is_finalized() == old(self).is_finalized(),
            final(self).phase() == old(self).phase(),
    {
        current
    }

    /// A pty would need real OS resources: the request is recorded, with
    /// its terminal name, dimensions and encoded modes, and refused.
    pub fn pty_request(
        &mut self,
        term: &str,
        col_width: u32,
        row_height: u32,
        pix_width: u32,
        pix_height: u32,
        modes: &[(u8, u32)],
    ) -> (r: Reply)
        ensures
            r == Reply::ChannelFailure,
            log_records(
                old(self).log(),
                final(self).log(),
                ActionView::PtyRequest {
                    term: term@,
                    col_width,
                    row_height,
                    pix_width,
                    pix_height,
                    modes: modes@,
                },
            ),
            final(self).is_finalized() == old(self).is_finalized(),
            final(self).phase() == old(self).phase(),
    {
        let mut owned_modes: Vec<(u8, u32)> = Vec::new();
        let mut i: usize = 0;
        while i < modes.len()
            invariant
                0 <= i <= modes@.len(),
                owned_modes@ == modes@.subrange(0, i as int),
            decreases modes@.len() - i,
        {
            owned_modes.push(modes[i]);
            proof {
                assert(owned_modes@ =~= modes@.subrange(0, i + 1));
            }
            i = i + 1;
        }
        proof {
            assert(owned_modes@ =~= modes@);
        }
        self.record.push_action(AuditLogAction::PtyRequest(PtyRequestEvent {
            term: term.to_owned(),
            col_width,
            row_height,
            pix_width,
            pix_height,
            modes: owned_modes,
        }));
        Reply::ChannelFailure
    }

    /// X11 forwarding would need real OS resources: the request is recorded
    /// and refused.
    pub fn x11_request(
        &mut self,
        single_connection: bool,
        x11_auth_protocol: &str,
        x11_auth_cookie: &str,
        x11_screen_number: u32,
    ) -> (r: Reply)
        ensures
            r == Reply::ChannelFailure,
            log_records(
                old(self).log(),
                final(self).log(),
                ActionView::X11Request {
                    single_connection,
                    x11_auth_protocol: x11_auth_protocol@,
                    x11_auth_cookie: x11_auth_cookie@,
                    x11_screen_number,
                },
            ),
            final(self).is_finalized() == old(self).is_finalized(),
            final(self).phase() == old(self).phase(),
    {
        self.record.push_action(AuditLogAction::X11Request(X11RequestEvent {
            single_connection,
            x11_auth_protocol: x11_auth_protocol.to_owned(),
            x11_auth_cookie: x11_auth_cookie.to_owned(),
            x11_screen_number,
        }));
        Reply::ChannelFailure
    }

    /// An environment variable is stored on the record — never applied to
    /// any real process — and the request confirmed.
    pub fn env_request(&mut self, variable_name: &str, variable_value: &str) -> (r: Reply)
        ensures
            r == Reply::ChannelSuccess,
            final(self).log().connection_id == old(self).log().connection_id,
            final(self).log().peer_address == old(self).log().peer_address,
            final(self).log().actions == old(self).log().actions,
            final(self).log().environment_variables
                == old(self).log().environment_variables.push((
                variable_name@,
                variable_value@,
            )),
            final(self).is_finalized() == old(self).is_finalized(),
            final(self).phase() == old(self).phase(),
    {
        self.record.push_environment_variable(
            variable_name.to_owned(),
            variable_value.to_owned(),
        );
        Reply::ChannelSuccess
    }

    /// A subsystem would need real OS resources: the request is recorded
    /// and refused.
    pub fn subsystem_request(&mut self, name: &str) -> (r: Reply)
        ensures
            r == Reply::ChannelFailure,
            log_records(
                old(self).log(),
                final(self).log(),
                ActionView::SubsystemRequest { name: name@ },
            ),
            final(self).is_finalized() == old(self).is_finalized(),
            final(self).phase() == old(self).phase(),
    {
        self.record.push_action(AuditLogAction::SubsystemRequest(SubsystemRequestEvent {
            name: name.to_owned(),
        }));
        Reply::ChannelFailure
    }

    /// A window change is benign: recorded and confirmed.
    pub fn window_change_request(
        &mut self,
        col_width: u32,
        row_height: u32,
        pix_width: u32,
        pix_height: u32,
    ) -> (r: Reply)
        ensures
            r == Reply::ChannelSuccess,
            log_records(
                old(self).log(),
                final(self).log(),
                ActionView::WindowChangeRequest { col_width, row_height, pix_width, pix_height },
            ),
            final(self).is_finalized() == old(self).is_finalized(),
            final(self).phase() == old(self).phase(),
    {
        self.record.push_action(AuditLogAction::WindowChangeRequest(
            WindowChangeRequestEvent { col_width, row_height, pix_width, pix_height },
        ));
        Reply::ChannelSuccess
    }

    /// A signal is recorded; per SSH semantics no response is owed.
    pub fn signal(&mut self, name: &str) -> (r: Reply)
        ensures
            r == Reply::Quiet,
            log_records(old(self).log(), final(self).log(), ActionView::Signal { name: name@ }),
            final(self).is_finalized() == old(self).is_finalized(),
            final(self).phase() == old(self).phase(),
    {
        self.record.push_action(AuditLogAction::Signal(SignalEvent { name: name.to_owned() }));
        Reply::Quiet
    }

    /// Port forwarding is recorded and refused: the honeypot opens no real
    /// listeners.
    pub fn tcpip_forward(&mut self, address: &str, port: u32) -> (r: Reply)
        ensures
            r == Reply::ForwardRefused,
            log_records(
                old(self).log(),
                final(self).log(),
                ActionView::TcpIpForward { address: address@, port },
            ),
            final(self).is_finalized() == old(self).is_finalized(),
            final(self).phase() == old(self).phase(),
    {
        self.record.push_action(AuditLogAction::TcpIpForward(TcpIpForwardEvent {
            address: address.to_owned(),
            port,
        }));
        Reply::ForwardRefused
    }

    /// Cancelling a forward is likewise recorded and refused.
    pub fn cancel_tcpip_forward(&mut self, address: &str, port: u32) -> (r: Reply)
        ensures
            r == Reply::ForwardRefused,
            log_records(
                old(self).log(),
                final(self).log(),
                ActionView::CancelTcpIpForward { address: address@, port },
            ),
            final(self).is_finalized() == old(self).is_finalized(),
            final(self).phase() == old(self).phase(),
    {
        self.record.push_action(AuditLogAction::CancelTcpIpForward(TcpIpForwardEvent {
            address: address.to_owned(),
            port,
        }));
        Reply::ForwardRefused
    }

    /// Finalizes the connection: the accumulated log is handed to the
    /// pipeline, exactly once however often this is invoked — an explicit
    /// close and an implicit cleanup may both call it. After intake has
    /// closed for shutdown the log is dropped instead (the documented loss
    /// window).
    pub fn close(&mut self, pipeline: &mut AuditPipeline) -> (outcome: CloseOutcome)
        ensures
            final(self).is_finalized(),
            old(self).is_finalized() ==> {
                &&& outcome == CloseOutcome::AlreadyFinalized
                &&& *final(self) == *old(self)
                &&& *final(pipeline) == *old(pipeline)
            },
            !old(self).is_finalized() ==> {
                &&& final(self).phase() == Phase::Closed
                &&& final(self).log().connection_id == old(self).log().connection_id
                &&& final(self).log().actions == Seq::<ActionView>::empty()
                &&& final(self).log().environment_variables
                    == Seq::<(Seq<char>, Seq<char>)>::empty()
            },
            !old(self).is_finalized() && old(pipeline).is_open() ==> {
                &&& outcome == CloseOutcome::Submitted
                &&& final(pipeline).pending_logs()
                    == old(pipeline).pending_logs().push(old(self).log())
            },
            !old(self).is_finalized() && !old(pipeline).is_open() ==> {
                &&& outcome == CloseOutcome::DroppedAtShutdown
                &&& final(pipeline).pending_logs() == old(pipeline).pending_logs()
            },
            final(pipeline).is_open() == old(pipeline).is_open(),
            final(pipeline).persisted_logs() == old(pipeline).persisted_logs(),
    {
        if self.finalized {
            return CloseOutcome::AlreadyFinalized;
        }
        self.finalized = true;
        self.phase = Phase::Closed;
        let mut handed: AuditLog = AuditLog::new(self.record.connection_id, None);
        core::mem::swap(&mut self.record, &mut handed);
        if pipeline.enqueue(handed) {
            CloseOutcome::Submitted
        } else {
            CloseOutcome::DroppedAtShutdown
        }
    }

    /// Data on an extended stream is ignored.
    pub fn extended_data(&mut self) -> (r: Reply)
        ensures
            r == Reply::Quiet,
            final(self).log() == old(self).log(),
            final(self).is_finalized() == old(self).is_finalized(),
            final(self).phase() == old(self).phase(),
    {
        Reply::Quiet
    }

    /// One entry point for every protocol event: dispatches to the handler
    /// for the event's kind. The log grows by exactly the event's actions
    /// and environment pairs — in order, decision-independent — and the
    /// reply obeys `reply_obeys_event`.
    pub fn handle_event(&mut self, ev: &Event, policy: &mut AcceptancePolicy) -> (r: Reply)
        requires
            old(policy).wf(),
        ensures
            final(policy).wf(),
            final(policy).threshold() == old(policy).threshold(),
            crate::policy::credentials_monotonic(*old(policy), *final(policy)),
            final(self).is_finalized() == old(self).is_finalized(),
            final(self).log().connection_id == old(self).log().connection_id,
            final(self).log().peer_address == old(self).log().peer_address,
            final(self).log().actions == old(self).log().actions + actions_of_event(*ev),
            final(self).log().environment_variables
                == old(self).log().environment_variables + env_of_event(*ev),
            reply_obeys_event(*ev, *old(policy), *final(policy), r),
    {
        let r = match ev {
            Event::AuthPassword { user, password } => Reply::Auth(
                self.auth_password(user.as_str(), password.as_str(), policy),
            ),
            Event::AuthPublicKey { kind, fingerprint } => Reply::Auth(
                self.auth_publickey(kind.as_str(), fingerprint.as_str()),
            ),
            Event::AuthKeyboardInteractive => Reply::Auth(self.auth_keyboard_interactive()),
            Event::AuthNone => Reply::Auth(self.auth_none()),
            Event::ChannelOpenSession => self.channel_open_session(),
            Event::ChannelOpenX11 { originator_address, originator_port } => self
                .channel_open_x11(originator_address.as_str(), *originator_port),
            Event::ChannelOpenDirectTcpIp {
                host_to_connect,
                port_to_connect,
                originator_address,
                originator_port,
            } => self.channel_open_direct_tcpip(
                host_to_connect.as_str(),
                *port_to_connect,
                originator_address.as_str(),
                *originator_port,
            ),
            Event::ChannelClose => self.channel_close(),
            Event::ChannelEof => self.channel_eof(),
            Event::Data { data } => self.data(data.as_slice()),
            Event::ExtendedData => self.extended_data(),
            Event::WindowAdjusted { new_size } => self.window_adjusted(*new_size),
            Event::PtyRequest { term, col_width, row_height, pix_width, pix_height, modes } =>
                self.pty_request(
                    term.as_str(),
                    *col_width,
                    *row_height,
                    *pix_width,
                    *pix_height,
                    modes.as_slice(),
                ),
            Event::X11Request {
                single_connection,
                x11_auth_protocol,
                x11_auth_cookie,
                x11_screen_number,
            } => self.x11_request(
                *single_connection,
                x11_auth_protocol.as_str(),
                x11_auth_cookie.as_str(),
                *x11_screen_number,
            ),
            Event::EnvRequest { variable_name, variable_value } => self.env_request(
                variable_name.as_str(),
                variable_value.as_str(),
            ),
            Event::ShellRequest => self.shell_request(),
            Event::ExecRequest { data } => self.exec_request(data.as_slice()),
            Event::SubsystemRequest { name } => self.subsystem_request(name.as_str()),
            Event::WindowChangeRequest { col_width, row_height, pix_width, pix_height } => self
                .window_change_request(*col_width, *row_height, *pix_width, *pix_height),
            Event::Signal { name } => self.signal(name.as_str()),
            Event::TcpIpForward { address, port } => self.tcpip_forward(address.as_str(), *port),
            Event::CancelTcpIpForward { address, port } => self.cancel_tcpip_forward(
                address.as_str(),
                *port,
            ),
        };
        proof {
            assert(self.record@.actions
                =~= old(self).record@.actions + actions_of_event(*ev));
            assert(self.record@.environment_variables
                =~= old(self).record@.environment_variables + env_of_event(*ev));
        }
        r
    }
}

/// How the reply to one event must relate to the event and to the policy
/// state around the decision.
pub open spec fn reply_obeys_event(
    ev: Event,
    pre_policy: AcceptancePolicy,
    post_policy: AcceptancePolicy,
    r: Reply,
) -> bool {
    match ev {
        Event::AuthPassword { user, password } => {
            &&& (r == Reply::Auth(AuthOutcome::Accept)
                || r == Reply::Auth(AuthOutcome::PartialPrompt))
            &&& (r == Reply::Auth(AuthOutcome::Accept)
                ==> post_policy.credentials().contains(password@))
            &&& (r == Reply::Auth(AuthOutcome::PartialPrompt)
                ==> post_policy.credentials() == pre_policy.credentials())
            &&& (pre_policy.credentials().contains(password@)
                ==> r == Reply::Auth(AuthOutcome::Accept))
            &&& (pre_policy.threshold() == 0 && !pre_policy.credentials().contains(password@)
                ==> r == Reply::Auth(AuthOutcome::PartialPrompt))
            &&& (pre_policy.threshold() == crate::policy::DRAW_BOUND
                ==> r == Reply::Auth(AuthOutcome::Accept))
        },
        Event::AuthPublicKey { .. } => r == Reply::Auth(AuthOutcome::Reject),
        Event::AuthKeyboardInteractive => r == Reply::Auth(AuthOutcome::Reject),
        Event::AuthNone => r == Reply::Auth(AuthOutcome::UnsupportedMethod),
        Event::ChannelOpenSession => r == Reply::ChannelSuccess,
        Event::ChannelOpenX11 { .. } => r == Reply::ChannelFailure,
        Event::ChannelOpenDirectTcpIp { .. } => r == Reply::ChannelFailure,
        Event::ChannelClose => r == Reply::ChannelSuccess,
        Event::ChannelEof => r == Reply::ChannelSuccess,
        Event::Data { data } => match parsed_command(data@) {
            Some(args) => {
                &&& r matches Reply::RunShellLine { args: ra }
                &&& (r matches Reply::RunShellLine { args: ra }
                    ==> ra matches Some(v) && v.deep_view() == args)
            },
            None => r == (Reply::RunShellLine { args: None }),
        },
        Event::ExtendedData => r == Reply::Quiet,
        Event::WindowAdjusted { .. } => r == Reply::Quiet,
        Event::PtyRequest { .. } => r == Reply::ChannelFailure,
        Event::X11Request { .. } => r == Reply::ChannelFailure,
        Event::EnvRequest { .. } => r == Reply::ChannelSuccess,
        Event::ShellRequest => r == Reply::ShellStarted,
        Event::ExecRequest { data } => match parsed_command(data@) {
            Some(args) => {
                &&& r matches Reply::RunExec { args: ra }
                &&& (r matches Reply::RunExec { args: ra } ==> ra.deep_view() == args)
            },
            None => r == Reply::ChannelFailure,
        },
        Event::SubsystemRequest { .. } => r == Reply::ChannelFailure,
        Event::WindowChangeRequest { .. } => r == Reply::ChannelSuccess,
        Event::Signal { .. } => r == Reply::Quiet,
        Event::TcpIpForward { .. } => r == Reply::ForwardRefused,
        Event::CancelTcpIpForward { .. } => r == Reply::ForwardRefused,
    }
}

/// Opens the controller for a newly accepted connection, under a fresh
/// random 128-bit identifier.
pub fn open_connection(peer_address: Option<String>) -> (conn: Connection)
    ensures
        conn.log().peer_address == match peer_address {
            Some(a) => Some::<Seq<char>>(a@),
            None => None::<Seq<char>>,
        },
        conn.log().actions == Seq::<ActionView>::empty(),
        conn.log().environment_variables == Seq::<(Seq<char>, Seq<char>)>::empty(),
        !conn.is_finalized(),
        conn.phase() == Phase::Connected,
{
    let id = fresh_connection_id();
    Connection::new(id, peer_address)
}

/// The actions an ordered run of events leaves in the log, in run order.
pub open spec fn actions_of_events(events: Seq<Event>) -> Seq<ActionView>
    decreases events.len(),
{
    if events.len() == 0 {
        Seq::<ActionView>::empty()
    } else {
        actions_of_events(events.drop_last()) + actions_of_event(events.last())
    }
}

/// For any run of events on one connection, the log's action list is
/// exactly the concatenation of each event's actions, in run order: one
/// more event appends exactly its own actions at the end. Together with
/// `handle_event`'s contract this pins the whole action list of a
/// connection's life.
pub proof fn lemma_actions_of_events_push(events: Seq<Event>, ev: Event)
    ensures
        actions_of_events(events.push(ev))
            == actions_of_events(events) + actions_of_event(ev),
{
    assert(events.push(ev).drop_last() =~= events);
    assert(events.push(ev).last() == ev);
}

/// Runs of events compose: the actions of two runs in sequence are the
/// actions of the first followed by the actions of the second.
pub proof fn lemma_actions_of_events_concat(left: Seq<Event>, right: Seq<Event>)
    ensures
        actions_of_events(left + right)
            == actions_of_events(left) + actions_of_events(right),
    decreases right.len(),
{
    if right.len() == 0 {
        assert(left + right =~= left);
        assert(actions_of_events(left) + actions_of_events(right)
            =~= actions_of_events(left));
    } else {
        lemma_actions_of_events_concat(left, right.drop_last());
        assert((left + right).drop_last() =~= left + right.drop_last());
        assert((left + right).last() == right.last());
        assert(actions_of_events(left) + actions_of_events(right)
            =~= (actions_of_events(left) + actions_of_events(right.drop_last()))
                + actions_of_event(right.last()));
    }
}

/// No event ever records more than one action, so a run of N events leaves
/// at most N entries — and exactly one per recordable event.
pub proof fn lemma_at_most_one_action_per_event(events: Seq<Event>)
    ensures
        actions_of_events(events).len() <= events.len(),
    decreases events.len(),
{
    if events.len() > 0 {
        lemma_at_most_one_action_per_event(events.drop_last());
        assert(actions_of_event(events.last()).len() <= 1);
    }
}

} // verus!

