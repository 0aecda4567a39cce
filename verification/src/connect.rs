//! The connection to the daemon: have one, open the socket, and introduce the client.
use vstd::prelude::*;
use vstd::string::*;

use crate::daemon::{listen_address, listen_url};
use crate::error::{texts, CtlError, CtlErrorView};
use crate::text::decimal;

verus! {

/// How the client introduces itself.
pub struct Introduction {
    pub name: String,
    pub title: String,
    pub version: String,
    pub experimental_api: bool,
}

/// What an `Introduction` says.
pub struct IntroductionView {
    pub name: Seq<char>,
    pub title: Seq<char>,
    pub version: Seq<char>,
    pub experimental_api: bool,
}

impl View for Introduction {
    type V = IntroductionView;

    open spec fn view(&self) -> IntroductionView {
        IntroductionView {
            name: self.name@,
            title: self.title@,
            version: self.version@,
            experimental_api: self.experimental_api,
        }
    }
}

/// What is to be done next.
pub enum ConnectAction {
    /// See to it that a daemon runs, and on which port.
    EnsureDaemon,
    /// Open a web socket to this address.
    OpenSocket(String),
    /// Send `initialize` with this introduction, and await the answer.
    Initialize(Introduction),
    /// Send the `initialized` notification.
    Announce,
    /// Nothing more; the connection stands.
    Finish,
    /// Nothing more; there is no connection.
    Fail(CtlError),
}

/// What a `ConnectAction` asks for.
pub enum ConnectActionView {
    EnsureDaemon,
    OpenSocket(Seq<char>),
    Initialize(IntroductionView),
    Announce,
    Finish,
    Fail(CtlErrorView),
}

impl View for ConnectAction {
    type V = ConnectActionView;

    open spec fn view(&self) -> ConnectActionView {
        match self {
            ConnectAction::EnsureDaemon => ConnectActionView::EnsureDaemon,
            ConnectAction::OpenSocket(url) => ConnectActionView::OpenSocket(url@),
            ConnectAction::Initialize(intro) => ConnectActionView::Initialize(intro@),
            ConnectAction::Announce => ConnectActionView::Announce,
            ConnectAction::Finish => ConnectActionView::Finish,
            ConnectAction::Fail(e) => ConnectActionView::Fail(e@),
        }
    }
}

/// How an action went.
#[derive(Clone, Copy, PartialEq, Eq, Structural)]
pub enum ConnectEvent {
    /// A daemon runs on this port.
    Ready(u16),
    /// The action was carried out.
    Done,
    /// The action failed.
    Failed,
}

/// How far a connection has come.
#[derive(Clone, Copy, PartialEq, Eq, Structural)]
pub enum ConnectPhase {
    EnsuringDaemon,
    OpeningSocket,
    Initializing,
    Announcing,
    Ended,
}

/// A connection of a client of this version.
pub struct ConnectSession {
    pub version: String,
    pub phase: ConnectPhase,
}

/// The introduction of a client of this version. Goals are part of the experimental interface,
/// which the client therefore asks for.
pub open spec fn introduction_view(version: Seq<char>) -> IntroductionView {
    IntroductionView {
        name: "codexctl"@,
        title: "codexctl"@,
        version,
        experimental_api: true,
    }
}

/// The failure of a step, under the given descriptions.
pub open spec fn connect_failure(contexts: Seq<Seq<char>>) -> (ConnectPhase, ConnectActionView) {
    (ConnectPhase::Ended, ConnectActionView::Fail(CtlErrorView::Outside(contexts)))
}

/// How a connection goes on after `event`.
pub open spec fn connect_next(
    phase: ConnectPhase,
    version: Seq<char>,
    event: ConnectEvent,
) -> (ConnectPhase, ConnectActionView) {
    match (phase, event) {
        (ConnectPhase::EnsuringDaemon, ConnectEvent::Ready(port)) => (
            ConnectPhase::OpeningSocket,
            ConnectActionView::OpenSocket(listen_address(port)),
        ),
        (ConnectPhase::OpeningSocket, ConnectEvent::Done) => (
            ConnectPhase::Initializing,
            ConnectActionView::Initialize(introduction_view(version)),
        ),
        (ConnectPhase::OpeningSocket, ConnectEvent::Failed) => connect_failure(
            seq!["connect ws"@],
        ),
        (ConnectPhase::Initializing, ConnectEvent::Done) => (
            ConnectPhase::Announcing,
            ConnectActionView::Announce,
        ),
        (ConnectPhase::Initializing, ConnectEvent::Failed) => connect_failure(
            seq!["initialize"@],
        ),
        (ConnectPhase::Announcing, ConnectEvent::Done) => (
            ConnectPhase::Ended,
            ConnectActionView::Finish,
        ),
        (ConnectPhase::Announcing, ConnectEvent::Failed) => connect_failure(
            seq!["initialized"@],
        ),
        _ => connect_failure(Seq::empty()),
    }
}

/// Begins to connect a client of this version.
pub fn connect(version: String) -> (r: (ConnectSession, ConnectAction))
    ensures
        r.0.version@ == version@,
        r.0.phase == ConnectPhase::EnsuringDaemon,
        r.1@ == ConnectActionView::EnsureDaemon,
{
    (ConnectSession { version, phase: ConnectPhase::EnsuringDaemon }, ConnectAction::EnsureDaemon)
}

fn fail_at(context: &str) -> (r: (ConnectPhase, ConnectAction))
    ensures
        (r.0, r.1@) == connect_failure(seq![context@]),
{
    let contexts: Vec<String> = vec![context.to_owned()];
    assert(texts(contexts@) =~= seq![context@]);
    (ConnectPhase::Ended, ConnectAction::Fail(CtlError::Outside(contexts)))
}

impl ConnectSession {
    /// Goes on after `event`.
    pub fn step(self, event: ConnectEvent) -> (r: (ConnectSession, ConnectAction))
        ensures
            r.0.version@ == self.version@,
            (r.0.phase, r.1@) == connect_next(self.phase, self.version@, event),
    {
        let (phase, action) = match (self.phase, event) {
            (ConnectPhase::EnsuringDaemon, ConnectEvent::Ready(port)) => (
                ConnectPhase::OpeningSocket,
                ConnectAction::OpenSocket(listen_url(port)),
            ),
            (ConnectPhase::OpeningSocket, ConnectEvent::Done) => {
                let intro = Introduction {
                    name: "codexctl".to_owned(),
                    title: "codexctl".to_owned(),
                    version: self.version.clone(),
                    experimental_api: true,
                };
                (ConnectPhase::Initializing, ConnectAction::Initialize(intro))
            },
            (ConnectPhase::OpeningSocket, ConnectEvent::Failed) => fail_at("connect ws"),
            (ConnectPhase::Initializing, ConnectEvent::Done) => (
                ConnectPhase::Announcing,
                ConnectAction::Announce,
            ),
            (ConnectPhase::Initializing, ConnectEvent::Failed) => fail_at("initialize"),
            (ConnectPhase::Announcing, ConnectEvent::Done) => (
                ConnectPhase::Ended,
                ConnectAction::Finish,
            ),
            (ConnectPhase::Announcing, ConnectEvent::Failed) => fail_at("initialized"),
            _ => {
                let contexts: Vec<String> = Vec::new();
                assert(texts(contexts@) =~= Seq::empty());
                (ConnectPhase::Ended, ConnectAction::Fail(CtlError::Outside(contexts)))
            },
        };
        (ConnectSession { phase, ..self }, action)
    }
}

/// No step of a connection is skipped: each is taken only after the one before went well, and
/// after a step that failed nothing more is done.
pub proof fn law_no_step_is_skipped(phase: ConnectPhase, version: Seq<char>, event: ConnectEvent)
    ensures
        ({
            let action = connect_next(phase, version, event).1;
            &&& !(action is EnsureDaemon)
            &&& action is OpenSocket <==> phase == ConnectPhase::EnsuringDaemon && event is Ready
            &&& action is Initialize <==> phase == ConnectPhase::OpeningSocket && event is Done
            &&& action is Announce <==> phase == ConnectPhase::Initializing && event is Done
            &&& action is Finish <==> phase == ConnectPhase::Announcing && event is Done
            &&& event is Failed || phase == ConnectPhase::Ended ==> action is Fail && connect_next(
                phase,
                version,
                event,
            ).0 == ConnectPhase::Ended
        }),
{
}

/// What a connection does from its beginning, when each of its steps goes well.
pub open spec fn handshake(version: Seq<char>, port: u16) -> Seq<ConnectActionView> {
    seq![
        ConnectActionView::EnsureDaemon,
        ConnectActionView::OpenSocket(listen_address(port)),
        ConnectActionView::Initialize(introduction_view(version)),
        ConnectActionView::Announce,
        ConnectActionView::Finish,
    ]
}

/// When each step goes well, the client opens the socket on the daemon's port, introduces itself
/// and announces that it is ready, in this order.
pub proof fn law_handshake(version: Seq<char>, port: u16)
    ensures
        ({
            let first = connect_next(
                ConnectPhase::EnsuringDaemon,
                version,
                ConnectEvent::Ready(port),
            );
            let second = connect_next(first.0, version, ConnectEvent::Done);
            let third = connect_next(second.0, version, ConnectEvent::Done);
            let fourth = connect_next(third.0, version, ConnectEvent::Done);
            handshake(version, port) == seq![
                ConnectActionView::EnsureDaemon,
                first.1,
                second.1,
                third.1,
                fourth.1,
            ]
        }),
{
}

/// The client connects to the port that the daemon was found on, and says who it is and that it
/// uses the experimental interface.
pub proof fn law_connects_where_the_daemon_is(
    session: ConnectSession,
    event: ConnectEvent,
    r: (ConnectSession, ConnectAction),
)
    requires
        call_ensures(ConnectSession::step, (session, event), r),
    ensures
        r.0.version@ == session.version@,
        session.phase is EnsuringDaemon ==> match event {
            ConnectEvent::Ready(port) => r.1 matches ConnectAction::OpenSocket(url) && url@
                == "ws://127.0.0.1:"@ + decimal(port as nat) && r.0.phase is OpeningSocket,
            _ => r.1 is Fail,
        },
        session.phase is OpeningSocket && event is Done ==> r.0.phase is Initializing && (
        r.1 matches ConnectAction::Initialize(intro) && intro.name@ == "codexctl"@ && intro.title@
            == "codexctl"@ && intro.version@ == session.version@ && intro.experimental_api),
        session.phase is Initializing && event is Done ==> r.1 is Announce && r.0.phase
            is Announcing,
        session.phase is Announcing && event is Done ==> r.1 is Finish && r.0.phase is Ended,
{
}

/// A connection that fails names the step that failed.
pub proof fn law_failed_connection_names_its_step(
    session: ConnectSession,
    r: (ConnectSession, ConnectAction),
)
    requires
        call_ensures(ConnectSession::step, (session, ConnectEvent::Failed), r),
    ensures
        r.0.phase is Ended,
        r.1 matches ConnectAction::Fail(CtlError::Outside(contexts)) && match session.phase {
            ConnectPhase::OpeningSocket => contexts@.len() == 1 && contexts@[0]@ == "connect ws"@,
            ConnectPhase::Initializing => contexts@.len() == 1 && contexts@[0]@ == "initialize"@,
            ConnectPhase::Announcing => contexts@.len() == 1 && contexts@[0]@ == "initialized"@,
            _ => contexts@.len() == 0,
        },
{
    match r.1 {
        ConnectAction::Fail(CtlError::Outside(contexts)) => {
            let told = texts(contexts@);
            assert(told.len() == contexts@.len());
            if told.len() > 0 {
                assert(told[0] == contexts@[0]@);
            }
        },
        _ => {},
    }
}

/// A connection begins with the daemon.
pub proof fn law_connection_begins_with_the_daemon(
    version: String,
    r: (ConnectSession, ConnectAction),
)
    requires
        call_ensures(connect, (version,), r),
    ensures
        r.0.version@ == version@,
        r.0.phase is EnsuringDaemon,
        r.1 is EnsureDaemon,
{
}

} // verus!
