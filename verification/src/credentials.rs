//! The credential manager: the steps that lead from whatever the token store
//! holds to a valid access token.
//!
//! The manager decides; its caller acts. The caller starts the manager with
//! [`Event::Proceed`], performs the writes and the action of each [`Step`],
//! and hands the outcome of the action back as the next event, until the
//! action is [`Action::Done`] or a step fails. The three checks are made once
//! each, in this order: is there an authorization code, is there a refresh
//! token, is there an access token that has not expired.
//!
//! The manager works on plain values. What the outside hands over as text is
//! read before it reaches the manager: the stored expiry by [`Expiry::read`],
//! the answer of the token endpoint by [`Reply::read`].

use vstd::prelude::*;
use crate::clock::{timestamp_in, timestamp_text, Instant};
use crate::json::json_document;
use crate::oauth::{
    authorize_address, authorize_url, code_grant_fields, code_grant_form, code_in, extract_code,
    field_views, grant_in, read_grant_in, refresh_grant_fields, refresh_grant_form, ClientConfig,
    ClientConfigView, TokenGrant, TokenGrantView,
};

verus! {

/// The keys of the token store.
#[derive(Debug, Clone, Copy, PartialEq, Eq, Structural)]
pub enum TokenKey {
    AuthCode,
    RefreshToken,
    AccessToken,
    Expiry,
}

impl TokenKey {
    /// The key as the store spells it.
    pub open spec fn label(self) -> Seq<char> {
        match self {
            TokenKey::AuthCode => "auth_code"@,
            TokenKey::RefreshToken => "refresh_token"@,
            TokenKey::AccessToken => "access_token"@,
            TokenKey::Expiry => "expiry"@,
        }
    }

    /// The key as the store spells it.
    pub fn name(&self) -> (r: &'static str)
        ensures
            r@ == self.label(),
    {
        match self {
            TokenKey::AuthCode => "auth_code",
            TokenKey::RefreshToken => "refresh_token",
            TokenKey::AccessToken => "access_token",
            TokenKey::Expiry => "expiry",
        }
    }
}

/// Why the manager gave up.
#[derive(Debug, Clone, Copy, PartialEq, Eq, Structural)]
pub enum CredentialError {
    /// The listener for the redirect could not be set up or took no
    /// connection.
    Listener,
    /// The redirected request carried no authorization code, or none is
    /// stored where one is needed.
    NoCode,
    /// The call to the token endpoint failed.
    Transport,
    /// The provider answered with a status that is no success.
    Rejected,
    /// The body of the token response holds no grant.
    Unparseable,
    /// The granted token would expire beyond the reach of the calendar.
    ExpiryOutOfReach,
    /// An access token is stored without an expiry.
    NoExpiry,
    /// The stored expiry is no date and time.
    BadExpiry,
    /// The access token has to be renewed and no refresh token is stored.
    NoRefreshToken,
    /// The event does not answer what the manager last asked for.
    UnexpectedEvent,
}

/// The families of failures.
#[derive(Debug, Clone, Copy, PartialEq, Eq, Structural)]
pub enum ErrorKind {
    /// The authorization flow failed.
    AuthFlow,
    /// A token exchange failed.
    TokenExchange,
    /// The token store does not hold what it should.
    Store,
    /// The manager was driven out of turn.
    Protocol,
}

impl CredentialError {
    /// The family of this failure.
    pub open spec fn family(self) -> ErrorKind {
        match self {
            CredentialError::Listener | CredentialError::NoCode => ErrorKind::AuthFlow,
            CredentialError::Transport
            | CredentialError::Rejected
            | CredentialError::Unparseable
            | CredentialError::ExpiryOutOfReach => ErrorKind::TokenExchange,
            CredentialError::NoExpiry
            | CredentialError::BadExpiry
            | CredentialError::NoRefreshToken => ErrorKind::Store,
            CredentialError::UnexpectedEvent => ErrorKind::Protocol,
        }
    }

    /// The family of this failure.
    pub fn kind(&self) -> (k: ErrorKind)
        ensures
            k == self.family(),
    {
        match self {
            CredentialError::Listener | CredentialError::NoCode => ErrorKind::AuthFlow,
            CredentialError::Transport
            | CredentialError::Rejected
            | CredentialError::Unparseable
            | CredentialError::ExpiryOutOfReach => ErrorKind::TokenExchange,
            CredentialError::NoExpiry
            | CredentialError::BadExpiry
            | CredentialError::NoRefreshToken => ErrorKind::Store,
            CredentialError::UnexpectedEvent => ErrorKind::Protocol,
        }
    }
}

/// When the access token expires, as far as the store says.
#[derive(Debug, Clone, Copy, PartialEq, Eq, Structural)]
pub enum Expiry {
    /// The store holds no expiry.
    Absent,
    /// The store holds an expiry that is no date and time.
    Unreadable,
    /// The access token expires at this instant.
    At(Instant),
}

/// A possible string, taken by its characters.
pub open spec fn text_view(s: Option<String>) -> Option<Seq<char>> {
    match s {
        Some(s) => Some(s@),
        None => None,
    }
}

/// The expiry that the store holds where it holds `text` under its key.
pub open spec fn stored_expiry(text: Option<Seq<char>>) -> Expiry {
    match text {
        None => Expiry::Absent,
        Some(t) => match timestamp_in(t) {
            None => Expiry::Unreadable,
            Some(t) => Expiry::At(Instant { secs: t.0, nanos: t.1 }),
        },
    }
}

impl Expiry {
    /// Reads what the store holds under the key of the expiry.
    pub fn read(text: &Option<String>) -> (e: Expiry)
        ensures
            e == stored_expiry(text_view(*text)),
    {
        match text {
            None => Expiry::Absent,
            Some(t) => match Instant::parse(t.as_str()) {
                None => Expiry::Unreadable,
                Some(at) => Expiry::At(at),
            },
        }
    }
}

/// What the token store holds under its four keys.
#[derive(Debug, Clone, PartialEq, Eq)]
pub struct TokenSet {
    pub auth_code: Option<String>,
    pub refresh_token: Option<String>,
    pub access_token: Option<String>,
    pub expiry: Expiry,
}

/// The mathematical value of a [`TokenSet`].
pub struct TokenSetView {
    pub auth_code: Option<Seq<char>>,
    pub refresh_token: Option<Seq<char>>,
    pub access_token: Option<Seq<char>>,
    pub expiry: Expiry,
}

impl View for TokenSet {
    type V = TokenSetView;

    open spec fn view(&self) -> TokenSetView {
        TokenSetView {
            auth_code: text_view(self.auth_code),
            refresh_token: text_view(self.refresh_token),
            access_token: text_view(self.access_token),
            expiry: self.expiry,
        }
    }
}

/// Whether the access token has to be renewed at `now`: it has where none is
/// stored, and where the stored one expires at `now` or earlier. An access
/// token without a readable expiry is a failure.
pub open spec fn renewal_due(tokens: TokenSetView, now: Instant) -> Result<bool, CredentialError> {
    if tokens.access_token is None {
        Ok(true)
    } else {
        match tokens.expiry {
            Expiry::Absent => Err(CredentialError::NoExpiry),
            Expiry::Unreadable => Err(CredentialError::BadExpiry),
            Expiry::At(expiry) => Ok(expiry.at_or_before(now)),
        }
    }
}

impl TokenSet {
    /// The token set of an empty store.
    pub fn empty() -> (t: TokenSet)
        ensures
            t@ == (TokenSetView {
                auth_code: None,
                refresh_token: None,
                access_token: None,
                expiry: Expiry::Absent,
            }),
    {
        TokenSet {
            auth_code: None,
            refresh_token: None,
            access_token: None,
            expiry: Expiry::Absent,
        }
    }

    /// Whether the access token has to be renewed at `now`. A token that
    /// expires at `now` has expired.
    pub fn needs_refresh(&self, now: Instant) -> (r: Result<bool, CredentialError>)
        ensures
            r == renewal_due(self@, now),
    {
        if self.access_token.is_none() {
            return Ok(true);
        }
        match self.expiry {
            Expiry::Absent => Err(CredentialError::NoExpiry),
            Expiry::Unreadable => Err(CredentialError::BadExpiry),
            Expiry::At(expiry) => Ok(expiry.is_at_or_before(&now)),
        }
    }
}

/// What the token endpoint answered.
#[derive(Debug, Clone, PartialEq, Eq)]
pub enum Reply {
    /// Its status was no success.
    Rejected,
    /// Its body holds no grant.
    Unparseable,
    /// The granted token would expire beyond the reach of the calendar.
    OutOfReach,
    /// A grant, the instant at which its access token expires, and that
    /// instant as the store is to hold it.
    Granted { grant: TokenGrant, expiry: Instant, expiry_text: String },
}

/// The mathematical value of a [`Reply`].
pub enum ReplyView {
    Rejected,
    Unparseable,
    OutOfReach,
    Granted { grant: TokenGrantView, expiry: Instant, expiry_text: Seq<char> },
}

impl View for Reply {
    type V = ReplyView;

    open spec fn view(&self) -> ReplyView {
        match self {
            Reply::Rejected => ReplyView::Rejected,
            Reply::Unparseable => ReplyView::Unparseable,
            Reply::OutOfReach => ReplyView::OutOfReach,
            Reply::Granted { grant, expiry, expiry_text } => ReplyView::Granted {
                grant: grant@,
                expiry: *expiry,
                expiry_text: expiry_text@,
            },
        }
    }
}

/// What a grant received at `now` amounts to: it expires `expires_in` seconds
/// after `now`.
pub open spec fn grant_received(grant: TokenGrantView, now: Instant) -> ReplyView {
    match now.later_by(grant.expires_in) {
        None => ReplyView::OutOfReach,
        Some(expiry) => match timestamp_text(expiry.secs, expiry.nanos) {
            None => ReplyView::OutOfReach,
            Some(expiry_text) => ReplyView::Granted { grant, expiry, expiry_text },
        },
    }
}

/// What an answer of the token endpoint, received at `now`, amounts to.
pub open spec fn reply_of(success: bool, body: Seq<char>, now: Instant) -> ReplyView {
    if !success {
        ReplyView::Rejected
    } else {
        match json_document(body) {
            None => ReplyView::Unparseable,
            Some(doc) => match grant_in(doc) {
                None => ReplyView::Unparseable,
                Some(grant) => grant_received(grant, now),
            },
        }
    }
}

impl Reply {
    /// Works out when a grant received at `now` expires.
    pub fn of_grant(grant: TokenGrant, now: Instant) -> (r: Reply)
        ensures
            r@ == grant_received(grant@, now),
    {
        match now.plus_seconds(grant.expires_in) {
            None => Reply::OutOfReach,
            Some(expiry) => match expiry.to_text() {
                None => Reply::OutOfReach,
                Some(expiry_text) => Reply::Granted { grant, expiry, expiry_text },
            },
        }
    }

    /// Reads an answer of the token endpoint, received at `now`: whether its
    /// status was a success, and its body.
    pub fn read(success: bool, body: &str, now: Instant) -> (r: Reply)
        ensures
            r@ == reply_of(success, body@, now),
    {
        if !success {
            return Reply::Rejected;
        }
        match read_grant_in(body) {
            None => Reply::Unparseable,
            Some(grant) => Reply::of_grant(grant, now),
        }
    }
}

/// Where the manager stands: at one of its three checks, waiting for the
/// outcome of what a check asked for, or ready.
#[derive(Debug, Clone, Copy, PartialEq, Eq, Structural)]
pub enum Stage {
    CheckAuthCode,
    AwaitingRedirect,
    CheckRefreshToken,
    AwaitingCodeGrant,
    CheckAccessToken,
    AwaitingRefreshGrant,
    Ready,
}

impl Stage {
    /// The place of the stage in the order in which the manager passes
    /// through them.
    pub open spec fn rank(self) -> nat {
        match self {
            Stage::CheckAuthCode => 0,
            Stage::AwaitingRedirect => 1,
            Stage::CheckRefreshToken => 2,
            Stage::AwaitingCodeGrant => 3,
            Stage::CheckAccessToken => 4,
            Stage::AwaitingRefreshGrant => 5,
            Stage::Ready => 6,
        }
    }
}

/// What the caller reports to the manager.
#[derive(Debug, Clone, PartialEq, Eq)]
pub enum Event {
    /// Nothing: the manager is to make its next check.
    Proceed,
    /// The text of the one request that the listener took.
    Redirect(String),
    /// The listener could not be set up, or took no connection.
    ListenerFailed,
    /// The answer of the token endpoint.
    Response(Reply),
    /// The call to the token endpoint failed.
    TransportFailed,
}

/// The mathematical value of an [`Event`].
pub enum EventView {
    Proceed,
    Redirect(Seq<char>),
    ListenerFailed,
    Response(ReplyView),
    TransportFailed,
}

impl View for Event {
    type V = EventView;

    open spec fn view(&self) -> EventView {
        match self {
            Event::Proceed => EventView::Proceed,
            Event::Redirect(request) => EventView::Redirect(request@),
            Event::ListenerFailed => EventView::ListenerFailed,
            Event::Response(reply) => EventView::Response(reply@),
            Event::TransportFailed => EventView::TransportFailed,
        }
    }
}

/// What the manager asks its caller to do.
#[derive(Debug, Clone, PartialEq, Eq)]
pub enum Action {
    /// Show the user this address, listen for the redirect, take one
    /// connection and report its request.
    Capture { url: String },
    /// Post this form to the token endpoint and report the answer.
    Post { form: Vec<(String, String)> },
    /// Come back with [`Event::Proceed`].
    Continue,
    /// Nothing more: the access token is in place.
    Done,
}

/// The mathematical value of an [`Action`].
pub enum ActionView {
    Capture { url: Seq<char> },
    Post { form: Seq<(Seq<char>, Seq<char>)> },
    Continue,
    Done,
}

impl View for Action {
    type V = ActionView;

    open spec fn view(&self) -> ActionView {
        match self {
            Action::Capture { url } => ActionView::Capture { url: url@ },
            Action::Post { form } => ActionView::Post { form: field_views(form@) },
            Action::Continue => ActionView::Continue,
            Action::Done => ActionView::Done,
        }
    }
}

/// One step of the manager: what to write to the token store, in this order
/// and before anything else, and what to do then.
#[derive(Debug, Clone, PartialEq, Eq)]
pub struct Step {
    pub writes: Vec<(TokenKey, String)>,
    pub action: Action,
}

/// The mathematical value of a [`Step`].
pub struct StepView {
    pub writes: Seq<(TokenKey, Seq<char>)>,
    pub action: ActionView,
}

/// The values of a sequence of writes.
pub open spec fn write_views(writes: Seq<(TokenKey, String)>) -> Seq<(TokenKey, Seq<char>)> {
    writes.map_values(|w: (TokenKey, String)| (w.0, w.1@))
}

impl View for Step {
    type V = StepView;

    open spec fn view(&self) -> StepView {
        StepView { writes: write_views(self.writes@), action: self.action@ }
    }
}

/// The mathematical value of a [`Manager`].
pub struct ManagerView {
    pub stage: Stage,
    pub tokens: TokenSetView,
}

/// The token set after an authorization-code grant: the new access token and
/// its expiry, and the refresh token if one came.
pub open spec fn after_code_grant(
    tokens: TokenSetView,
    grant: TokenGrantView,
    expiry: Instant,
) -> TokenSetView {
    TokenSetView {
        auth_code: tokens.auth_code,
        refresh_token: if grant.refresh_token is Some {
            grant.refresh_token
        } else {
            tokens.refresh_token
        },
        access_token: Some(grant.access_token),
        expiry: Expiry::At(expiry),
    }
}

/// What an authorization-code grant has written to the store.
pub open spec fn code_grant_writes(grant: TokenGrantView, expiry_text: Seq<char>) -> Seq<
    (TokenKey, Seq<char>),
> {
    let tail = seq![(TokenKey::AccessToken, grant.access_token), (TokenKey::Expiry, expiry_text)];
    match grant.refresh_token {
        Some(token) => seq![(TokenKey::RefreshToken, token)] + tail,
        None => tail,
    }
}

/// The token set after a refresh grant: the new access token and its expiry.
pub open spec fn after_refresh_grant(
    tokens: TokenSetView,
    grant: TokenGrantView,
    expiry: Instant,
) -> TokenSetView {
    TokenSetView {
        auth_code: tokens.auth_code,
        refresh_token: tokens.refresh_token,
        access_token: Some(grant.access_token),
        expiry: Expiry::At(expiry),
    }
}

/// What a refresh grant has written to the store.
pub open spec fn refresh_grant_writes(grant: TokenGrantView, expiry_text: Seq<char>) -> Seq<
    (TokenKey, Seq<char>),
> {
    seq![(TokenKey::Expiry, expiry_text), (TokenKey::AccessToken, grant.access_token)]
}

/// A step that writes nothing.
pub open spec fn bare(m: ManagerView, stage: Stage, action: ActionView) -> (ManagerView, StepView) {
    (ManagerView { stage, tokens: m.tokens }, StepView { writes: Seq::empty(), action })
}

/// The failure that a reply without a grant is.
pub open spec fn refusal(reply: ReplyView) -> CredentialError {
    match reply {
        ReplyView::Rejected => CredentialError::Rejected,
        ReplyView::OutOfReach => CredentialError::ExpiryOutOfReach,
        _ => CredentialError::Unparseable,
    }
}

/// The step that the manager `m` takes on `event` at `now`, and the manager
/// after it.
pub open spec fn transition(
    m: ManagerView,
    config: ClientConfigView,
    event: EventView,
    now: Instant,
) -> Result<(ManagerView, StepView), CredentialError> {
    match (m.stage, event) {
        (Stage::CheckAuthCode, EventView::Proceed) => if m.tokens.auth_code is None {
            Ok(
                bare(
                    m,
                    Stage::AwaitingRedirect,
                    ActionView::Capture { url: authorize_address(config) },
                ),
            )
        } else {
            Ok(bare(m, Stage::CheckRefreshToken, ActionView::Continue))
        },
        (Stage::AwaitingRedirect, EventView::Redirect(request)) => match code_in(request) {
            None => Err(CredentialError::NoCode),
            Some(code) => Ok(
                (
                    ManagerView {
                        stage: Stage::CheckRefreshToken,
                        tokens: TokenSetView { auth_code: Some(code), ..m.tokens },
                    },
                    StepView {
                        writes: seq![(TokenKey::AuthCode, code)],
                        action: ActionView::Continue,
                    },
                ),
            ),
        },
        (Stage::AwaitingRedirect, EventView::ListenerFailed) => Err(CredentialError::Listener),
        (Stage::CheckRefreshToken, EventView::Proceed) => if m.tokens.refresh_token is Some {
            Ok(bare(m, Stage::CheckAccessToken, ActionView::Continue))
        } else {
            match m.tokens.auth_code {
                None => Err(CredentialError::NoCode),
                Some(code) => Ok(
                    bare(
                        m,
                        Stage::AwaitingCodeGrant,
                        ActionView::Post { form: code_grant_fields(code, config) },
                    ),
                ),
            }
        },
        (Stage::AwaitingCodeGrant, EventView::Response(reply)) => match reply {
            ReplyView::Granted { grant, expiry, expiry_text } => Ok(
                (
                    ManagerView {
                        stage: Stage::CheckAccessToken,
                        tokens: after_code_grant(m.tokens, grant, expiry),
                    },
                    StepView {
                        writes: code_grant_writes(grant, expiry_text),
                        action: ActionView::Continue,
                    },
                ),
            ),
            _ => Err(refusal(reply)),
        },
        (Stage::CheckAccessToken, EventView::Proceed) => match renewal_due(m.tokens, now) {
            Err(e) => Err(e),
            Ok(false) => Ok(bare(m, Stage::Ready, ActionView::Done)),
            Ok(true) => match m.tokens.refresh_token {
                None => Err(CredentialError::NoRefreshToken),
                Some(token) => Ok(
                    bare(
                        m,
                        Stage::AwaitingRefreshGrant,
                        ActionView::Post { form: refresh_grant_fields(token, config) },
                    ),
                ),
            },
        },
        (Stage::AwaitingRefreshGrant, EventView::Response(reply)) => match reply {
            ReplyView::Granted { grant, expiry, expiry_text } => Ok(
                (
                    ManagerView {
                        stage: Stage::Ready,
                        tokens: after_refresh_grant(m.tokens, grant, expiry),
                    },
                    StepView {
                        writes: refresh_grant_writes(grant, expiry_text),
                        action: ActionView::Done,
                    },
                ),
            ),
            _ => Err(refusal(reply)),
        },
        (Stage::AwaitingCodeGrant, EventView::TransportFailed) => Err(CredentialError::Transport),
        (Stage::AwaitingRefreshGrant, EventView::TransportFailed) => Err(
            CredentialError::Transport,
        ),
        _ => Err(CredentialError::UnexpectedEvent),
    }
}

/// The credential manager.
#[derive(Debug, Clone, PartialEq, Eq)]
pub struct Manager {
    stage: Stage,
    tokens: TokenSet,
}

impl View for Manager {
    type V = ManagerView;

    closed spec fn view(&self) -> ManagerView {
        ManagerView { stage: self.stage, tokens: self.tokens@ }
    }
}

fn step_without_writes(action: Action) -> (s: Step)
    ensures
        s@ == (StepView { writes: Seq::empty(), action: action@ }),
{
    let s = Step { writes: Vec::new(), action };
    assert(write_views(s.writes@) =~= Seq::empty());
    s
}

fn refuse(reply: &Reply) -> (e: CredentialError)
    ensures
        e == refusal(reply@),
{
    match reply {
        Reply::Rejected => CredentialError::Rejected,
        Reply::OutOfReach => CredentialError::ExpiryOutOfReach,
        _ => CredentialError::Unparseable,
    }
}

impl Manager {
    /// A manager that starts from what the token store holds.
    pub fn new(tokens: TokenSet) -> (m: Manager)
        ensures
            m@ == (ManagerView { stage: Stage::CheckAuthCode, tokens: tokens@ }),
    {
        Manager { stage: Stage::CheckAuthCode, tokens }
    }

    /// Where the manager stands.
    pub fn stage(&self) -> (s: Stage)
        ensures
            s == self@.stage,
    {
        self.stage
    }

    /// What the token store holds, once the writes of the steps so far are
    /// made.
    pub fn tokens(&self) -> (t: &TokenSet)
        ensures
            t@ == self@.tokens,
    {
        &self.tokens
    }

    /// Takes one step. On a failure the manager stays as it was.
    pub fn step(&mut self, config: &ClientConfig, event: Event, now: Instant) -> (r: Result<
        Step,
        CredentialError,
    >)
        ensures
            match r {
                Ok(step) => transition(old(self)@, config@, event@, now) == Ok::<
                    (ManagerView, StepView),
                    CredentialError,
                >((final(self)@, step@)),
                Err(e) => transition(old(self)@, config@, event@, now) == Err::<
                    (ManagerView, StepView),
                    CredentialError,
                >(e) && final(self)@ == old(self)@,
            },
    {
        match (self.stage, event) {
            (Stage::CheckAuthCode, Event::Proceed) => {
                if self.tokens.auth_code.is_none() {
                    self.stage = Stage::AwaitingRedirect;
                    Ok(step_without_writes(Action::Capture { url: authorize_url(config) }))
                } else {
                    self.stage = Stage::CheckRefreshToken;
                    Ok(step_without_writes(Action::Continue))
                }
            },
            (Stage::AwaitingRedirect, Event::Redirect(request)) => {
                match extract_code(request.as_str()) {
                    None => Err(CredentialError::NoCode),
                    Some(code) => {
                        let mut writes: Vec<(TokenKey, String)> = Vec::new();
                        writes.push((TokenKey::AuthCode, code.clone()));
                        assert(write_views(writes@) =~= seq![(TokenKey::AuthCode, code@)]);
                        self.tokens.auth_code = Some(code);
                        self.stage = Stage::CheckRefreshToken;
                        Ok(Step { writes, action: Action::Continue })
                    },
                }
            },
            (Stage::AwaitingRedirect, Event::ListenerFailed) => Err(CredentialError::Listener),
            (Stage::CheckRefreshToken, Event::Proceed) => {
                if self.tokens.refresh_token.is_some() {
                    self.stage = Stage::CheckAccessToken;
                    Ok(step_without_writes(Action::Continue))
                } else {
                    match &self.tokens.auth_code {
                        None => Err(CredentialError::NoCode),
                        Some(code) => {
                            let form = code_grant_form(code.as_str(), config);
                            self.stage = Stage::AwaitingCodeGrant;
                            Ok(step_without_writes(Action::Post { form }))
                        },
                    }
                }
            },
            (Stage::AwaitingCodeGrant, Event::Response(reply)) => {
                match reply {
                    Reply::Granted { grant, expiry, expiry_text } => {
                        let mut writes: Vec<(TokenKey, String)> = Vec::new();
                        match &grant.refresh_token {
                            Some(token) => {
                                writes.push((TokenKey::RefreshToken, token.clone()));
                                self.tokens.refresh_token = Some(token.clone());
                            },
                            None => {},
                        }
                        writes.push((TokenKey::AccessToken, grant.access_token.clone()));
                        writes.push((TokenKey::Expiry, expiry_text));
                        assert(write_views(writes@) =~= code_grant_writes(grant@, expiry_text@));
                        self.tokens.access_token = Some(grant.access_token);
                        self.tokens.expiry = Expiry::At(expiry);
                        self.stage = Stage::CheckAccessToken;
                        Ok(Step { writes, action: Action::Continue })
                    },
                    other => Err(refuse(&other)),
                }
            },
            (Stage::CheckAccessToken, Event::Proceed) => {
                match self.tokens.needs_refresh(now) {
                    Err(e) => Err(e),
                    Ok(false) => {
                        self.stage = Stage::Ready;
                        Ok(step_without_writes(Action::Done))
                    },
                    Ok(true) => match &self.tokens.refresh_token {
                        None => Err(CredentialError::NoRefreshToken),
                        Some(token) => {
                            let form = refresh_grant_form(token.as_str(), config);
                            self.stage = Stage::AwaitingRefreshGrant;
                            Ok(step_without_writes(Action::Post { form }))
                        },
                    },
                }
            },
            (Stage::AwaitingRefreshGrant, Event::Response(reply)) => {
                match reply {
                    Reply::Granted { grant, expiry, expiry_text } => {
                        let mut writes: Vec<(TokenKey, String)> = Vec::new();
                        writes.push((TokenKey::Expiry, expiry_text));
                        writes.push((TokenKey::AccessToken, grant.access_token.clone()));
                        assert(write_views(writes@) =~= refresh_grant_writes(
                            grant@,
                            expiry_text@,
                        ));
                        self.tokens.access_token = Some(grant.access_token);
                        self.tokens.expiry = Expiry::At(expiry);
                        self.stage = Stage::Ready;
                        Ok(Step { writes, action: Action::Done })
                    },
                    other => Err(refuse(&other)),
                }
            },
            (Stage::AwaitingCodeGrant, Event::TransportFailed) => Err(CredentialError::Transport),
            (Stage::AwaitingRefreshGrant, Event::TransportFailed) => Err(
                CredentialError::Transport,
            ),
            _ => Err(CredentialError::UnexpectedEvent),
        }
    }
}

/// The steps come in their order: a step that succeeds takes the manager to
/// a later stage, so each of the three checks is made at most once, and it is
/// done exactly when it is ready.
pub proof fn lemma_steps_go_forward(
    m: ManagerView,
    config: ClientConfigView,
    event: EventView,
    now: Instant,
)
    ensures
        transition(m, config, event, now) matches Ok((next, step)) ==> {
            &&& m.stage.rank() < next.stage.rank()
            &&& step.action is Done <==> next.stage == Stage::Ready
            &&& step.action is Continue <==> next.stage == Stage::CheckRefreshToken || next.stage
                == Stage::CheckAccessToken
        },
{
}

/// The expiry boundary: an access token that expires at the present instant
/// has expired. The access check then asks for the refresh grant, with the
/// stored refresh token, and does not report the manager ready.
pub proof fn lemma_token_expiring_now_is_renewed(
    m: ManagerView,
    config: ClientConfigView,
    now: Instant,
)
    requires
        m.stage == Stage::CheckAccessToken,
        m.tokens.access_token is Some,
        m.tokens.expiry == Expiry::At(now),
    ensures
        renewal_due(m.tokens, now) == Ok::<bool, CredentialError>(true),
        m.tokens.refresh_token matches Some(token) ==> transition(
            m,
            config,
            EventView::Proceed,
            now,
        ) == Ok::<(ManagerView, StepView), CredentialError>(
            bare(
                m,
                Stage::AwaitingRefreshGrant,
                ActionView::Post { form: refresh_grant_fields(token, config) },
            ),
        ),
        m.tokens.refresh_token is None ==> transition(m, config, EventView::Proceed, now) == Err::<
            (ManagerView, StepView),
            CredentialError,
        >(CredentialError::NoRefreshToken),
{
}

/// Where the access check reports the manager ready, an access token is
/// stored and it expires after the present instant.
pub proof fn lemma_ready_after_check_means_valid(
    m: ManagerView,
    config: ClientConfigView,
    now: Instant,
)
    requires
        m.stage == Stage::CheckAccessToken,
        transition(m, config, EventView::Proceed, now) is Ok,
        transition(m, config, EventView::Proceed, now)->Ok_0.1.action is Done,
    ensures
        m.tokens.access_token is Some,
        m.tokens.expiry is At,
        !m.tokens.expiry->At_0.at_or_before(now),
{
}

} // verus!
