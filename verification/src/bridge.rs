//! The bridge core: the session lifecycle state machine, the player
//! lifecycle state machine, and the control facade. The engine's
//! opaque session and playback objects live outside this crate; here
//! each is modeled by an identity that the unverified shell keys its
//! handles by, so that the rebind-on-reconnect invariant — a playback
//! unit survives every login and logout, rebound to the current
//! session — is stated and proved rather than assumed.
use vstd::prelude::*;

use crate::errors::BridgeError;
use crate::errors::ErrorKind;
use crate::errors::connect_failed_msg;
use crate::errors::malformed_reference_msg;
use crate::errors::no_player_msg;
use crate::errors::no_session_msg;
use crate::errors::unrenderable_msg;
use crate::events::ExternalEvent;
use crate::events::InternalEvent;
use crate::events::event_renderable;
use crate::events::is_translation;
use crate::events::translate_event;
use crate::ident::IdFormat;
use crate::ident::IdentifierCodec;
use crate::ident::TrackId;
use crate::ident::parse_accepts;
use crate::ident::parsed_id;

verus! {

/// The session lifecycle phases.
#[derive(Clone, Copy, PartialEq, Eq, Structural, Debug)]
pub enum SessionPhase {
    /// No usable session: initial, after a failed login, after logout.
    Unauthenticated,
    /// A connect is in flight.
    Authenticating,
    /// The current session is usable.
    Authenticated,
}

/// The model of the playback unit: its identity, and the identity of
/// the session it is bound to. The unverified shell keys the engine's
/// real player handle by `unit_id`.
#[derive(Clone, Copy, PartialEq, Eq, Structural, Debug)]
pub struct PlayerUnit {
    pub unit_id: u64,
    pub bound_session: u64,
}

/// The two optional filesystem paths fixed at construction.
pub struct BridgeConfig {
    pub credentials_path: Option<String>,
    pub audio_cache_path: Option<String>,
}

/// The bridge core. All mutable bridge state has a single owner: the
/// host serializes its calls, so no locking is modeled.
pub struct LibrespotCore {
    /// Where the session lifecycle stands.
    pub phase: SessionPhase,
    /// Identity of the current session object.
    pub session_id: u64,
    /// Source of fresh identities; above every identity handed out.
    pub next_id: u64,
    /// Whether credentials are persisted at the configured path.
    pub store_credentials: bool,
    /// The playback unit, if one exists.
    pub player: Option<PlayerUnit>,
    /// The identifier codec this bridge is configured with.
    pub codec: IdentifierCodec,
    /// The construction-time configuration.
    pub config: BridgeConfig,
}

/// Largest identity the `u64` counter can hand out.
pub const ID_LIMIT: u64 = 0xffff_ffff_ffff_ffff;

impl LibrespotCore {
    /// Well-formedness: identities are below the counter, and the
    /// playback unit, if any, is bound to the current session.
    pub open spec fn wf(self) -> bool {
        &&& self.session_id < self.next_id
        &&& (self.player matches Some(u) ==> u.bound_session == self.session_id && u.unit_id
            < self.next_id)
    }
}

/// The playback unit after a session replacement: same unit, rebound
/// to the new session; absent stays absent.
pub open spec fn rebound(p: Option<PlayerUnit>, session_id: u64) -> Option<PlayerUnit> {
    match p {
        None => None,
        Some(u) => Some(PlayerUnit { unit_id: u.unit_id, bound_session: session_id }),
    }
}

/// State after a login attempt begins: the connect is in flight.
pub open spec fn spec_login_begin(b: LibrespotCore) -> LibrespotCore {
    LibrespotCore { phase: SessionPhase::Authenticating, ..b }
}

/// State after a connect succeeded: a fresh session replaces the old
/// one wholesale, the unit (if any) is rebound to it, and the
/// credential-persistence flag takes the requested value.
pub open spec fn spec_login_success(b: LibrespotCore, store: bool) -> LibrespotCore {
    LibrespotCore {
        phase: SessionPhase::Authenticated,
        session_id: b.next_id,
        next_id: (b.next_id + 1) as u64,
        store_credentials: store,
        player: rebound(b.player, b.next_id),
        ..b
    }
}

/// State after a connect failed: back to unauthenticated, everything
/// else untouched.
pub open spec fn spec_login_failure(b: LibrespotCore) -> LibrespotCore {
    LibrespotCore { phase: SessionPhase::Unauthenticated, ..b }
}

/// State after logout: a fresh empty session replaces the old one,
/// the unit (if any) is rebound to it — never destroyed — and
/// credential persistence is off.
pub open spec fn spec_logout(b: LibrespotCore) -> LibrespotCore {
    LibrespotCore {
        phase: SessionPhase::Unauthenticated,
        session_id: b.next_id,
        next_id: (b.next_id + 1) as u64,
        store_credentials: false,
        player: rebound(b.player, b.next_id),
        ..b
    }
}

/// State after a player-initialize request: a no-op if a unit exists,
/// else a fresh unit bound to the current session.
pub open spec fn spec_player_init(b: LibrespotCore) -> LibrespotCore {
    if b.player is Some {
        b
    } else {
        LibrespotCore {
            player: Some(PlayerUnit { unit_id: b.next_id, bound_session: b.session_id }),
            next_id: (b.next_id + 1) as u64,
            ..b
        }
    }
}

/// Whether a player-initialize request creates a unit.
pub open spec fn player_init_creates(b: LibrespotCore) -> bool {
    b.player is None
}

/// State after a player teardown: the unit and its event source are
/// released.
pub open spec fn spec_player_deinit(b: LibrespotCore) -> LibrespotCore {
    LibrespotCore { player: None, ..b }
}

impl LibrespotCore {
    /// A fresh bridge: unauthenticated, no playback unit, credential
    /// persistence on (the first successful login may persist), and
    /// the given codec form and paths.
    pub fn new(credentials_path: Option<String>, audio_cache_path: Option<String>, format: IdFormat) -> (b:
        LibrespotCore)
        ensures
            b.wf(),
            b.phase == SessionPhase::Unauthenticated,
            b.session_id == 0,
            b.next_id == 1,
            b.store_credentials == true,
            b.player is None,
            b.codec.format == format,
            b.config.credentials_path == credentials_path,
            b.config.audio_cache_path == audio_cache_path,
    {
        LibrespotCore {
            phase: SessionPhase::Unauthenticated,
            session_id: 0,
            next_id: 1,
            store_credentials: true,
            player: None,
            codec: IdentifierCodec::new(format),
            config: BridgeConfig { credentials_path, audio_cache_path },
        }
    }

    /// Marks a login attempt as in flight. The shell then asks the
    /// engine to connect with the host's access token and reports the
    /// outcome to `login_complete`.
    pub fn login_begin(&mut self)
        requires
            old(self).wf(),
        ensures
            final(self).wf(),
            *final(self) == spec_login_begin(*old(self)),
    {
        self.phase = SessionPhase::Authenticating;
    }

    /// Applies the outcome of the engine's connect attempt. On
    /// success the fresh session replaces the old one and an existing
    /// unit is rebound to it; on failure the bridge returns to
    /// unauthenticated and surfaces the normalized error.
    pub fn login_complete(&mut self, store_credentials: bool, outcome: Result<(), String>) -> (r:
        Result<(), BridgeError>)
        requires
            old(self).wf(),
            old(self).phase is Authenticating,
            old(self).next_id < ID_LIMIT,
        ensures
            final(self).wf(),
            outcome is Ok ==> *final(self) == spec_login_success(*old(self), store_credentials)
                && r is Ok,
            outcome matches Err(detail) ==> *final(self) == spec_login_failure(*old(self)) && (
            r matches Err(e) && e.kind == ErrorKind::Authentication && e.message@
                == connect_failed_msg(detail@)),
    {
        match outcome {
            Ok(()) => {
                let fresh = self.next_id;
                self.next_id = fresh + 1;
                self.session_id = fresh;
                self.store_credentials = store_credentials;
                self.phase = SessionPhase::Authenticated;
                match &self.player {
                    Some(u) => {
                        self.player = Some(
                            PlayerUnit { unit_id: u.unit_id, bound_session: fresh },
                        );
                    },
                    None => {},
                }
                Ok(())
            },
            Err(detail) => {
                self.phase = SessionPhase::Unauthenticated;
                Err(BridgeError::authentication_failed(detail.as_str()))
            },
        }
    }

    /// Logs out: replaces the session with a fresh empty one, rebinds
    /// an existing unit to it (playback state survives; network
    /// operations simply fail at the engine until the next login), and
    /// turns credential persistence off. Returns the path of the
    /// persisted-credential file the shell must best-effort delete, if
    /// persistence was active and a path is configured.
    pub fn logout(&mut self) -> (r: Option<String>)
        requires
            old(self).wf(),
            old(self).next_id < ID_LIMIT,
        ensures
            final(self).wf(),
            *final(self) == spec_logout(*old(self)),
            old(self).store_credentials ==> r == old(self).config.credentials_path,
            !old(self).store_credentials ==> r is None,
    {
        let to_delete: Option<String> = if self.store_credentials {
            match &self.config.credentials_path {
                Some(p) => Some(p.clone()),
                None => None,
            }
        } else {
            None
        };
        let fresh = self.next_id;
        self.next_id = fresh + 1;
        self.session_id = fresh;
        self.store_credentials = false;
        self.phase = SessionPhase::Unauthenticated;
        match &self.player {
            Some(u) => {
                self.player = Some(PlayerUnit { unit_id: u.unit_id, bound_session: fresh });
            },
            None => {},
        }
        to_delete
    }

    /// Initializes the playback unit. A no-op reporting `false` if one
    /// already exists — never a silent replacement — else a fresh unit
    /// bound to the current session, reporting `true`.
    pub fn player_init(&mut self) -> (created: bool)
        requires
            old(self).wf(),
            old(self).next_id < ID_LIMIT,
        ensures
            final(self).wf(),
            *final(self) == spec_player_init(*old(self)),
            created == player_init_creates(*old(self)),
            final(self).player is Some,
    {
        match &self.player {
            Some(_) => false,
            None => {
                let fresh = self.next_id;
                self.next_id = fresh + 1;
                self.player = Some(
                    PlayerUnit { unit_id: fresh, bound_session: self.session_id },
                );
                true
            },
        }
    }

    /// Tears the playback unit down, releasing it and its event
    /// source. A no-op if none exists.
    pub fn player_deinit(&mut self)
        requires
            old(self).wf(),
        ensures
            final(self).wf(),
            *final(self) == spec_player_deinit(*old(self)),
            final(self).player is None,
    {
        self.player = None;
    }

    /// Turns what the shell's poll of the event source yielded into
    /// the host's answer. No unit, or a closed or torn-down source
    /// (the poll yielded nothing), means "no event" — never a fault,
    /// since teardown commonly races with a pending poll. An event is
    /// translated one-for-one; a translation failure is an
    /// unrecoverable bridge-state error, not a dropped event.
    pub fn next_player_event(&self, received: Option<InternalEvent>) -> (r: Result<
        Option<ExternalEvent>,
        BridgeError,
    >)
        ensures
            self.player is None || received is None ==> r == Ok::<
                Option<ExternalEvent>,
                BridgeError,
            >(None),
            self.player is Some ==> (received matches Some(e) ==> ({
                &&& (r is Err) == !event_renderable(self.codec.format, e)
                &&& (r matches Ok(o) ==> o matches Some(x) && is_translation(
                    self.codec.format,
                    e,
                    x,
                ))
                &&& (r matches Err(err) ==> err.kind == ErrorKind::Identifier && err.message@
                    == unrenderable_msg())
            })),
    {
        if self.player.is_none() {
            return Ok(None);
        }
        match received {
            None => Ok(None),
            Some(e) => match translate_event(&self.codec, &e) {
                Ok(x) => Ok(Some(x)),
                Err(err) => Err(err),
            },
        }
    }
}

/// The load command the shell forwards to the engine's playback unit.
#[derive(Clone, Copy, PartialEq, Eq, Structural, Debug)]
pub struct LoadCommand {
    pub track: TrackId,
    pub start_playing: bool,
    pub position_ms: u32,
}

impl LibrespotCore {
    /// Checks and prepares a load: the reference must parse (fails
    /// fast on a malformed one) and a playback unit must exist.
    pub fn control_load(&self, track: &str, start_playing: bool, position_ms: u32) -> (r: Result<
        LoadCommand,
        BridgeError,
    >)
        ensures
            (r is Ok) == (parse_accepts(self.codec.format, track@) && self.player is Some),
            r matches Ok(c) ==> c.track == parsed_id(self.codec.format, track@)
                && c.start_playing == start_playing && c.position_ms == position_ms,
            !parse_accepts(self.codec.format, track@) ==> (r matches Err(e) && e.kind
                == ErrorKind::Identifier && e.message@ == malformed_reference_msg()),
            parse_accepts(self.codec.format, track@) && self.player is None ==> (
            r matches Err(e) && e.kind == ErrorKind::State && e.message@ == no_player_msg()),
    {
        let id = match self.codec.parse(track) {
            Ok(id) => id,
            Err(e) => {
                return Err(e);
            },
        };
        if self.player.is_none() {
            return Err(BridgeError::state_no_player());
        }
        Ok(LoadCommand { track: id, start_playing, position_ms })
    }

    /// Checks and prepares a preload of the given track reference.
    pub fn control_preload(&self, track: &str) -> (r: Result<TrackId, BridgeError>)
        ensures
            (r is Ok) == (parse_accepts(self.codec.format, track@) && self.player is Some),
            r matches Ok(id) ==> id == parsed_id(self.codec.format, track@),
            !parse_accepts(self.codec.format, track@) ==> (r matches Err(e) && e.kind
                == ErrorKind::Identifier && e.message@ == malformed_reference_msg()),
            parse_accepts(self.codec.format, track@) && self.player is None ==> (
            r matches Err(e) && e.kind == ErrorKind::State && e.message@ == no_player_msg()),
    {
        let id = match self.codec.parse(track) {
            Ok(id) => id,
            Err(e) => {
                return Err(e);
            },
        };
        if self.player.is_none() {
            return Err(BridgeError::state_no_player());
        }
        Ok(id)
    }

    /// Admits a pause only while a playback unit exists.
    pub fn control_pause(&self) -> (r: Result<(), BridgeError>)
        ensures
            (r is Ok) == (self.player is Some),
            r matches Err(e) ==> e.kind == ErrorKind::State && e.message@ == no_player_msg(),
    {
        if self.player.is_none() {
            return Err(BridgeError::state_no_player());
        }
        Ok(())
    }

    /// Admits a play only while a playback unit exists.
    pub fn control_play(&self) -> (r: Result<(), BridgeError>)
        ensures
            (r is Ok) == (self.player is Some),
            r matches Err(e) ==> e.kind == ErrorKind::State && e.message@ == no_player_msg(),
    {
        if self.player.is_none() {
            return Err(BridgeError::state_no_player());
        }
        Ok(())
    }

    /// Admits a stop only while a playback unit exists.
    pub fn control_stop(&self) -> (r: Result<(), BridgeError>)
        ensures
            (r is Ok) == (self.player is Some),
            r matches Err(e) ==> e.kind == ErrorKind::State && e.message@ == no_player_msg(),
    {
        if self.player.is_none() {
            return Err(BridgeError::state_no_player());
        }
        Ok(())
    }

    /// Admits a seek to the given position only while a playback unit
    /// exists.
    pub fn control_seek(&self, position_ms: u32) -> (r: Result<u32, BridgeError>)
        ensures
            (r is Ok) == (self.player is Some),
            r matches Ok(p) ==> p == position_ms,
            r matches Err(e) ==> e.kind == ErrorKind::State && e.message@ == no_player_msg(),
    {
        if self.player.is_none() {
            return Err(BridgeError::state_no_player());
        }
        Ok(position_ms)
    }

    /// Opens a lyrics request: an authenticated session is required
    /// before anything else is looked at — an unauthenticated bridge
    /// is refused with a state error before any reference is parsed,
    /// so no engine call is ever attempted for it — then the track
    /// reference must parse.
    pub fn lyrics_request(&self, track: &str) -> (r: Result<TrackId, BridgeError>)
        ensures
            (r is Ok) == (self.phase is Authenticated && parse_accepts(
                self.codec.format,
                track@,
            )),
            r matches Ok(id) ==> id == parsed_id(self.codec.format, track@),
            !(self.phase is Authenticated) ==> (r matches Err(e) && e.kind == ErrorKind::State
                && e.message@ == no_session_msg()),
            self.phase is Authenticated && !parse_accepts(self.codec.format, track@) ==> (
            r matches Err(e) && e.kind == ErrorKind::Identifier && e.message@
                == malformed_reference_msg()),
    {
        match self.phase {
            SessionPhase::Authenticated => {},
            _ => {
                return Err(BridgeError::state_no_session());
            },
        }
        self.codec.parse(track)
    }
}

/// One session-lifecycle step: the operations that begin, finish or
/// undo a login. These are the only operations that replace the
/// current session.
pub enum SessionOp {
    LoginBegin,
    LoginSuccess { store: bool },
    LoginFailure,
    Logout,
}

/// The state one session-lifecycle step leads to.
pub open spec fn apply_session_op(b: LibrespotCore, op: SessionOp) -> LibrespotCore {
    match op {
        SessionOp::LoginBegin => spec_login_begin(b),
        SessionOp::LoginSuccess { store } => spec_login_success(b, store),
        SessionOp::LoginFailure => spec_login_failure(b),
        SessionOp::Logout => spec_logout(b),
    }
}

/// The state a sequence of session-lifecycle steps leads to, applied
/// in order.
pub open spec fn apply_session_ops(b: LibrespotCore, ops: Seq<SessionOp>) -> LibrespotCore
    decreases ops.len(),
{
    if ops.len() == 0 {
        b
    } else {
        apply_session_ops(apply_session_op(b, ops.first()), ops.drop_first())
    }
}

/// Law: across every sequence of login and logout steps the bridge
/// stays well formed — the session phase only ever ranges over the
/// three lifecycle phases — and a playback unit that existed before
/// the sequence still exists after it, with the same identity, bound
/// to the then-current session: logins and logouts rebind the unit,
/// they never destroy or replace it. (The identity counter is a
/// machine `u64`; the bound on the step count keeps it from wrapping.)
pub proof fn lemma_session_ops_preserve_player(b: LibrespotCore, ops: Seq<SessionOp>)
    requires
        b.wf(),
        b.next_id + ops.len() <= ID_LIMIT,
    ensures
        apply_session_ops(b, ops).wf(),
        b.player matches Some(u) ==> (apply_session_ops(b, ops).player matches Some(u2)
            && u2.unit_id == u.unit_id && u2.bound_session == apply_session_ops(
            b,
            ops,
        ).session_id),
    decreases ops.len(),
{
    if ops.len() > 0 {
        let b1 = apply_session_op(b, ops.first());
        assert(b1.wf());
        assert(b1.next_id <= b.next_id + 1);
        lemma_session_ops_preserve_player(b1, ops.drop_first());
    }
}

/// Law: initializing the player twice in a row creates a unit the
/// first time and is a no-op the second — `true` then `false` — and
/// exactly one playback unit exists after both calls.
pub proof fn lemma_player_init_twice(b: LibrespotCore)
    requires
        b.wf(),
        b.player is None,
    ensures
        player_init_creates(b),
        !player_init_creates(spec_player_init(b)),
        spec_player_init(b).player is Some,
        spec_player_init(spec_player_init(b)) == spec_player_init(b),
{
}

} // verus!
