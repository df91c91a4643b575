//! The session store. A session lives in a TTL key-value store as two keys,
//! `sessions.<id>.user_id` and `sessions.<id>.lts`, that always share one
//! time to live. Every change is one transaction (a list of commands that the
//! store runs atomically); this module builds those transactions and reads
//! the store's replies, and `StoreModel` says what a transaction does.
//!
//! Convention on expiry: the store keeps a session for its nominal duration
//! plus `TTL_BUFFER` seconds, both at creation and at renewal, and a reader is
//! told `expires_at = now + remaining_ttl - TTL_BUFFER`. A session whose
//! remaining time to live is at or below the buffer is invalid.

use vstd::prelude::*;
use crate::db_api::db_result::{SessionData, SessionError, SessionErrorType};
use crate::security::{all_ascii_alnum, SESSION_ID_LENGTH};
use crate::text::concat;
use vstd::string::StringExecFns;

verus! {

/// Long-term sessions ("keep me logged in") last 30 days without activity.
pub const LTS_DURATION_SECS: u64 = 2592000;

/// Short-term sessions last one day without activity.
pub const STS_DURATION_SECS: u64 = 86400;

/// Seconds of remaining life at or below which a session counts as expired.
pub const TTL_BUFFER: u64 = 30;

/// Largest distance from the Unix epoch, in seconds, of a clock value that
/// the store logic accepts; well past the calendar range of the time library.
pub const MAX_CLOCK: i64 = 8000000000000;

pub open spec fn clock_in_range(now: int) -> bool {
    -MAX_CLOCK <= now <= MAX_CLOCK
}

/// Whether a clock value is one the store logic accepts.
pub fn clock_is_in_range(now: i64) -> (r: bool)
    ensures
        r == clock_in_range(now as int),
{
    -MAX_CLOCK <= now && now <= MAX_CLOCK
}

pub open spec fn nominal_duration(is_lts: bool) -> int {
    if is_lts {
        LTS_DURATION_SECS as int
    } else {
        STS_DURATION_SECS as int
    }
}

/// Time to live that the store is given for a session's keys.
pub open spec fn stored_ttl(is_lts: bool) -> int {
    nominal_duration(is_lts) + TTL_BUFFER
}

/// Remaining life below which a session is renewed: half its nominal duration.
pub open spec fn renewal_breakpoint(is_lts: bool) -> int {
    nominal_duration(is_lts) / 2
}

pub open spec fn user_id_key(session_id: Seq<char>) -> Seq<char> {
    "sessions."@ + session_id + ".user_id"@
}

pub open spec fn lts_key(session_id: Seq<char>) -> Seq<char> {
    "sessions."@ + session_id + ".lts"@
}

pub fn session_duration_secs(is_lts: bool) -> (r: u64)
    ensures
        r == nominal_duration(is_lts),
{
    if is_lts {
        LTS_DURATION_SECS
    } else {
        STS_DURATION_SECS
    }
}

pub fn session_store_ttl_secs(is_lts: bool) -> (r: u64)
    ensures
        r == stored_ttl(is_lts),
{
    session_duration_secs(is_lts) + TTL_BUFFER
}

pub fn session_user_id_key(session_id: &str) -> (r: String)
    ensures
        r@ == user_id_key(session_id@),
{
    let mut key = concat("sessions.", session_id);
    key.append(".user_id");
    key
}

pub fn session_lts_key(session_id: &str) -> (r: String)
    ensures
        r@ == lts_key(session_id@),
{
    let mut key = concat("sessions.", session_id);
    key.append(".lts");
    key
}

/// A value held under one key of the store.
#[derive(Copy, Clone, Debug, PartialEq, Eq, Structural)]
pub enum StoreValue {
    Int(i32),
    Flag(bool),
}

/// One command of a store transaction.
pub enum StoreCommand {
    Get { key: String },
    Ttl { key: String },
    SetEx { key: String, value: StoreValue, ttl_secs: u64 },
    Expire { key: String, ttl_secs: u64 },
    Del { key: String },
}

pub ghost enum CommandView {
    Get(Seq<char>),
    Ttl(Seq<char>),
    SetEx(Seq<char>, StoreValue, int),
    Expire(Seq<char>, int),
    Del(Seq<char>),
}

impl View for StoreCommand {
    type V = CommandView;

    open spec fn view(&self) -> CommandView {
        match self {
            StoreCommand::Get { key } => CommandView::Get(key@),
            StoreCommand::Ttl { key } => CommandView::Ttl(key@),
            StoreCommand::SetEx { key, value, ttl_secs } => CommandView::SetEx(key@, *value, *ttl_secs as int),
            StoreCommand::Expire { key, ttl_secs } => CommandView::Expire(key@, *ttl_secs as int),
            StoreCommand::Del { key } => CommandView::Del(key@),
        }
    }
}

pub open spec fn tx_view(tx: Seq<StoreCommand>) -> Seq<CommandView> {
    tx.map_values(|c: StoreCommand| c@)
}

/// What the store holds: each key's value and the instant it expires.
pub type StoreModel = Map<Seq<char>, (StoreValue, int)>;

/// The key is there and has not expired at `now`.
pub open spec fn live(m: StoreModel, now: int, key: Seq<char>) -> bool {
    m.contains_key(key) && m[key].1 > now
}

/// One command, as the store runs it at `now`. `EXPIRE` on a key that is
/// not there does nothing.
pub open spec fn apply_command(m: StoreModel, now: int, c: CommandView) -> StoreModel {
    match c {
        CommandView::Get(_) => m,
        CommandView::Ttl(_) => m,
        CommandView::SetEx(k, v, ttl) => m.insert(k, (v, now + ttl)),
        CommandView::Expire(k, ttl) => if live(m, now, k) {
            m.insert(k, (m[k].0, now + ttl))
        } else {
            m
        },
        CommandView::Del(k) => m.remove(k),
    }
}

/// A transaction, run at one instant with nothing in between.
pub open spec fn apply_tx(m: StoreModel, now: int, tx: Seq<CommandView>) -> StoreModel
    decreases tx.len(),
{
    if tx.len() == 0 {
        m
    } else {
        apply_command(apply_tx(m, now, tx.drop_last()), now, tx.last())
    }
}

/// The two keys of a session are both there or both gone, and share one expiry.
pub open spec fn session_keys_paired(m: StoreModel, now: int, session_id: Seq<char>) -> bool {
    let u = user_id_key(session_id);
    let l = lts_key(session_id);
    &&& live(m, now, u) <==> live(m, now, l)
    &&& live(m, now, u) ==> m[u].1 == m[l].1
}

pub open spec fn create_tx(session_id: Seq<char>, user_id: i32, is_lts: bool) -> Seq<CommandView> {
    seq![
        CommandView::SetEx(user_id_key(session_id), StoreValue::Int(user_id), stored_ttl(is_lts)),
        CommandView::SetEx(lts_key(session_id), StoreValue::Flag(is_lts), stored_ttl(is_lts)),
    ]
}

pub open spec fn read_tx(session_id: Seq<char>) -> Seq<CommandView> {
    seq![
        CommandView::Get(user_id_key(session_id)),
        CommandView::Ttl(user_id_key(session_id)),
        CommandView::Get(lts_key(session_id)),
    ]
}

pub open spec fn probe_tx(session_id: Seq<char>) -> Seq<CommandView> {
    seq![CommandView::Get(user_id_key(session_id)), CommandView::Ttl(user_id_key(session_id))]
}

pub open spec fn renew_tx(session_id: Seq<char>, is_lts: bool) -> Seq<CommandView> {
    seq![
        CommandView::Expire(user_id_key(session_id), stored_ttl(is_lts)),
        CommandView::Expire(lts_key(session_id), stored_ttl(is_lts)),
    ]
}

pub open spec fn destroy_tx(session_id: Seq<char>) -> Seq<CommandView> {
    seq![CommandView::Del(user_id_key(session_id)), CommandView::Del(lts_key(session_id))]
}

/// The store's answer to the read transaction.
#[derive(Copy, Clone, Debug, PartialEq, Eq, Structural)]
pub enum ReadReply {
    /// Both keys were there; `ttl_secs` is the remaining life of the user id key.
    Found { user_id: i32, ttl_secs: i32, is_lts: bool },
    /// A key was missing (the store answered nil where a value was expected).
    Missing,
    /// The store could not be reached or refused the command.
    Failed,
}

/// The store's answer to the existence probe.
#[derive(Copy, Clone, Debug, PartialEq, Eq, Structural)]
pub enum ProbeReply {
    /// The user id key is there; `ttl_secs` is its remaining life.
    Found { user_id: i32, ttl_secs: i32 },
    /// The key is not there (the store answered nil).
    Missing,
    /// The store could not be reached or refused the command.
    Failed,
}

/// What a store in state `m` answers to the read transaction at `now`.
pub open spec fn read_reply_of(m: StoreModel, now: int, session_id: Seq<char>) -> ReadReply {
    let u = user_id_key(session_id);
    let l = lts_key(session_id);
    if live(m, now, u) && live(m, now, l) && m[u].0 is Int && m[l].0 is Flag {
        ReadReply::Found { user_id: m[u].0->Int_0, ttl_secs: (m[u].1 - now) as i32, is_lts: m[l].0->Flag_0 }
    } else {
        ReadReply::Missing
    }
}

/// What a store in state `m` answers to the existence probe at `now`.
/// A value under the key that is no user id reads as user id 0.
pub open spec fn probe_reply_of(m: StoreModel, now: int, session_id: Seq<char>) -> ProbeReply {
    let u = user_id_key(session_id);
    if live(m, now, u) {
        ProbeReply::Found {
            user_id: if m[u].0 is Int { m[u].0->Int_0 } else { 0 },
            ttl_secs: (m[u].1 - now) as i32,
        }
    } else {
        ProbeReply::Missing
    }
}

/// A reply that describes a usable session.
pub open spec fn reply_is_valid(user_id: i32, ttl_secs: i32) -> bool {
    user_id > 0 && ttl_secs > TTL_BUFFER
}

pub open spec fn reported_expiry(now: int, ttl_secs: int) -> int {
    now + ttl_secs - TTL_BUFFER
}

fn create_commands(session_id: &str, is_lts: bool, value_user: i32) -> (r: Vec<StoreCommand>)
    ensures
        tx_view(r@) == create_tx(session_id@, value_user, is_lts),
{
    let ttl = session_store_ttl_secs(is_lts);
    let mut tx: Vec<StoreCommand> = Vec::new();
    tx.push(StoreCommand::SetEx { key: session_user_id_key(session_id), value: StoreValue::Int(value_user), ttl_secs: ttl });
    tx.push(StoreCommand::SetEx { key: session_lts_key(session_id), value: StoreValue::Flag(is_lts), ttl_secs: ttl });
    assert(tx_view(tx@) == create_tx(session_id@, value_user, is_lts));
    tx
}

/// The transaction that creates a session, and the session as its caller
/// sees it once the transaction has succeeded.
pub fn create_session(session_id: String, user_id: i32, is_lts: bool, now: i64) -> (r: (Vec<StoreCommand>, SessionData))
    requires
        clock_in_range(now as int),
        session_id@.len() == SESSION_ID_LENGTH,
        all_ascii_alnum(session_id@),
    ensures
        tx_view(r.0@) == create_tx(session_id@, user_id, is_lts),
        r.1.session_id == session_id,
        r.1.user_id == user_id,
        r.1.is_lts == is_lts,
        r.1.expire_datetime == now + nominal_duration(is_lts),
{
    let tx = create_commands(session_id.as_str(), is_lts, user_id);
    let expire = now + session_duration_secs(is_lts) as i64;
    (tx, SessionData::new(session_id, user_id, expire, is_lts))
}

/// The session a request ends with: a session that was read stays usable
/// for the request even where its renewal failed; that failure is only
/// reported, in the second part.
pub fn resolve_outcome(read: Result<SessionData, SessionError>, renewal_ok: bool) -> (r: (Result<SessionData, SessionError>, bool))
    ensures
        r.0 == read,
        r.1 == (read is Ok && !renewal_ok),
{
    let failed_renewal = read.is_ok() && !renewal_ok;
    (read, failed_renewal)
}

/// Result of `create_session` once the store has answered its transaction.
pub fn create_session_result(session: SessionData, write_ok: bool) -> (r: Result<SessionData, SessionError>)
    ensures
        write_ok ==> r == Ok::<SessionData, SessionError>(session),
        !write_ok ==> r is Err && r->Err_0.error_type == SessionErrorType::DbError,
{
    if write_ok {
        Ok(session)
    } else {
        Err(SessionError::new(SessionErrorType::DbError, "Erstellen der Redis Einträge fehlgeschlagen"))
    }
}

pub fn read_session_commands(session_id: &str) -> (r: Vec<StoreCommand>)
    ensures
        tx_view(r@) == read_tx(session_id@),
{
    let mut tx: Vec<StoreCommand> = Vec::new();
    tx.push(StoreCommand::Get { key: session_user_id_key(session_id) });
    tx.push(StoreCommand::Ttl { key: session_user_id_key(session_id) });
    tx.push(StoreCommand::Get { key: session_lts_key(session_id) });
    assert(tx_view(tx@) == read_tx(session_id@));
    tx
}

pub fn probe_session_commands(session_id: &str) -> (r: Vec<StoreCommand>)
    ensures
        tx_view(r@) == probe_tx(session_id@),
{
    let mut tx: Vec<StoreCommand> = Vec::new();
    tx.push(StoreCommand::Get { key: session_user_id_key(session_id) });
    tx.push(StoreCommand::Ttl { key: session_user_id_key(session_id) });
    assert(tx_view(tx@) == probe_tx(session_id@));
    tx
}

/// Whether a valid session is held under the id. A nil answer means no; a
/// key that is there but is no valid session (user id not above 0, or life
/// at or below the buffer) is an unknown error, which the id search counts
/// as a collision; a failure of the store is a store error.
pub fn check_session_exist(reply: ProbeReply) -> (r: Result<bool, SessionError>)
    ensures
        match reply {
            ProbeReply::Found { user_id, ttl_secs } => if reply_is_valid(user_id, ttl_secs) {
                r == Ok::<bool, SessionError>(true)
            } else {
                r is Err && r->Err_0.error_type == SessionErrorType::UnknownError
            },
            ProbeReply::Missing => r == Ok::<bool, SessionError>(false),
            ProbeReply::Failed => r is Err && r->Err_0.error_type == SessionErrorType::DbError,
        },
{
    match reply {
        ProbeReply::Found { user_id, ttl_secs } => {
            if user_id > 0 && ttl_secs > TTL_BUFFER as i32 {
                Ok(true)
            } else {
                Err(SessionError::new(SessionErrorType::UnknownError, "Unbekannter Fehler"))
            }
        },
        ProbeReply::Missing => Ok(false),
        ProbeReply::Failed => Err(SessionError::new(SessionErrorType::DbError, "Fehler beim Zugriff auf die Redis Datenbank")),
    }
}

/// The session that the read transaction's reply describes.
pub fn get_session_data(session_id: &str, now: i64, reply: ReadReply) -> (r: Result<SessionData, SessionError>)
    requires
        clock_in_range(now as int),
    ensures
        match reply {
            ReadReply::Found { user_id, ttl_secs, is_lts } => if reply_is_valid(user_id, ttl_secs) {
                &&& r is Ok
                &&& r->Ok_0.session_id@ == session_id@
                &&& r->Ok_0.user_id == user_id
                &&& r->Ok_0.is_lts == is_lts
                &&& r->Ok_0.expire_datetime == reported_expiry(now as int, ttl_secs as int)
            } else {
                r is Err && r->Err_0.error_type == SessionErrorType::SessionInvalid
            },
            ReadReply::Missing => r is Err && r->Err_0.error_type == SessionErrorType::SessionInvalid,
            ReadReply::Failed => r is Err && r->Err_0.error_type == SessionErrorType::DbError,
        },
{
    match reply {
        ReadReply::Found { user_id, ttl_secs, is_lts } => {
            if user_id > 0 && ttl_secs > TTL_BUFFER as i32 {
                let expire = now + (ttl_secs as i64 - TTL_BUFFER as i64);
                Ok(SessionData::new(session_id.to_owned(), user_id, expire, is_lts))
            } else {
                Err(SessionError::new(SessionErrorType::SessionInvalid, "Session ID ist ungültig"))
            }
        },
        ReadReply::Missing => Err(SessionError::new(SessionErrorType::SessionInvalid, "Session ID ist ungültig")),
        ReadReply::Failed => Err(SessionError::new(SessionErrorType::DbError, "Fehler beim Zugriff auf die Redis Datenbank")),
    }
}

/// Renewal is due when forced, or when less than half of the session's
/// nominal life remains.
pub open spec fn renewal_due(expire_datetime: int, is_lts: bool, now: int, force: bool) -> bool {
    force || expire_datetime < now + renewal_breakpoint(is_lts)
}

pub fn should_renew(session_data: &SessionData, now: i64, force_session_renew: bool) -> (r: bool)
    requires
        clock_in_range(now as int),
    ensures
        r == renewal_due(session_data.expire_datetime as int, session_data.is_lts, now as int, force_session_renew),
{
    if force_session_renew {
        true
    } else {
        let breakpoint = (session_duration_secs(session_data.is_lts) / 2) as i64;
        session_data.expire_datetime < now + breakpoint
    }
}

/// The transaction that renews a session, or `None` where no renewal is due
/// and the store is left alone.
pub fn renew_session(session_data: &SessionData, now: i64, force_session_renew: bool) -> (r: Option<Vec<StoreCommand>>)
    requires
        clock_in_range(now as int),
    ensures
        renewal_due(session_data.expire_datetime as int, session_data.is_lts, now as int, force_session_renew)
            ==> r is Some && tx_view(r->0@) == renew_tx(session_data.session_id@, session_data.is_lts),
        !renewal_due(session_data.expire_datetime as int, session_data.is_lts, now as int, force_session_renew)
            ==> r is None,
{
    if should_renew(session_data, now, force_session_renew) {
        let ttl = session_store_ttl_secs(session_data.is_lts);
        let id = session_data.session_id.as_str();
        let mut tx: Vec<StoreCommand> = Vec::new();
        tx.push(StoreCommand::Expire { key: session_user_id_key(id), ttl_secs: ttl });
        tx.push(StoreCommand::Expire { key: session_lts_key(id), ttl_secs: ttl });
        assert(tx_view(tx@) == renew_tx(session_data.session_id@, session_data.is_lts));
        Some(tx)
    } else {
        None
    }
}

/// Outcome of a renewal: success when none was due, else whether the
/// store ran the transaction.
pub fn renew_session_result(renewal_was_due: bool, write_ok: bool) -> (r: bool)
    ensures
        r == (!renewal_was_due || write_ok),
{
    !renewal_was_due || write_ok
}

pub fn destroy_session(session_id: &str) -> (r: Vec<StoreCommand>)
    ensures
        tx_view(r@) == destroy_tx(session_id@),
{
    let mut tx: Vec<StoreCommand> = Vec::new();
    tx.push(StoreCommand::Del { key: session_user_id_key(session_id) });
    tx.push(StoreCommand::Del { key: session_lts_key(session_id) });
    assert(tx_view(tx@) == destroy_tx(session_id@));
    tx
}

pub fn destroy_session_result(write_ok: bool) -> (r: Result<(), SessionError>)
    ensures
        write_ok <==> r is Ok,
        !write_ok ==> r->Err_0.error_type == SessionErrorType::DbError,
{
    if write_ok {
        Ok(())
    } else {
        Err(SessionError::new(SessionErrorType::DbError, "Fehler beim Zugriff auf die Redis Datenbank"))
    }
}

/// Draws of a fresh session id allowed before creation gives up.
pub const MAX_ID_ATTEMPTS: u8 = 5;

/// What to do after probing a freshly drawn session id.
#[derive(Copy, Clone, Debug, PartialEq, Eq, Structural)]
pub enum IdStep {
    /// The id is free: create the session under it.
    Accept,
    /// The id is taken, or the probe failed: draw another.
    Retry,
    /// The bound on draws is reached: creation fails.
    GiveUp,
}

/// The bounded search for a session id that no live session holds. A failed
/// probe counts as a collision.
pub struct SessionIdSearch {
    pub attempts: u8,
}

impl SessionIdSearch {
    pub open spec fn wf(&self) -> bool {
        self.attempts < MAX_ID_ATTEMPTS
    }

    pub fn new() -> (r: SessionIdSearch)
        ensures
            r.wf(),
            r.attempts == 0,
    {
        SessionIdSearch { attempts: 0 }
    }

    /// Records the probe of one drawn id and says what comes next. After
    /// `Retry` the search is still well formed, so the number of draws never
    /// exceeds `MAX_ID_ATTEMPTS`.
    pub fn on_probe(&mut self, probe: &Result<bool, SessionError>) -> (r: IdStep)
        requires
            old(self).wf(),
        ensures
            final(self).attempts == old(self).attempts + 1,
            (r == IdStep::Accept) <==> (probe is Ok && probe->Ok_0 == false),
            r == IdStep::Retry ==> final(self).wf(),
            r == IdStep::GiveUp <==> (!(probe is Ok && probe->Ok_0 == false) && final(self).attempts == MAX_ID_ATTEMPTS),
    {
        self.attempts = self.attempts + 1;
        let free = match probe {
            Ok(taken) => !*taken,
            Err(_) => false,
        };
        if free {
            IdStep::Accept
        } else if self.attempts < MAX_ID_ATTEMPTS {
            IdStep::Retry
        } else {
            IdStep::GiveUp
        }
    }

    pub fn give_up_error() -> (r: SessionError)
        ensures
            r.error_type == SessionErrorType::UnknownError,
    {
        SessionError::new(SessionErrorType::UnknownError, "Unbekannter Fehler")
    }
}

proof fn lemma_key_facts(a: Seq<char>, b: Seq<char>)
    ensures
        user_id_key(a) != lts_key(b),
        user_id_key(a) == user_id_key(b) ==> a == b,
        lts_key(a) == lts_key(b) ==> a == b,
{
    reveal_strlit("sessions.");
    reveal_strlit(".user_id");
    reveal_strlit(".lts");
    let ua = user_id_key(a);
    let lb = lts_key(b);
    assert(ua.last() == 'd');
    assert(lb.last() == 's');
    if user_id_key(a) == user_id_key(b) {
        assert(a =~= ua.subrange(9, 9 + a.len() as int));
        assert(b =~= user_id_key(b).subrange(9, 9 + b.len() as int));
    }
    if lts_key(a) == lts_key(b) {
        assert(a =~= lts_key(a).subrange(9, 9 + a.len() as int));
        assert(b =~= lb.subrange(9, 9 + b.len() as int));
    }
}

proof fn lemma_apply_pair(m: StoreModel, now: int, c0: CommandView, c1: CommandView)
    ensures
        apply_tx(m, now, seq![c0, c1]) == apply_command(apply_command(m, now, c0), now, c1),
{
    let tx = seq![c0, c1];
    assert(tx.drop_last() == seq![c0]);
    assert(seq![c0].drop_last() == Seq::<CommandView>::empty());
    assert(apply_tx(m, now, Seq::<CommandView>::empty()) == m);
    assert(apply_tx(m, now, seq![c0]) == apply_command(m, now, c0));
}

proof fn lemma_apply_reads(m: StoreModel, now: int, id: Seq<char>)
    ensures
        apply_tx(m, now, read_tx(id)) == m,
        apply_tx(m, now, probe_tx(id)) == m,
{
    let tx = read_tx(id);
    assert(tx.drop_last().drop_last().drop_last() == Seq::<CommandView>::empty());
    lemma_apply_pair(m, now, tx[0], tx[1]);
    assert(tx.drop_last() == seq![tx[0], tx[1]]);
    lemma_apply_pair(m, now, probe_tx(id)[0], probe_tx(id)[1]);
}

/// Every transaction of a session keeps its two keys paired: a reader never
/// finds one key without the other, nor the two with different expiries.
pub proof fn lemma_transactions_keep_keys_paired(m: StoreModel, now: int, id: Seq<char>, user_id: i32, is_lts: bool)
    requires
        session_keys_paired(m, now, id),
    ensures
        session_keys_paired(apply_tx(m, now, create_tx(id, user_id, is_lts)), now, id),
        session_keys_paired(apply_tx(m, now, renew_tx(id, is_lts)), now, id),
        session_keys_paired(apply_tx(m, now, destroy_tx(id)), now, id),
        session_keys_paired(apply_tx(m, now, read_tx(id)), now, id),
        session_keys_paired(apply_tx(m, now, probe_tx(id)), now, id),
{
    lemma_key_facts(id, id);
    let c = create_tx(id, user_id, is_lts);
    lemma_apply_pair(m, now, c[0], c[1]);
    let r = renew_tx(id, is_lts);
    lemma_apply_pair(m, now, r[0], r[1]);
    let d = destroy_tx(id);
    lemma_apply_pair(m, now, d[0], d[1]);
    lemma_apply_reads(m, now, id);
}

/// Creation on an id that the probe found free leaves every other live
/// session's keys as they were.
pub proof fn lemma_create_keeps_other_sessions(m: StoreModel, now: int, id: Seq<char>, user_id: i32, is_lts: bool, other: Seq<char>)
    requires
        probe_reply_of(m, now, id) == ProbeReply::Missing,
        live(m, now, user_id_key(other)),
    ensures
        other != id,
        ({
            let m2 = apply_tx(m, now, create_tx(id, user_id, is_lts));
            &&& m2[user_id_key(other)] == m[user_id_key(other)]
            &&& m2.contains_key(lts_key(other)) == m.contains_key(lts_key(other))
            &&& m.contains_key(lts_key(other)) ==> m2[lts_key(other)] == m[lts_key(other)]
        }),
{
    lemma_key_facts(other, id);
    lemma_key_facts(id, other);
    let c = create_tx(id, user_id, is_lts);
    lemma_apply_pair(m, now, c[0], c[1]);
}

/// A session read right after its creation has the user id and flag it was
/// created with, and expires after its nominal duration; read again at any
/// later instant of its life it still reports the same expiry.
pub proof fn lemma_created_session_reads_back(m: StoreModel, now: int, later: int, id: Seq<char>, user_id: i32, is_lts: bool)
    requires
        clock_in_range(now),
        user_id > 0,
        now <= later,
        later - now < nominal_duration(is_lts),
    ensures
        ({
            let m2 = apply_tx(m, now, create_tx(id, user_id, is_lts));
            let reply = read_reply_of(m2, later, id);
            &&& reply == ReadReply::Found { user_id, ttl_secs: (stored_ttl(is_lts) - (later - now)) as i32, is_lts }
            &&& reply_is_valid(user_id, (stored_ttl(is_lts) - (later - now)) as i32)
            &&& reported_expiry(later, stored_ttl(is_lts) - (later - now)) == now + nominal_duration(is_lts)
        }),
{
    lemma_key_facts(id, id);
    let c = create_tx(id, user_id, is_lts);
    lemma_apply_pair(m, now, c[0], c[1]);
}

/// Renewing a live session gives it back its full life: read at the same
/// instant it reports an expiry one nominal duration ahead, with its user id
/// and flag unchanged.
pub proof fn lemma_renewal_resets_life(m: StoreModel, now: int, id: Seq<char>, is_lts: bool)
    requires
        clock_in_range(now),
        read_reply_of(m, now, id) is Found,
    ensures
        ({
            let m2 = apply_tx(m, now, renew_tx(id, is_lts));
            let before = read_reply_of(m, now, id);
            let after = read_reply_of(m2, now, id);
            &&& after == ReadReply::Found {
                user_id: before->Found_user_id,
                ttl_secs: stored_ttl(is_lts) as i32,
                is_lts: before->Found_is_lts,
            }
            &&& reported_expiry(now, stored_ttl(is_lts)) == now + nominal_duration(is_lts)
        }),
{
    lemma_key_facts(id, id);
    let r = renew_tx(id, is_lts);
    lemma_apply_pair(m, now, r[0], r[1]);
}

/// Below half of the nominal life a read renews the session; at or above it,
/// only a forced read does.
pub proof fn lemma_renewal_threshold(expire_datetime: int, is_lts: bool, now: int)
    ensures
        expire_datetime - now < renewal_breakpoint(is_lts) ==> renewal_due(expire_datetime, is_lts, now, false),
        expire_datetime - now >= renewal_breakpoint(is_lts) ==> !renewal_due(expire_datetime, is_lts, now, false),
        renewal_due(expire_datetime, is_lts, now, true),
{
}

/// Destroying leaves no key of the session behind, and destroying again
/// changes nothing.
pub proof fn lemma_destroy_idempotent(m: StoreModel, now: int, id: Seq<char>)
    ensures
        ({
            let m1 = apply_tx(m, now, destroy_tx(id));
            &&& !m1.contains_key(user_id_key(id))
            &&& !m1.contains_key(lts_key(id))
            &&& apply_tx(m1, now, destroy_tx(id)) == m1
            &&& read_reply_of(m1, now, id) == ReadReply::Missing
        }),
{
    let d = destroy_tx(id);
    let m1 = apply_tx(m, now, d);
    lemma_apply_pair(m, now, d[0], d[1]);
    lemma_apply_pair(m1, now, d[0], d[1]);
    assert(m1.remove(user_id_key(id)) =~= m1);
    assert(m1.remove(lts_key(id)) =~= m1);
}

/// One session operation, as a transaction of the store.
pub ghost enum SessionOp {
    Create { user_id: i32, is_lts: bool },
    Renew { is_lts: bool },
    Destroy,
    Read,
    Probe,
}

pub open spec fn op_tx(id: Seq<char>, op: SessionOp) -> Seq<CommandView> {
    match op {
        SessionOp::Create { user_id, is_lts } => create_tx(id, user_id, is_lts),
        SessionOp::Renew { is_lts } => renew_tx(id, is_lts),
        SessionOp::Destroy => destroy_tx(id),
        SessionOp::Read => read_tx(id),
        SessionOp::Probe => probe_tx(id),
    }
}

/// The store after a schedule of transactions: each step is the instant it
/// runs at, the session id it concerns, and the operation.
pub open spec fn run_schedule(m: StoreModel, steps: Seq<(int, Seq<char>, SessionOp)>) -> StoreModel
    decreases steps.len(),
{
    if steps.len() == 0 {
        m
    } else {
        let (t, id, op) = steps.last();
        apply_tx(run_schedule(m, steps.drop_last()), t, op_tx(id, op))
    }
}

/// Steps run in order of time, none before `start`.
pub open spec fn schedule_in_order(start: int, steps: Seq<(int, Seq<char>, SessionOp)>) -> bool {
    &&& forall|i: int| 0 <= i < steps.len() ==> start <= #[trigger] steps[i].0
    &&& forall|i: int, j: int| 0 <= i < j < steps.len() ==> #[trigger] steps[i].0 <= #[trigger] steps[j].0
}

proof fn lemma_paired_later(m: StoreModel, now: int, later: int, id: Seq<char>)
    requires
        session_keys_paired(m, now, id),
        now <= later,
    ensures
        session_keys_paired(m, later, id),
{
}

proof fn lemma_other_op_keeps_keys(m: StoreModel, now: int, y: Seq<char>, op: SessionOp, x: Seq<char>)
    requires
        x != y,
    ensures
        apply_tx(m, now, op_tx(y, op))[user_id_key(x)] == m[user_id_key(x)],
        apply_tx(m, now, op_tx(y, op)).contains_key(user_id_key(x)) == m.contains_key(user_id_key(x)),
        apply_tx(m, now, op_tx(y, op))[lts_key(x)] == m[lts_key(x)],
        apply_tx(m, now, op_tx(y, op)).contains_key(lts_key(x)) == m.contains_key(lts_key(x)),
{
    lemma_key_facts(x, y);
    lemma_key_facts(y, x);
    lemma_apply_reads(m, now, y);
    let tx = op_tx(y, op);
    match op {
        SessionOp::Read => {},
        SessionOp::Probe => {},
        _ => {
            lemma_apply_pair(m, now, tx[0], tx[1]);
        },
    }
}

/// However the transactions of any sessions interleave, a reader of any
/// session at any later instant finds its two keys paired: both there with
/// one expiry, or both gone.
pub proof fn lemma_schedule_keeps_keys_paired(
    m: StoreModel,
    start: int,
    steps: Seq<(int, Seq<char>, SessionOp)>,
    x: Seq<char>,
    at: int,
)
    requires
        session_keys_paired(m, start, x),
        schedule_in_order(start, steps),
        steps.len() > 0 ==> steps.last().0 <= at,
        start <= at,
    ensures
        session_keys_paired(run_schedule(m, steps), at, x),
    decreases steps.len(),
{
    if steps.len() == 0 {
        lemma_paired_later(m, start, at, x);
    } else {
        let prefix = steps.drop_last();
        let (t, y, op) = steps.last();
        assert(schedule_in_order(start, prefix)) by {
            assert forall|i: int, j: int| 0 <= i < j < prefix.len() implies #[trigger] prefix[i].0 <= #[trigger] prefix[j].0 by {
                assert(prefix[i] == steps[i] && prefix[j] == steps[j]);
            }
            assert forall|i: int| 0 <= i < prefix.len() implies start <= #[trigger] prefix[i].0 by {
                assert(prefix[i] == steps[i]);
            }
        }
        assert(start <= t) by {
            assert(steps[steps.len() - 1].0 == t);
        }
        if prefix.len() > 0 {
            assert(prefix.last() == steps[steps.len() - 2]);
            assert(steps[steps.len() - 2].0 <= steps[steps.len() - 1].0);
        }
        lemma_schedule_keeps_keys_paired(m, start, prefix, x, t);
        let before = run_schedule(m, prefix);
        if y == x {
            match op {
                SessionOp::Create { user_id, is_lts } => lemma_transactions_keep_keys_paired(before, t, x, user_id, is_lts),
                SessionOp::Renew { is_lts } => lemma_transactions_keep_keys_paired(before, t, x, 0, is_lts),
                _ => lemma_transactions_keep_keys_paired(before, t, x, 0, false),
            }
        } else {
            lemma_other_op_keeps_keys(before, t, y, op, x);
        }
        lemma_paired_later(run_schedule(m, steps), t, at, x);
    }
}

/// Every step of the schedule creates a session, under an id that the
/// existence probe found free in the store just before it.
pub open spec fn probed_creations(m: StoreModel, steps: Seq<(int, Seq<char>, SessionOp)>) -> bool {
    forall|j: int|
        0 <= j < steps.len() ==> {
            &&& #[trigger] steps[j].2 is Create
            &&& probe_reply_of(run_schedule(m, steps.subrange(0, j)), steps[j].0, steps[j].1) == ProbeReply::Missing
        }
}

proof fn lemma_run_schedule_step(m: StoreModel, steps: Seq<(int, Seq<char>, SessionOp)>, k: int)
    requires
        0 <= k < steps.len(),
    ensures
        run_schedule(m, steps.subrange(0, k + 1)) == apply_tx(
            run_schedule(m, steps.subrange(0, k)),
            steps[k].0,
            op_tx(steps[k].1, steps[k].2),
        ),
{
    assert(steps.subrange(0, k + 1).drop_last() == steps.subrange(0, k));
    assert(steps.subrange(0, k + 1).last() == steps[k]);
}

proof fn lemma_created_key_stays(
    m: StoreModel,
    start: int,
    steps: Seq<(int, Seq<char>, SessionOp)>,
    i: int,
    k: int,
    t: int,
)
    requires
        probed_creations(m, steps),
        schedule_in_order(start, steps),
        0 <= i < k <= steps.len(),
        steps[i].0 <= t < steps[i].0 + STS_DURATION_SECS,
    ensures
        live(run_schedule(m, steps.subrange(0, k)), t, user_id_key(steps[i].1)),
    decreases k - i,
{
    let x = steps[i].1;
    let before = run_schedule(m, steps.subrange(0, k - 1));
    lemma_run_schedule_step(m, steps, k - 1);
    assert(steps[k - 1].2 is Create);
    let (tk, y, op) = steps[k - 1];
    lemma_key_facts(y, y);
    if k - 1 == i || y == x {
        if k - 1 > i {
            assert(steps[i].0 <= steps[k - 1].0);
        }
        let c = op_tx(y, op);
        lemma_apply_pair(before, tk, c[0], c[1]);
    } else {
        lemma_created_key_stays(m, start, steps, i, k - 1, t);
        lemma_other_op_keeps_keys(before, tk, y, op, x);
    }
}

/// Sessions created one after another, each under an id that the probe found
/// free, all get different ids while the first of them still lives.
pub proof fn lemma_probed_creations_are_distinct(m: StoreModel, start: int, steps: Seq<(int, Seq<char>, SessionOp)>)
    requires
        probed_creations(m, steps),
        schedule_in_order(start, steps),
        forall|j: int| 0 <= j < steps.len() ==> #[trigger] steps[j].0 < start + STS_DURATION_SECS,
    ensures
        forall|i: int, j: int| 0 <= i < j < steps.len() ==> #[trigger] steps[i].1 != #[trigger] steps[j].1,
{
    assert forall|i: int, j: int| 0 <= i < j < steps.len() implies #[trigger] steps[i].1 != #[trigger] steps[j].1 by {
        assert(start <= steps[i].0 <= steps[j].0);
        assert(steps[j].0 < start + STS_DURATION_SECS);
        lemma_created_key_stays(m, start, steps, i, j, steps[j].0);
        assert(steps[j].2 is Create);
    }
}

} // verus!
