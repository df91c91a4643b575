use std::collections::HashMap;

use p0nygramm::db_api::db_result::{SessionData, SessionErrorType};
use p0nygramm::db_api::redis::{
    check_session_exist, create_session, create_session_result, destroy_session, destroy_session_result,
    get_session_data, probe_session_commands, read_session_commands, renew_session, renew_session_result,
    session_lts_key, session_user_id_key, should_renew, IdStep, ProbeReply, ReadReply, SessionIdSearch,
    StoreCommand, StoreValue, LTS_DURATION_SECS, clock_is_in_range, resolve_outcome, MAX_CLOCK, MAX_ID_ATTEMPTS, STS_DURATION_SECS, TTL_BUFFER,
};
use p0nygramm::security::new_session_id;

/// An in-memory TTL store with a clock that the test moves.
struct StubStore {
    now: i64,
    keys: HashMap<String, (StoreValue, i64)>,
}

#[derive(Debug, Clone, PartialEq)]
enum Answer {
    Value(Option<StoreValue>),
    Ttl(i64),
    Done,
}

impl StubStore {
    fn new(now: i64) -> StubStore {
        StubStore { now, keys: HashMap::new() }
    }

    fn live(&self, key: &str) -> Option<(StoreValue, i64)> {
        match self.keys.get(key) {
            Some(&(v, exp)) if exp > self.now => Some((v, exp)),
            _ => None,
        }
    }

    fn run(&mut self, tx: &[StoreCommand]) -> Vec<Answer> {
        let mut out = Vec::new();
        for c in tx {
            match c {
                StoreCommand::Get { key } => out.push(Answer::Value(self.live(key).map(|e| e.0))),
                StoreCommand::Ttl { key } => out.push(Answer::Ttl(match self.live(key) {
                    Some((_, exp)) => exp - self.now,
                    None => -2,
                })),
                StoreCommand::SetEx { key, value, ttl_secs } => {
                    self.keys.insert(key.clone(), (*value, self.now + *ttl_secs as i64));
                    out.push(Answer::Done);
                },
                StoreCommand::Expire { key, ttl_secs } => {
                    if let Some((v, _)) = self.live(key) {
                        self.keys.insert(key.clone(), (v, self.now + *ttl_secs as i64));
                    }
                    out.push(Answer::Done);
                },
                StoreCommand::Del { key } => {
                    self.keys.remove(key);
                    out.push(Answer::Done);
                },
            }
        }
        out
    }

    fn read(&mut self, id: &str) -> ReadReply {
        let a = self.run(&read_session_commands(id));
        match (&a[0], &a[1], &a[2]) {
            (Answer::Value(Some(StoreValue::Int(u))), Answer::Ttl(t), Answer::Value(Some(StoreValue::Flag(l)))) => {
                ReadReply::Found { user_id: *u, ttl_secs: *t as i32, is_lts: *l }
            },
            _ => ReadReply::Missing,
        }
    }

    fn probe(&mut self, id: &str) -> ProbeReply {
        let a = self.run(&probe_session_commands(id));
        match (&a[0], &a[1]) {
            (Answer::Value(Some(StoreValue::Int(u))), Answer::Ttl(t)) => ProbeReply::Found { user_id: *u, ttl_secs: *t as i32 },
            (Answer::Value(Some(_)), Answer::Ttl(t)) => ProbeReply::Found { user_id: 0, ttl_secs: *t as i32 },
            _ => ProbeReply::Missing,
        }
    }

    fn create(&mut self, id: &str, user_id: i32, is_lts: bool) -> SessionData {
        let (tx, session) = create_session(id.to_string(), user_id, is_lts, self.now);
        self.run(&tx);
        create_session_result(session, true).ok().unwrap()
    }
}

const START: i64 = 1_600_000_000;

/// A well-formed session id: the tag, padded with `x` to 32 characters.
fn sid(tag: &str) -> String {
    format!("{:x<32}", tag)
}

#[test]
fn end_to_end_session_lifecycle() {
    let mut store = StubStore::new(START);
    let id = new_session_id();
    assert_eq!(store.probe(&id), ProbeReply::Missing);
    let created = store.create(&id, 7, false);
    assert_eq!(created.session_id, id);
    assert_eq!(created.user_id, 7);
    assert!(!created.is_lts);
    assert_eq!(created.expire_datetime, START + 24 * 3600);

    let reply = store.read(&id);
    let read = get_session_data(&id, store.now, reply).ok().unwrap();
    assert_eq!(read.user_id, 7);
    assert!(!read.is_lts);
    assert_eq!(read.expire_datetime, START + 24 * 3600);
    assert!(renew_session(&read, store.now, false).is_none());

    // 11 hours of life left: below half of a day, so the read renews.
    store.now = START + 13 * 3600;
    let read = get_session_data(&id, store.now, store.read(&id)).ok().unwrap();
    assert_eq!(read.expire_datetime, START + 24 * 3600);
    let tx = renew_session(&read, store.now, false).expect("renewal is due");
    store.run(&tx);
    assert!(renew_session_result(true, true));
    let renewed = get_session_data(&id, store.now, store.read(&id)).ok().unwrap();
    assert_eq!(renewed.expire_datetime, store.now + 24 * 3600);

    let destroyed = destroy_session_result({
        store.run(&destroy_session(&id));
        true
    });
    assert!(destroyed.is_ok());
    let after = get_session_data(&id, store.now, store.read(&id));
    assert_eq!(after.err().unwrap().error_type, SessionErrorType::SessionInvalid);
}

#[test]
fn long_term_session_lasts_thirty_days() {
    let mut store = StubStore::new(START);
    let created = store.create(&sid("abc"), 3, true);
    assert_eq!(created.expire_datetime, START + 30 * 24 * 3600);
    let read = get_session_data(&sid("abc"), store.now, store.read(&sid("abc"))).ok().unwrap();
    assert!(read.is_lts);
    assert_eq!(read.expire_datetime, START + LTS_DURATION_SECS as i64);
}

#[test]
fn both_keys_share_one_ttl() {
    let mut store = StubStore::new(START);
    store.create(&sid("pair"), 5, false);
    let u = store.live(&session_user_id_key(&sid("pair"))).unwrap();
    let l = store.live(&session_lts_key(&sid("pair"))).unwrap();
    assert_eq!(u.1, l.1);
    assert_eq!(u.1, START + STS_DURATION_SECS as i64 + TTL_BUFFER as i64);
    assert_eq!(session_user_id_key("pair"), "sessions.pair.user_id");
    assert_eq!(session_lts_key("pair"), "sessions.pair.lts");

    store.now += 500;
    let read = get_session_data(&sid("pair"), store.now, store.read(&sid("pair"))).ok().unwrap();
    store.run(&renew_session(&read, store.now, true).unwrap());
    let u = store.live(&session_user_id_key(&sid("pair"))).unwrap();
    let l = store.live(&session_lts_key(&sid("pair"))).unwrap();
    assert_eq!(u.1, l.1);

    store.run(&destroy_session(&sid("pair")));
    assert!(store.live(&session_user_id_key(&sid("pair"))).is_none());
    assert!(store.live(&session_lts_key(&sid("pair"))).is_none());
}

#[test]
fn read_right_after_creation_reports_nominal_expiry() {
    let mut store = StubStore::new(START);
    store.create(&sid("fresh"), 9, false);
    store.now += 2;
    let read = get_session_data(&sid("fresh"), store.now, store.read(&sid("fresh"))).ok().unwrap();
    assert_eq!(read.expire_datetime, START + STS_DURATION_SECS as i64);
    assert!((read.expire_datetime - (store.now + 24 * 3600)).abs() <= 5);
}

#[test]
fn renewal_threshold_at_half_life() {
    let half = (STS_DURATION_SECS / 2) as i64;
    let now = START;
    let above = SessionData::new("x".to_string(), 1, now + half + 1, false);
    let at = SessionData::new("x".to_string(), 1, now + half, false);
    let below = SessionData::new("x".to_string(), 1, now + half - 1, false);
    assert!(!should_renew(&above, now, false));
    assert!(!should_renew(&at, now, false));
    assert!(should_renew(&below, now, false));
    assert!(should_renew(&above, now, true));
    let lts = SessionData::new("y".to_string(), 1, now + 15 * 24 * 3600 - 1, true);
    assert!(should_renew(&lts, now, false));
    let lts = SessionData::new("y".to_string(), 1, now + 15 * 24 * 3600 + 1, true);
    assert!(!should_renew(&lts, now, false));
    assert!(renew_session(&lts, now, false).is_none());
    assert!(renew_session_result(false, false));
    assert!(!renew_session_result(true, false));
}

#[test]
fn session_within_buffer_is_invalid() {
    let at_buffer = ReadReply::Found { user_id: 4, ttl_secs: TTL_BUFFER as i32, is_lts: false };
    let r = get_session_data("t", START, at_buffer);
    assert_eq!(r.err().unwrap().error_type, SessionErrorType::SessionInvalid);
    let just_above = ReadReply::Found { user_id: 4, ttl_secs: TTL_BUFFER as i32 + 1, is_lts: false };
    let s = get_session_data("t", START, just_above).ok().unwrap();
    assert_eq!(s.expire_datetime, START + 1);

    let mut store = StubStore::new(START);
    store.create(&sid("old"), 4, false);
    store.now = START + STS_DURATION_SECS as i64;
    let r = get_session_data(&sid("old"), store.now, store.read(&sid("old")));
    assert_eq!(r.err().unwrap().error_type, SessionErrorType::SessionInvalid);
}

#[test]
fn read_errors_keep_their_kind() {
    let r = get_session_data("t", START, ReadReply::Failed);
    assert_eq!(r.err().unwrap().error_type, SessionErrorType::DbError);
    let r = get_session_data("t", START, ReadReply::Missing);
    assert_eq!(r.err().unwrap().error_type, SessionErrorType::SessionInvalid);
    let r = get_session_data("t", START, ReadReply::Found { user_id: 0, ttl_secs: 1000, is_lts: false });
    assert_eq!(r.err().unwrap().error_type, SessionErrorType::SessionInvalid);
}

#[test]
fn destroy_twice_is_harmless() {
    let mut store = StubStore::new(START);
    store.create(&sid("gone"), 2, true);
    store.run(&destroy_session(&sid("gone")));
    assert!(destroy_session_result(true).is_ok());
    store.run(&destroy_session(&sid("gone")));
    assert!(destroy_session_result(true).is_ok());
    assert!(store.keys.is_empty());
    store.run(&destroy_session("never-created"));
    assert!(store.keys.is_empty());
    assert_eq!(destroy_session_result(false).err().unwrap().error_type, SessionErrorType::DbError);
}

#[test]
fn collision_forces_a_new_draw() {
    let mut store = StubStore::new(START);
    store.create(&sid("taken"), 1, false);
    let candidates = vec![sid("taken"), new_session_id()];
    let mut search = SessionIdSearch::new();
    let mut chosen = None;
    for id in &candidates {
        let probe = check_session_exist(store.probe(id));
        match search.on_probe(&probe) {
            IdStep::Accept => {
                chosen = Some(id.clone());
                break;
            },
            IdStep::Retry => continue,
            IdStep::GiveUp => break,
        }
    }
    assert_eq!(search.attempts, 2);
    let chosen = chosen.unwrap();
    assert_ne!(chosen, sid("taken"));
    let created = store.create(&chosen, 2, false);
    assert_ne!(created.session_id, sid("taken"));
    let first = get_session_data(&sid("taken"), store.now, store.read(&sid("taken"))).ok().unwrap();
    assert_eq!(first.user_id, 1);
}

#[test]
fn id_search_gives_up_after_bound() {
    let mut search = SessionIdSearch::new();
    let taken = check_session_exist(ProbeReply::Found { user_id: 3, ttl_secs: 1000 });
    assert_eq!(taken.as_ref().ok(), Some(&true));
    let mut steps = Vec::new();
    for _ in 0..MAX_ID_ATTEMPTS {
        steps.push(search.on_probe(&taken));
    }
    assert_eq!(steps[..4], [IdStep::Retry; 4]);
    assert_eq!(steps[4], IdStep::GiveUp);
    assert_eq!(SessionIdSearch::give_up_error().error_type, SessionErrorType::UnknownError);

    let mut search = SessionIdSearch::new();
    let failed = check_session_exist(ProbeReply::Failed);
    assert_eq!(failed.as_ref().err().unwrap().error_type, SessionErrorType::DbError);
    assert_eq!(search.on_probe(&failed), IdStep::Retry);
    assert_eq!(search.on_probe(&check_session_exist(ProbeReply::Missing)), IdStep::Accept);
}

#[test]
fn drawn_ids_are_distinct() {
    let mut seen = std::collections::HashSet::new();
    for _ in 0..200 {
        let id = new_session_id();
        assert_eq!(id.len(), 32);
        assert!(id.chars().all(|c| c.is_ascii_alphanumeric()));
        assert!(seen.insert(id));
    }
}

#[test]
fn failed_create_is_a_store_error() {
    let (_, session) = create_session(sid("z"), 1, false, START);
    let r = create_session_result(session, false);
    assert_eq!(r.err().unwrap().error_type, SessionErrorType::DbError);
}

#[test]
fn clock_bounds_and_failed_renewal() {
    assert!(clock_is_in_range(START));
    assert!(clock_is_in_range(-86_400));
    assert!(!clock_is_in_range(MAX_CLOCK + 1));
    assert!(!clock_is_in_range(-MAX_CLOCK - 1));
    let read = Ok(SessionData::new(sid("kept"), 8, START + 100, false));
    let (outcome, failed) = resolve_outcome(read, false);
    assert_eq!(outcome.ok().unwrap().user_id, 8);
    assert!(failed);
    let (outcome, failed) = resolve_outcome(get_session_data("q", START, ReadReply::Missing), false);
    assert!(outcome.is_err());
    assert!(!failed);
}

#[test]
fn probe_counts_only_valid_sessions_as_taken() {
    assert_eq!(check_session_exist(ProbeReply::Found { user_id: 3, ttl_secs: 31 }).ok(), Some(true));
    let near_expiry = check_session_exist(ProbeReply::Found { user_id: 3, ttl_secs: 30 });
    assert_eq!(near_expiry.as_ref().err().unwrap().error_type, SessionErrorType::UnknownError);
    let no_user = check_session_exist(ProbeReply::Found { user_id: 0, ttl_secs: 1000 });
    assert_eq!(no_user.as_ref().err().unwrap().error_type, SessionErrorType::UnknownError);
    assert_eq!(check_session_exist(ProbeReply::Missing).ok(), Some(false));
    // An invalid key still makes the search draw again.
    let mut search = SessionIdSearch::new();
    assert_eq!(search.on_probe(&near_expiry), IdStep::Retry);
}
