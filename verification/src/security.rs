//! Exit-password protection: setting the password with a security question,
//! checking it on exit with a lock-out after repeated failures, and resetting
//! it through the security answer. Secrets are stored as Argon2 hashes.

use vstd::prelude::*;
use vstd::utf8::encode_utf8;
use crate::config::{AppConfig, ConfigManager, SecurityConfig};
use crate::crypto;
use crate::clock;
use crate::text;
use crate::RuntimeFlags;

verus! {

broadcast use vstd::string::group_string_axioms;

/// Failed exit attempts allowed before the lock.
pub const MAX_FAILED_ATTEMPTS: u32 = 3;

/// Length of the lock, in minutes.
pub const LOCK_MINUTES: i64 = 5;

/// What the exit dialog shows.
#[derive(Debug)]
pub struct SecurityStatus {
    pub password_set: bool,
    pub security_question: Option<String>,
    pub lock_remaining_seconds: u64,
    pub remaining_attempts: u32,
    pub max_attempts: u32,
    pub safe_mode: bool,
}

/// The answer to an exit attempt. `ok` means the application may exit.
#[derive(Debug)]
pub struct VerifyResult {
    pub ok: bool,
    pub locked: bool,
    pub lock_remaining_seconds: u64,
    pub remaining_attempts: u32,
}

/// A password as checked and stored: surrounding whitespace removed.
pub open spec fn spec_normalize_password(password: Seq<char>) -> Seq<char> {
    text::spec_trim(password)
}

/// A security answer as checked and stored: trimmed and lower-cased.
pub open spec fn spec_normalize_answer(answer: Seq<char>) -> Seq<char> {
    text::spec_to_lowercase(text::spec_trim(answer))
}

/// Removes surrounding whitespace from a password.
pub fn normalize_password(password: &str) -> (r: String)
    ensures
        r@ == spec_normalize_password(password@),
{
    text::owned(text::trim(password))
}

/// Trims and lower-cases a security answer.
pub fn normalize_answer(answer: &str) -> (r: String)
    ensures
        r@ == spec_normalize_answer(answer@),
{
    text::to_lowercase(text::trim(answer))
}

/// What checking `secret` against the stored `hash` gives: whether it
/// matches, or the parse error of a hash that is not a password hash.
pub open spec fn spec_verify_secret(hash: Seq<char>, secret: Seq<char>) -> Result<bool, Seq<char>> {
    match crypto::spec_argon2_verify(hash, encode_utf8(secret)) {
        Some(b) => Ok(b),
        None => Err("解析密码哈希失败: "@ + crypto::spec_phc_parse_error(hash)),
    }
}

/// Hashes a secret with Argon2 and a fresh salt. A hash made of a secret
/// verifies that secret.
pub fn hash_secret(secret: &str) -> (r: Result<String, String>)
    ensures
        r matches Ok(h) ==> spec_verify_secret(h@, secret@) == Ok::<bool, Seq<char>>(true),
        r matches Err(e) ==> exists|m: Seq<char>| e@ == "密码哈希失败: "@ + m,
{
    match crypto::argon2_hash_password(secret.as_bytes()) {
        Ok(h) => Ok(h),
        Err(e) => Err(text::concat2("密码哈希失败: ", e.as_str())),
    }
}

/// Checks a secret against a stored hash.
pub fn verify_secret(hash: &str, secret: &str) -> (r: Result<bool, String>)
    ensures
        match r {
            Ok(b) => spec_verify_secret(hash@, secret@) == Ok::<bool, Seq<char>>(b),
            Err(e) => spec_verify_secret(hash@, secret@) == Err::<bool, Seq<char>>(e@),
        },
{
    match crypto::argon2_verify(hash, secret.as_bytes()) {
        Ok(b) => Ok(b),
        Err(e) => Err(text::concat2("解析密码哈希失败: ", e.as_str())),
    }
}

/// The seconds left of a lock that lies `seconds_until` seconds ahead
/// (`None`: its time does not parse): the positive part, else none.
pub open spec fn spec_lock_remaining_from(seconds_until: Option<i64>) -> u64 {
    match seconds_until {
        Some(d) => if d > 0 { d as u64 } else { 0 },
        None => 0,
    }
}

/// The seconds left of a lock that lies `seconds_until` seconds ahead, as
/// read from the clock (`None` when its time does not parse).
pub fn lock_remaining_from(seconds_until: Option<i64>) -> (r: u64)
    ensures
        r == spec_lock_remaining_from(seconds_until),
{
    match seconds_until {
        Some(diff) => if diff > 0 { diff as u64 } else { 0 },
        None => 0,
    }
}

/// Seconds left of a lock: none without a lock or with a lock time that does
/// not parse or has passed; otherwise the whole seconds from now until the
/// lock time, as the clock reads them.
pub fn lock_remaining_seconds(lock_until: &Option<String>) -> (r: u64)
    ensures
        lock_until is None ==> r == 0,
        lock_until matches Some(s) && !clock::spec_rfc3339_valid(s@) ==> r == 0,
        lock_until matches Some(s) && clock::spec_rfc3339_valid(s@) ==> exists|d: i64|
            r == #[trigger] spec_lock_remaining_from(Some(d)),
{
    match lock_until {
        Some(until) => {
            let diff = clock::seconds_until_rfc3339(until.as_str());
            let r = lock_remaining_from(diff);
            assert(diff matches Some(d) ==> r == spec_lock_remaining_from(Some(d)));
            r
        },
        None => lock_remaining_from(None),
    }
}

/// Clears a stored lock that, by the clock's reading `lock_reading` of how
/// far ahead it lies, has run out (or whose time does not parse), together
/// with the failure count; anything else is kept.
pub fn reset_lock_with_reading(config_manager: &mut ConfigManager, lock_reading: Option<i64>)
    ensures
        final(config_manager).config_path() == old(config_manager).config_path(),
        final(config_manager).config() == (AppConfig {
            security: spec_attempt_start(old(config_manager).config().security, lock_reading),
            ..old(config_manager).config()
        }),
{
    let has_lock = config_manager.config_ref().security.lock_until.is_some();
    if has_lock && lock_remaining_from(lock_reading) == 0 {
        let mut security = config_manager.config_ref().security.duplicate();
        security.lock_until = None;
        security.failed_attempts = 0;
        config_manager.set_security(security);
    }
}

/// The clock's reading of a stored lock: seconds until its time (`None`
/// without a lock or when the time does not parse).
fn read_lock(config_manager: &ConfigManager) -> (r: Option<i64>)
    ensures
        config_manager.config().security.lock_until is None ==> r is None,
        config_manager.config().security.lock_until matches Some(t)
            ==> (r is Some <==> clock::spec_rfc3339_valid(t@)),
{
    match &config_manager.config_ref().security.lock_until {
        Some(t) => clock::seconds_until_rfc3339(t.as_str()),
        None => None,
    }
}

/// Clears a lock that has run out, with the failure count (the clock is
/// read once).
pub fn reset_lock_if_expired(config_manager: &mut ConfigManager) -> (r: Result<(), String>)
    ensures
        r is Ok,
        final(config_manager).config_path() == old(config_manager).config_path(),
        exists|lock_reading: Option<i64>| {
            &&& old(config_manager).config().security.lock_until is None ==> lock_reading is None
            &&& old(config_manager).config().security.lock_until matches Some(t)
                ==> (lock_reading is Some <==> clock::spec_rfc3339_valid(t@))
            &&& final(config_manager).config() == (AppConfig {
                security: #[trigger] spec_attempt_start(old(config_manager).config().security, lock_reading),
                ..old(config_manager).config()
            })
        },
{
    let lock_reading = read_lock(config_manager);
    reset_lock_with_reading(config_manager, lock_reading);
    Ok(())
}

/// `a - b`, or 0 when `b` exceeds `a`.
pub open spec fn spec_sat_sub(a: u32, b: u32) -> u32 {
    if b >= a { 0 } else { (a - b) as u32 }
}

/// Whether `s` is what the exit dialog shows for the stored state `sec`
/// after the lock check with the reading `lock_reading`.
pub open spec fn spec_security_status(
    s: SecurityStatus,
    sec: SecurityConfig,
    lock_reading: Option<i64>,
    safe_mode: bool,
) -> bool {
    let cur = spec_attempt_start(sec, lock_reading);
    &&& s.password_set == cur.password_hash is Some
    &&& s.security_question == cur.security_question
    &&& s.lock_remaining_seconds == spec_lock_left(sec, lock_reading)
    &&& s.remaining_attempts == spec_sat_sub(MAX_FAILED_ATTEMPTS, cur.failed_attempts)
    &&& s.max_attempts == MAX_FAILED_ATTEMPTS
    &&& s.safe_mode == safe_mode
}

/// The state the exit dialog needs, given the clock's reading of a stored
/// lock; a lock that ran out is cleared first.
pub fn security_status_with_reading(
    config_manager: &mut ConfigManager,
    runtime_flags: &RuntimeFlags,
    lock_reading: Option<i64>,
) -> (r: SecurityStatus)
    ensures
        final(config_manager).config_path() == old(config_manager).config_path(),
        final(config_manager).config() == (AppConfig {
            security: spec_attempt_start(old(config_manager).config().security, lock_reading),
            ..old(config_manager).config()
        }),
        spec_security_status(r, old(config_manager).config().security, lock_reading, runtime_flags.safe_mode),
{
    let has_lock = config_manager.config_ref().security.lock_until.is_some();
    let lock_remaining = if has_lock { lock_remaining_from(lock_reading) } else { 0 };
    reset_lock_with_reading(config_manager, lock_reading);
    let sec = &config_manager.config_ref().security;
    SecurityStatus {
        password_set: sec.password_hash.is_some(),
        security_question: match &sec.security_question {
            Some(q) => Some(q.clone()),
            None => None,
        },
        lock_remaining_seconds: lock_remaining,
        remaining_attempts: MAX_FAILED_ATTEMPTS.saturating_sub(sec.failed_attempts),
        max_attempts: MAX_FAILED_ATTEMPTS,
        safe_mode: runtime_flags.safe_mode,
    }
}

/// The state the exit dialog needs, after clearing a lock that ran out (the
/// clock is read once).
pub fn get_security_status(config_manager: &mut ConfigManager, runtime_flags: &RuntimeFlags) -> (r: Result<SecurityStatus, String>)
    ensures
        final(config_manager).config_path() == old(config_manager).config_path(),
        exists|lock_reading: Option<i64>| {
            &&& old(config_manager).config().security.lock_until is None ==> lock_reading is None
            &&& old(config_manager).config().security.lock_until matches Some(t)
                ==> (lock_reading is Some <==> clock::spec_rfc3339_valid(t@))
            &&& final(config_manager).config() == (AppConfig {
                security: #[trigger] spec_attempt_start(old(config_manager).config().security, lock_reading),
                ..old(config_manager).config()
            })
            &&& r matches Ok(s) && spec_security_status(s, old(config_manager).config().security, lock_reading,
                runtime_flags.safe_mode)
        },
{
    let lock_reading = read_lock(config_manager);
    Ok(security_status_with_reading(config_manager, runtime_flags, lock_reading))
}

/// The byte length of a string (`str::len`).
pub open spec fn spec_byte_len(s: Seq<char>) -> nat {
    encode_utf8(s).len()
}

/// Sets the exit password and security question the first time: the
/// password must be at least 4 bytes once trimmed, the question and the
/// answer must not be blank.
pub fn setup_password(
    config_manager: &mut ConfigManager,
    password: &str,
    security_question: &str,
    security_answer: &str,
) -> (r: Result<(), String>)
    ensures
        final(config_manager).config_path() == old(config_manager).config_path(),
        r is Err ==> *final(config_manager) == *old(config_manager),
        spec_byte_len(spec_normalize_password(password@)) < 4 ==> (r matches Err(e) && e@ == "密码长度至少4位"@),
        spec_byte_len(spec_normalize_password(password@)) >= 4 && text::spec_trim(security_question@).len() == 0
            ==> (r matches Err(e) && e@ == "请选择密保问题"@),
        spec_byte_len(spec_normalize_password(password@)) >= 4 && text::spec_trim(security_question@).len() != 0
            && spec_normalize_answer(security_answer@).len() == 0 ==> (r matches Err(e) && e@ == "请输入密保答案"@),
        spec_byte_len(spec_normalize_password(password@)) >= 4 && text::spec_trim(security_question@).len() != 0
            && spec_normalize_answer(security_answer@).len() != 0
            && old(config_manager).config().security.password_hash is Some ==> (r matches Err(e) && e@ == "密码已设置"@),
        spec_byte_len(spec_normalize_password(password@)) >= 4 && text::spec_trim(security_question@).len() != 0
            && spec_normalize_answer(security_answer@).len() != 0
            && old(config_manager).config().security.password_hash is None
            ==> r is Ok || (r matches Err(e) && exists|d: Seq<char>| e@ == "密码哈希失败: "@ + d),
        r is Ok ==> {
            let sec = final(config_manager).config().security;
            &&& old(config_manager).config().security.password_hash is None
            &&& final(config_manager).config() == (AppConfig { security: sec, ..old(config_manager).config() })
            &&& sec.password_hash matches Some(h)
                && spec_verify_secret(h@, spec_normalize_password(password@)) == Ok::<bool, Seq<char>>(true)
            &&& sec.security_question matches Some(q) && q@ == text::spec_trim(security_question@)
            &&& sec.security_answer_hash matches Some(a)
                && spec_verify_secret(a@, spec_normalize_answer(security_answer@)) == Ok::<bool, Seq<char>>(true)
            &&& sec.failed_attempts == 0
            &&& sec.lock_until is None
        },
{
    let password = normalize_password(password);
    if password.as_str().as_bytes().len() < 4 {
        return Err("密码长度至少4位".to_string());
    }
    let question = text::trim(security_question);
    if question.is_empty() {
        return Err("请选择密保问题".to_string());
    }
    let answer = normalize_answer(security_answer);
    if answer.as_str().is_empty() {
        return Err("请输入密保答案".to_string());
    }
    let already_set = match config_manager.get() {
        Ok(c) => c.security.password_hash.is_some(),
        Err(e) => return Err(e),
    };
    if already_set {
        return Err("密码已设置".to_string());
    }
    let password_hash = hash_secret(password.as_str())?;
    let answer_hash = hash_secret(answer.as_str())?;
    config_manager.set_security(SecurityConfig {
        password_hash: Some(password_hash),
        security_question: Some(text::owned(question)),
        security_answer_hash: Some(answer_hash),
        failed_attempts: 0,
        lock_until: None,
    });
    Ok(())
}

/// The password state with an expired lock cleared.
pub open spec fn spec_unlocked(sec: SecurityConfig) -> SecurityConfig {
    SecurityConfig { lock_until: None, failed_attempts: 0, ..sec }
}

/// One exit attempt with `password` against the state `mid` (after clearing
/// a lock that ran out), where `lock_remaining` seconds of a lock are left:
/// the answer `r` and the state `fin` it leaves.
pub open spec fn spec_exit_attempt(
    mid: SecurityConfig,
    lock_remaining: u64,
    password: Seq<char>,
    r: Result<VerifyResult, String>,
    fin: SecurityConfig,
) -> bool {
    if lock_remaining > 0 {
        r == Ok::<VerifyResult, String>(VerifyResult { ok: false, locked: true, lock_remaining_seconds: lock_remaining, remaining_attempts: 0 })
            && fin == mid
    } else if mid.password_hash is None {
        (r matches Err(e) && e@ == "未设置退出密码"@) && fin == mid
    } else if spec_normalize_password(password).len() == 0 {
        (r matches Err(e) && e@ == "请输入退出密码"@) && fin == mid
    } else {
        match spec_verify_secret(mid.password_hash->Some_0@, spec_normalize_password(password)) {
            Err(m) => (r matches Err(e) && e@ == m) && fin == mid,
            Ok(true) => r == Ok::<VerifyResult, String>(VerifyResult { ok: true, locked: false, lock_remaining_seconds: 0, remaining_attempts: MAX_FAILED_ATTEMPTS })
                && fin == (SecurityConfig { failed_attempts: 0, lock_until: None, ..mid }),
            Ok(false) => {
                let failed = mid.failed_attempts + 1;
                if failed >= MAX_FAILED_ATTEMPTS {
                    &&& r == Ok::<VerifyResult, String>(VerifyResult {
                        ok: false,
                        locked: true,
                        lock_remaining_seconds: (LOCK_MINUTES * 60) as u64,
                        remaining_attempts: 0,
                    })
                    &&& fin == (SecurityConfig { failed_attempts: failed as u32, lock_until: fin.lock_until, ..mid })
                    &&& fin.lock_until matches Some(u) && clock::spec_rfc3339_valid(u@)
                } else {
                    &&& r == Ok::<VerifyResult, String>(VerifyResult {
                        ok: false,
                        locked: false,
                        lock_remaining_seconds: 0,
                        remaining_attempts: (MAX_FAILED_ATTEMPTS - failed) as u32,
                    })
                    &&& fin == (SecurityConfig { failed_attempts: failed as u32, ..mid })
                }
            },
        }
    }
}

/// The state an exit attempt starts from: a lock whose reading shows it has
/// run out (or whose time does not parse) is cleared with the failure count;
/// otherwise the state as stored.
pub open spec fn spec_attempt_start(sec: SecurityConfig, lock_reading: Option<i64>) -> SecurityConfig {
    if sec.lock_until is Some && spec_lock_remaining_from(lock_reading) == 0 {
        spec_unlocked(sec)
    } else {
        sec
    }
}

/// Seconds of a lock left for an attempt: the positive part of the reading
/// when a lock is stored, none otherwise.
pub open spec fn spec_lock_left(sec: SecurityConfig, lock_reading: Option<i64>) -> u64 {
    if sec.lock_until is Some { spec_lock_remaining_from(lock_reading) } else { 0 }
}

/// One exit attempt with `password` from the stored state `sec`, where the
/// clock puts a stored lock `lock_reading` seconds ahead: the answer `r` and
/// the state `fin` it leaves.
pub open spec fn spec_exit_outcome(
    sec: SecurityConfig,
    lock_reading: Option<i64>,
    password: Seq<char>,
    r: Result<VerifyResult, String>,
    fin: SecurityConfig,
) -> bool {
    spec_exit_attempt(spec_attempt_start(sec, lock_reading), spec_lock_left(sec, lock_reading), password, r, fin)
}

/// An exit attempt (outside safe mode) given the clock's reading of the
/// stored lock: `lock_reading` is how many seconds ahead the lock time lies
/// (`None` when it does not parse; ignored when no lock is stored). A lock
/// still ahead refuses every password and is kept; a lock that ran out is
/// cleared with the failures; then a correct password clears the failures,
/// and a wrong one adds one, the third locking exit for five minutes.
pub fn exit_attempt_with_reading(
    config_manager: &mut ConfigManager,
    password: &str,
    lock_reading: Option<i64>,
) -> (r: Result<VerifyResult, String>)
    requires
        ({
            let start = spec_attempt_start(old(config_manager).config().security, lock_reading);
            spec_lock_left(old(config_manager).config().security, lock_reading) == 0 && start.password_hash is Some
                && spec_normalize_password(password@).len() != 0
                && spec_verify_secret(start.password_hash->Some_0@, spec_normalize_password(password@))
                    == Ok::<bool, Seq<char>>(false)
                ==> start.failed_attempts < u32::MAX
        }),
    ensures
        final(config_manager).config_path() == old(config_manager).config_path(),
        final(config_manager).config() == (AppConfig { security: final(config_manager).config().security, ..old(config_manager).config() }),
        spec_exit_outcome(old(config_manager).config().security, lock_reading, password@, r,
            final(config_manager).config().security),
{
    let ghost sec0 = config_manager.config().security;
    let has_lock = config_manager.config_ref().security.lock_until.is_some();
    let lock_remaining = if has_lock { lock_remaining_from(lock_reading) } else { 0 };
    reset_lock_with_reading(config_manager, lock_reading);
    let mut security = match config_manager.get() {
        Ok(c) => c.security,
        Err(e) => return Err(e),
    };
    let ghost mid = security;
    assert(mid == spec_attempt_start(sec0, lock_reading));
    assert(lock_remaining == spec_lock_left(sec0, lock_reading));
    if lock_remaining > 0 {
        let r = Ok(VerifyResult { ok: false, locked: true, lock_remaining_seconds: lock_remaining, remaining_attempts: 0 });
        assert(spec_exit_attempt(mid, lock_remaining, password@, r, final(config_manager).config().security));
        return r;
    }
    let password_hash = match &security.password_hash {
        Some(h) => h.clone(),
        None => {
            let r = Err("未设置退出密码".to_string());
            assert(spec_exit_attempt(mid, lock_remaining, password@, r, final(config_manager).config().security));
            return r;
        },
    };
    let normalized = normalize_password(password);
    if normalized.as_str().is_empty() {
        let r = Err("请输入退出密码".to_string());
        assert(spec_exit_attempt(mid, lock_remaining, password@, r, final(config_manager).config().security));
        return r;
    }
    let matched = match verify_secret(password_hash.as_str(), normalized.as_str()) {
        Ok(b) => b,
        Err(e) => {
            let r = Err(e);
            assert(spec_exit_attempt(mid, lock_remaining, password@, r, final(config_manager).config().security));
            return r;
        },
    };
    if matched {
        security.failed_attempts = 0;
        security.lock_until = None;
        config_manager.set_security(security);
        let r = Ok(VerifyResult { ok: true, locked: false, lock_remaining_seconds: 0, remaining_attempts: MAX_FAILED_ATTEMPTS });
        assert(spec_exit_attempt(mid, lock_remaining, password@, r, final(config_manager).config().security));
        return r;
    }
    security.failed_attempts = security.failed_attempts + 1;
    let mut locked = false;
    let mut lock_remaining_seconds: u64 = 0;
    if security.failed_attempts >= MAX_FAILED_ATTEMPTS {
        security.lock_until = Some(clock::rfc3339_minutes_from_now(LOCK_MINUTES));
        locked = true;
        lock_remaining_seconds = (LOCK_MINUTES * 60) as u64;
    }
    let remaining_attempts = MAX_FAILED_ATTEMPTS.saturating_sub(security.failed_attempts);
    config_manager.set_security(security);
    let r = Ok(VerifyResult { ok: false, locked, lock_remaining_seconds, remaining_attempts });
    assert(spec_exit_attempt(mid, lock_remaining, password@, r, final(config_manager).config().security));
    r
}

/// Checks the exit password (a granted exit is `ok`; the application then
/// exits). In safe mode the exit is granted at once. Otherwise the clock is
/// read once for a stored lock and the attempt is that of
/// `exit_attempt_with_reading` for the reading: while locked the attempt is
/// refused with the time left; a correct password clears the failures; a
/// wrong one counts, and the third in a row locks exit for five minutes.
pub fn verify_exit_password(config_manager: &mut ConfigManager, runtime_flags: &RuntimeFlags, password: &str) -> (r: Result<VerifyResult, String>)
    requires
        runtime_flags.safe_mode || old(config_manager).config().security.lock_until is Some
            || old(config_manager).config().security.password_hash is None
            || old(config_manager).config().security.failed_attempts < u32::MAX,
    ensures
        final(config_manager).config_path() == old(config_manager).config_path(),
        final(config_manager).config() == (AppConfig { security: final(config_manager).config().security, ..old(config_manager).config() }),
        runtime_flags.safe_mode ==> *final(config_manager) == *old(config_manager)
            && r == Ok::<VerifyResult, String>(VerifyResult { ok: true, locked: false, lock_remaining_seconds: 0, remaining_attempts: MAX_FAILED_ATTEMPTS }),
        !runtime_flags.safe_mode ==> exists|lock_reading: Option<i64>|
            #![trigger spec_exit_outcome(old(config_manager).config().security, lock_reading, password@, r, final(config_manager).config().security)]
            {
                &&& old(config_manager).config().security.lock_until matches Some(t)
                    ==> (lock_reading is Some <==> clock::spec_rfc3339_valid(t@))
                &&& old(config_manager).config().security.lock_until is None ==> lock_reading is None
                &&& spec_exit_outcome(old(config_manager).config().security, lock_reading, password@, r,
                    final(config_manager).config().security)
            },
{
    if runtime_flags.safe_mode {
        return Ok(VerifyResult { ok: true, locked: false, lock_remaining_seconds: 0, remaining_attempts: MAX_FAILED_ATTEMPTS });
    }
    let lock_reading = read_lock(config_manager);
    exit_attempt_with_reading(config_manager, password, lock_reading)
}

/// Sets a new exit password after the security answer is checked; the new
/// password must be at least 4 bytes once trimmed.
pub fn reset_password(config_manager: &mut ConfigManager, security_answer: &str, new_password: &str) -> (r: Result<(), String>)
    ensures
        final(config_manager).config_path() == old(config_manager).config_path(),
        r is Err ==> *final(config_manager) == *old(config_manager),
        old(config_manager).config().security.security_answer_hash is None
            ==> (r matches Err(e) && e@ == "未设置密保问题"@),
        old(config_manager).config().security.security_answer_hash is Some && spec_normalize_answer(security_answer@).len() == 0
            ==> (r matches Err(e) && e@ == "请输入密保答案"@),
        old(config_manager).config().security.security_answer_hash is Some && spec_normalize_answer(security_answer@).len() != 0
            ==> match spec_verify_secret(old(config_manager).config().security.security_answer_hash->Some_0@, spec_normalize_answer(security_answer@)) {
                Err(e) => (r matches Err(m) && m@ == e),
                Ok(false) => (r matches Err(m) && m@ == "密保答案不正确"@),
                Ok(true) => if spec_byte_len(spec_normalize_password(new_password@)) < 4 {
                    r matches Err(m) && m@ == "新密码长度至少4位"@
                } else {
                    r is Ok || (r matches Err(m) && exists|d: Seq<char>| m@ == "密码哈希失败: "@ + d)
                },
            },
        r is Ok ==> {
            let sec = final(config_manager).config().security;
            &&& old(config_manager).config().security.security_answer_hash matches Some(a)
                && spec_verify_secret(a@, spec_normalize_answer(security_answer@)) == Ok::<bool, Seq<char>>(true)
            &&& spec_byte_len(spec_normalize_password(new_password@)) >= 4
            &&& final(config_manager).config() == (AppConfig {
                security: SecurityConfig {
                    password_hash: sec.password_hash,
                    failed_attempts: 0,
                    lock_until: None,
                    ..old(config_manager).config().security
                },
                ..old(config_manager).config()
            })
            &&& sec.password_hash matches Some(h)
                && spec_verify_secret(h@, spec_normalize_password(new_password@)) == Ok::<bool, Seq<char>>(true)
        },
{
    let security = match config_manager.get() {
        Ok(c) => c.security,
        Err(e) => return Err(e),
    };
    let answer_hash = match &security.security_answer_hash {
        Some(h) => h.clone(),
        None => return Err("未设置密保问题".to_string()),
    };
    let normalized_answer = normalize_answer(security_answer);
    if normalized_answer.as_str().is_empty() {
        return Err("请输入密保答案".to_string());
    }
    if !verify_secret(answer_hash.as_str(), normalized_answer.as_str())? {
        return Err("密保答案不正确".to_string());
    }
    let new_password = normalize_password(new_password);
    if new_password.as_str().as_bytes().len() < 4 {
        return Err("新密码长度至少4位".to_string());
    }
    let new_hash = hash_secret(new_password.as_str())?;
    let mut next = security;
    next.password_hash = Some(new_hash);
    next.failed_attempts = 0;
    next.lock_until = None;
    config_manager.set_security(next);
    Ok(())
}

/// Three wrong exit passwords in a row, starting without failures or lock,
/// leave two attempts, then one, then lock exit for five minutes with a
/// lock time that parses. The clock readings play no part while no lock is
/// stored.
pub proof fn law_third_failure_locks(
    s0: SecurityConfig,
    password: Seq<char>,
    c1: Option<i64>,
    r1: Result<VerifyResult, String>,
    s1: SecurityConfig,
    c2: Option<i64>,
    r2: Result<VerifyResult, String>,
    s2: SecurityConfig,
    c3: Option<i64>,
    r3: Result<VerifyResult, String>,
    s3: SecurityConfig,
)
    requires
        s0.password_hash is Some,
        s0.failed_attempts == 0,
        s0.lock_until is None,
        spec_normalize_password(password).len() != 0,
        spec_verify_secret(s0.password_hash->Some_0@, spec_normalize_password(password)) == Ok::<bool, Seq<char>>(false),
        spec_exit_outcome(s0, c1, password, r1, s1),
        spec_exit_outcome(s1, c2, password, r2, s2),
        spec_exit_outcome(s2, c3, password, r3, s3),
    ensures
        r1 matches Ok(v) && !v.ok && !v.locked && v.remaining_attempts == 2,
        s1.failed_attempts == 1 && s1.lock_until is None,
        r2 matches Ok(v) && !v.ok && !v.locked && v.remaining_attempts == 1,
        s2.failed_attempts == 2 && s2.lock_until is None,
        r3 matches Ok(v) && !v.ok && v.locked && v.lock_remaining_seconds == 300 && v.remaining_attempts == 0,
        s3.failed_attempts == 3,
        s3.lock_until matches Some(u) && clock::spec_rfc3339_valid(u@),
{
}

/// While the clock puts a stored lock `left` seconds ahead, every password,
/// the right one included, is refused with that time left, and the stored
/// state is kept as it was.
pub proof fn law_active_lock_refuses(
    sec: SecurityConfig,
    left: i64,
    password: Seq<char>,
    r: Result<VerifyResult, String>,
    fin: SecurityConfig,
)
    requires
        sec.lock_until is Some,
        left > 0,
        spec_exit_outcome(sec, Some(left), password, r, fin),
    ensures
        r == Ok::<VerifyResult, String>(VerifyResult { ok: false, locked: true, lock_remaining_seconds: left as u64, remaining_attempts: 0 }),
        fin == sec,
{
}

/// Without a lock in force, a wrong password adds exactly one to the stored
/// failures (counted from zero when a lock had run out) and leaves
/// `3 - failures` attempts, none once locked.
pub proof fn law_failure_counts_one(
    sec: SecurityConfig,
    reading: Option<i64>,
    password: Seq<char>,
    r: Result<VerifyResult, String>,
    fin: SecurityConfig,
)
    requires
        spec_lock_left(sec, reading) == 0,
        spec_attempt_start(sec, reading).password_hash is Some,
        spec_normalize_password(password).len() != 0,
        spec_verify_secret(spec_attempt_start(sec, reading).password_hash->Some_0@, spec_normalize_password(password))
            == Ok::<bool, Seq<char>>(false),
        spec_attempt_start(sec, reading).failed_attempts < u32::MAX,
        spec_exit_outcome(sec, reading, password, r, fin),
    ensures
        fin.failed_attempts == spec_attempt_start(sec, reading).failed_attempts + 1,
        sec.lock_until is None ==> fin.failed_attempts == sec.failed_attempts + 1,
        r matches Ok(v) && !v.ok && v.remaining_attempts == spec_sat_sub(MAX_FAILED_ATTEMPTS, fin.failed_attempts)
            && v.locked == (fin.failed_attempts >= MAX_FAILED_ATTEMPTS),
{
}

/// Without a lock in force, the correct exit password is accepted and clears
/// the failures and the lock.
pub proof fn law_correct_password_accepted(
    sec: SecurityConfig,
    reading: Option<i64>,
    password: Seq<char>,
    r: Result<VerifyResult, String>,
    fin: SecurityConfig,
)
    requires
        spec_lock_left(sec, reading) == 0,
        sec.password_hash is Some,
        spec_normalize_password(password).len() != 0,
        spec_verify_secret(sec.password_hash->Some_0@, spec_normalize_password(password)) == Ok::<bool, Seq<char>>(true),
        spec_exit_outcome(sec, reading, password, r, fin),
    ensures
        r matches Ok(v) && v.ok && !v.locked,
        fin.failed_attempts == 0,
        fin.lock_until is None,
{
}

} // verus!
