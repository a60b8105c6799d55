//! Strict validation of identifiers, session descriptions, ICE candidates
//! and passwords that arrive from the network or the user, and a sliding
//! window rate limiter for client operations.
use vstd::prelude::*;
use vstd::string::*;
use vstd::utf8::*;
use vstd::hash_map::StringHashMap;
use crate::error::{plain, ErrorKind, GhostHandError, Result};
use crate::clock::{millis_u64, unix_millis, whole_millis};
use crate::text::{
    chars_of, concat, concat3, contains, contains_char, contains_seq, decimal, decimal_string,
    starts_with, starts_with_seq, string_of,
};
use std::collections::VecDeque;
use std::time::Duration;

verus! {

/// Bytes a device identifier may hold at most.
pub const MAX_DEVICE_ID_LENGTH: usize = 64;

/// Bytes a device identifier must hold at least.
pub const MIN_DEVICE_ID_LENGTH: usize = 5;

/// Bytes a session description may hold at most: 100 KiB.
pub const MAX_SDP_SIZE: usize = 102400;

/// Bytes an ICE candidate may hold at most.
pub const MAX_ICE_CANDIDATE_LENGTH: usize = 512;

/// Bytes a password may hold at most.
pub const MAX_PASSWORD_LENGTH: usize = 128;

/// A letter, a digit or a hyphen: the characters a device identifier may
/// hold.
pub open spec fn is_device_id_char(c: char) -> bool {
    ('a' <= c && c <= 'z') || ('A' <= c && c <= 'Z') || ('0' <= c && c <= '9') || c == '-'
}

/// A control character: U+0000 to U+001F and U+007F to U+009F.
pub open spec fn is_control(c: char) -> bool {
    (c as u32) < 0x20 || (0x7f <= (c as u32) && (c as u32) <= 0x9f)
}

/// Every character of `s` is allowed in a device identifier.
pub open spec fn all_device_id_chars(s: Seq<char>) -> bool {
    forall|i: int| 0 <= i < s.len() ==> is_device_id_char(#[trigger] s[i])
}

/// Every character of `s` is a hyphen.
pub open spec fn all_hyphens(s: Seq<char>) -> bool {
    forall|i: int| 0 <= i < s.len() ==> #[trigger] s[i] == '-'
}

/// Some character of `s` is a control character; with `line_breaks_allowed`,
/// carriage return and line feed do not count.
pub open spec fn has_forbidden_control(s: Seq<char>, line_breaks_allowed: bool) -> bool {
    exists|i: int|
        0 <= i < s.len() && is_control(#[trigger] s[i]) && !(line_breaks_allowed && (s[i] == '\r'
            || s[i] == '\n'))
}

/// Why a device identifier is refused.
pub enum DeviceIdProblem {
    TooShort,
    TooLong,
    InvalidCharacters,
    OnlyHyphens,
}

/// The first reason, in the order length, characters, hyphens, for which a
/// device identifier of `byte_len` bytes and characters `chars` is refused;
/// `None` where it is accepted.
pub open spec fn device_id_problem(byte_len: nat, chars: Seq<char>) -> Option<DeviceIdProblem> {
    if byte_len < MIN_DEVICE_ID_LENGTH {
        Some(DeviceIdProblem::TooShort)
    } else if byte_len > MAX_DEVICE_ID_LENGTH {
        Some(DeviceIdProblem::TooLong)
    } else if !all_device_id_chars(chars) {
        Some(DeviceIdProblem::InvalidCharacters)
    } else if all_hyphens(chars) {
        Some(DeviceIdProblem::OnlyHyphens)
    } else {
        None
    }
}

/// The message that reports `problem` for an identifier of `byte_len` bytes.
pub open spec fn device_id_message(problem: DeviceIdProblem, byte_len: nat) -> Seq<char> {
    match problem {
        DeviceIdProblem::TooShort => "Device ID trop court: "@ + decimal(byte_len)
            + " caractères (min: 5)"@,
        DeviceIdProblem::TooLong => "Device ID trop long: "@ + decimal(byte_len)
            + " caractères (max: 64)"@,
        DeviceIdProblem::InvalidCharacters =>
            "Device ID contient des caractères invalides (seuls a-z, A-Z, 0-9, - sont autorisés)"@,
        DeviceIdProblem::OnlyHyphens => "Device ID invalide: ne peut contenir que des tirets"@,
    }
}

fn device_id_char(c: char) -> (r: bool)
    ensures
        r == is_device_id_char(c),
{
    ('a' <= c && c <= 'z') || ('A' <= c && c <= 'Z') || ('0' <= c && c <= '9') || c == '-'
}

fn control_char(c: char) -> (r: bool)
    ensures
        r == is_control(c),
{
    let n: u32 = c as u32;
    n < 0x20 || (0x7f <= n && n <= 0x9f)
}

fn only_device_id_chars(chars: &Vec<char>) -> (r: bool)
    ensures
        r == all_device_id_chars(chars@),
{
    let mut i: usize = 0;
    while i < chars.len()
        invariant
            i <= chars.len(),
            forall|k: int| 0 <= k < i ==> is_device_id_char(#[trigger] chars@[k]),
        decreases chars.len() - i,
    {
        if !device_id_char(chars[i]) {
            return false;
        }
        i += 1;
    }
    true
}

fn only_hyphens(chars: &Vec<char>) -> (r: bool)
    ensures
        r == all_hyphens(chars@),
{
    let mut i: usize = 0;
    while i < chars.len()
        invariant
            i <= chars.len(),
            forall|k: int| 0 <= k < i ==> #[trigger] chars@[k] == '-',
        decreases chars.len() - i,
    {
        if chars[i] != '-' {
            return false;
        }
        i += 1;
    }
    true
}

fn validation_error(message: String) -> (r: Result<()>)
    ensures
        r matches Err(e) && e@ == plain(ErrorKind::Validation, message@),
{
    Err(GhostHandError::Validation(message))
}

/// Accepts a device identifier of 5 to 64 bytes made of letters, digits and
/// hyphens, not of hyphens alone; refuses any other with a validation error
/// that names the first rule broken.
pub fn validate_device_id(device_id: &str) -> (r: Result<()>)
    ensures
        match device_id_problem(device_id.len() as nat, device_id@) {
            None => r is Ok,
            Some(problem) => r matches Err(e) && e@ == plain(
                ErrorKind::Validation,
                device_id_message(problem, device_id.len() as nat),
            ),
        },
{
    let n = device_id.len();
    if n < MIN_DEVICE_ID_LENGTH {
        let count = decimal_string(n as u64);
        return validation_error(
            concat3("Device ID trop court: ", count.as_str(), " caractères (min: 5)"),
        );
    }
    if n > MAX_DEVICE_ID_LENGTH {
        let count = decimal_string(n as u64);
        return validation_error(
            concat3("Device ID trop long: ", count.as_str(), " caractères (max: 64)"),
        );
    }
    let chars = chars_of(device_id);
    if !only_device_id_chars(&chars) {
        return validation_error(
            "Device ID contient des caractères invalides (seuls a-z, A-Z, 0-9, - sont autorisés)".to_string(),
        );
    }
    if only_hyphens(&chars) {
        return validation_error(
            "Device ID invalide: ne peut contenir que des tirets".to_string(),
        );
    }
    Ok(())
}

/// An identifier that holds a character other than a letter, a digit or a
/// hyphen is never accepted, whatever its length: in particular none that
/// holds `@`, `#`, a space or a null character.
pub proof fn lemma_device_id_rejects_foreign_character(byte_len: nat, chars: Seq<char>, at: int)
    requires
        0 <= at < chars.len(),
        !is_device_id_char(chars[at]),
    ensures
        device_id_problem(byte_len, chars) is Some,
{
}

/// An identifier shorter than the minimum is never accepted; the empty
/// identifier is one such.
pub proof fn lemma_device_id_rejects_short(byte_len: nat, chars: Seq<char>)
    requires
        byte_len < MIN_DEVICE_ID_LENGTH,
    ensures
        device_id_problem(byte_len, chars) == Some(DeviceIdProblem::TooShort),
{
}

/// An identifier made of hyphens alone is never accepted.
pub proof fn lemma_device_id_rejects_hyphens(byte_len: nat, chars: Seq<char>)
    requires
        all_hyphens(chars),
    ensures
        device_id_problem(byte_len, chars) is Some,
{
}

/// An accepted identifier holds between 5 and 64 bytes, only letters, digits
/// and hyphens, and at least one character that is no hyphen.
pub proof fn lemma_device_id_accepted(byte_len: nat, chars: Seq<char>)
    requires
        device_id_problem(byte_len, chars) is None,
    ensures
        MIN_DEVICE_ID_LENGTH <= byte_len <= MAX_DEVICE_ID_LENGTH,
        all_device_id_chars(chars),
        exists|i: int| 0 <= i < chars.len() && chars[i] != '-',
{
}


fn forbidden_control(chars: &Vec<char>, line_breaks_allowed: bool) -> (r: bool)
    ensures
        r == has_forbidden_control(chars@, line_breaks_allowed),
{
    let mut i: usize = 0;
    while i < chars.len()
        invariant
            i <= chars.len(),
            forall|k: int|
                0 <= k < i ==> !(is_control(#[trigger] chars@[k]) && !(line_breaks_allowed && (
                chars@[k] == '\r' || chars@[k] == '\n'))),
        decreases chars.len() - i,
    {
        let c = chars[i];
        if control_char(c) && !(line_breaks_allowed && (c == '\r' || c == '\n')) {
            return true;
        }
        i += 1;
    }
    false
}

/// Why a session description is refused.
pub enum SdpProblem {
    Empty,
    TooLarge,
    MissingVersion,
    MissingLines,
    ControlCharacters,
}

/// What a session description begins with: `v=`.
pub open spec fn sdp_version_mark() -> Seq<char> {
    seq!['v', '=']
}

/// What opens the origin line of a session description: `o=`.
pub open spec fn sdp_origin_mark() -> Seq<char> {
    seq!['o', '=']
}

/// What opens the session line of a session description: `s=`.
pub open spec fn sdp_session_mark() -> Seq<char> {
    seq!['s', '=']
}

/// What opens a media line of a session description: `m=`.
pub open spec fn sdp_media_mark() -> Seq<char> {
    seq!['m', '=']
}

/// The first reason for which a session description of `byte_len` bytes and
/// characters `chars` is refused: it is empty, larger than 100 KiB, does not
/// begin with `v=`, lacks one of `o=`, `s=`, `m=`, or holds a control
/// character other than carriage return and line feed.
pub open spec fn sdp_problem(byte_len: nat, chars: Seq<char>) -> Option<SdpProblem> {
    if chars.len() == 0 {
        Some(SdpProblem::Empty)
    } else if byte_len > MAX_SDP_SIZE {
        Some(SdpProblem::TooLarge)
    } else if !starts_with_seq(chars, sdp_version_mark()) {
        Some(SdpProblem::MissingVersion)
    } else if !contains_seq(chars, sdp_origin_mark()) || !contains_seq(chars, sdp_session_mark())
        || !contains_seq(chars, sdp_media_mark()) {
        Some(SdpProblem::MissingLines)
    } else if has_forbidden_control(chars, true) {
        Some(SdpProblem::ControlCharacters)
    } else {
        None
    }
}

/// The message that reports `problem` for a description of `byte_len` bytes.
pub open spec fn sdp_message(problem: SdpProblem, byte_len: nat) -> Seq<char> {
    match problem {
        SdpProblem::Empty => "SDP vide"@,
        SdpProblem::TooLarge => "SDP trop grand: "@ + decimal(byte_len)
            + " bytes (max: 102400 bytes)"@,
        SdpProblem::MissingVersion => "SDP invalide: doit commencer par 'v='"@,
        SdpProblem::MissingLines => "SDP invalide: lignes obligatoires manquantes (o=, s=, m=)"@,
        SdpProblem::ControlCharacters => "SDP contient des caractères de contrôle invalides"@,
    }
}

fn mark(first: char) -> (v: Vec<char>)
    ensures
        v@ == seq![first, '='],
{
    let mut v: Vec<char> = Vec::new();
    v.push(first);
    v.push('=');
    assert(v@ =~= seq![first, '=']);
    v
}

/// Accepts a session description that is not empty, holds at most 100 KiB,
/// begins with `v=`, holds `o=`, `s=` and `m=`, and no control character but
/// carriage return and line feed; refuses any other with a validation error
/// that names the first rule broken.
pub fn validate_sdp(sdp: &str) -> (r: Result<()>)
    ensures
        match sdp_problem(sdp.len() as nat, sdp@) {
            None => r is Ok,
            Some(problem) => r matches Err(e) && e@ == plain(
                ErrorKind::Validation,
                sdp_message(problem, sdp.len() as nat),
            ),
        },
{
    if sdp.is_empty() {
        return validation_error("SDP vide".to_string());
    }
    let n = sdp.len();
    if n > MAX_SDP_SIZE {
        let count = decimal_string(n as u64);
        return validation_error(
            concat3("SDP trop grand: ", count.as_str(), " bytes (max: 102400 bytes)"),
        );
    }
    let chars = chars_of(sdp);
    if !starts_with(&chars, &mark('v')) {
        return validation_error("SDP invalide: doit commencer par 'v='".to_string());
    }
    let has_origin = contains(&chars, &mark('o'));
    let has_session = contains(&chars, &mark('s'));
    let has_media = contains(&chars, &mark('m'));
    if !has_origin || !has_session || !has_media {
        return validation_error(
            "SDP invalide: lignes obligatoires manquantes (o=, s=, m=)".to_string(),
        );
    }
    if forbidden_control(&chars, true) {
        return validation_error("SDP contient des caractères de contrôle invalides".to_string());
    }
    Ok(())
}

/// Why an ICE candidate is refused.
pub enum IceCandidateProblem {
    Empty,
    TooLong,
    MissingPrefix,
    ControlCharacters,
}

/// What every ICE candidate holds: `candidate:`.
pub open spec fn candidate_mark() -> Seq<char> {
    seq!['c', 'a', 'n', 'd', 'i', 'd', 'a', 't', 'e', ':']
}

/// The first reason for which an ICE candidate of `byte_len` bytes and
/// characters `chars` is refused: it is empty, longer than 512 bytes, does
/// not hold `candidate:`, or holds a control character.
pub open spec fn ice_candidate_problem(byte_len: nat, chars: Seq<char>) -> Option<
    IceCandidateProblem,
> {
    if chars.len() == 0 {
        Some(IceCandidateProblem::Empty)
    } else if byte_len > MAX_ICE_CANDIDATE_LENGTH {
        Some(IceCandidateProblem::TooLong)
    } else if !contains_seq(chars, candidate_mark()) {
        Some(IceCandidateProblem::MissingPrefix)
    } else if has_forbidden_control(chars, false) {
        Some(IceCandidateProblem::ControlCharacters)
    } else {
        None
    }
}

/// The message that reports `problem` for a candidate of `byte_len` bytes.
pub open spec fn ice_candidate_message(problem: IceCandidateProblem, byte_len: nat) -> Seq<char> {
    match problem {
        IceCandidateProblem::Empty => "ICE candidate vide"@,
        IceCandidateProblem::TooLong => "ICE candidate trop long: "@ + decimal(byte_len)
            + " caractères (max: 512)"@,
        IceCandidateProblem::MissingPrefix =>
            "ICE candidate invalide: doit contenir 'candidate:'"@,
        IceCandidateProblem::ControlCharacters =>
            "ICE candidate contient des caractères de contrôle invalides"@,
    }
}

fn candidate_mark_chars() -> (v: Vec<char>)
    ensures
        v@ == candidate_mark(),
{
    let mut v: Vec<char> = Vec::new();
    v.push('c');
    v.push('a');
    v.push('n');
    v.push('d');
    v.push('i');
    v.push('d');
    v.push('a');
    v.push('t');
    v.push('e');
    v.push(':');
    assert(v@ =~= candidate_mark());
    v
}

/// Accepts an ICE candidate that is not empty, holds at most 512 bytes,
/// holds `candidate:`, and no control character; refuses any other with a
/// validation error that names the first rule broken.
pub fn validate_ice_candidate(candidate: &str) -> (r: Result<()>)
    ensures
        match ice_candidate_problem(candidate.len() as nat, candidate@) {
            None => r is Ok,
            Some(problem) => r matches Err(e) && e@ == plain(
                ErrorKind::Validation,
                ice_candidate_message(problem, candidate.len() as nat),
            ),
        },
{
    if candidate.is_empty() {
        return validation_error("ICE candidate vide".to_string());
    }
    let n = candidate.len();
    if n > MAX_ICE_CANDIDATE_LENGTH {
        let count = decimal_string(n as u64);
        return validation_error(
            concat3("ICE candidate trop long: ", count.as_str(), " caractères (max: 512)"),
        );
    }
    let chars = chars_of(candidate);
    if !contains(&chars, &candidate_mark_chars()) {
        return validation_error(
            "ICE candidate invalide: doit contenir 'candidate:'".to_string(),
        );
    }
    if forbidden_control(&chars, false) {
        return validation_error(
            "ICE candidate contient des caractères de contrôle invalides".to_string(),
        );
    }
    Ok(())
}

/// Why a password is refused.
pub enum PasswordProblem {
    Empty,
    TooLong,
    NullCharacter,
}

/// The first reason for which a password of `byte_len` bytes and characters
/// `chars` is refused: it is empty, longer than 128 bytes, or holds a null
/// character.
pub open spec fn password_problem(byte_len: nat, chars: Seq<char>) -> Option<PasswordProblem> {
    if chars.len() == 0 {
        Some(PasswordProblem::Empty)
    } else if byte_len > MAX_PASSWORD_LENGTH {
        Some(PasswordProblem::TooLong)
    } else if chars.contains('\0') {
        Some(PasswordProblem::NullCharacter)
    } else {
        None
    }
}

/// The message that reports `problem` for a password of `byte_len` bytes.
pub open spec fn password_message(problem: PasswordProblem, byte_len: nat) -> Seq<char> {
    match problem {
        PasswordProblem::Empty => "Password vide"@,
        PasswordProblem::TooLong => "Password trop long: "@ + decimal(byte_len)
            + " caractères (max: 128)"@,
        PasswordProblem::NullCharacter => "Password contient des caractères nuls"@,
    }
}

/// Accepts a password that is not empty, holds at most 128 bytes and no null
/// character; refuses any other with a validation error that names the first
/// rule broken.
pub fn validate_password(password: &str) -> (r: Result<()>)
    ensures
        match password_problem(password.len() as nat, password@) {
            None => r is Ok,
            Some(problem) => r matches Err(e) && e@ == plain(
                ErrorKind::Validation,
                password_message(problem, password.len() as nat),
            ),
        },
{
    if password.is_empty() {
        return validation_error("Password vide".to_string());
    }
    let n = password.len();
    if n > MAX_PASSWORD_LENGTH {
        let count = decimal_string(n as u64);
        return validation_error(
            concat3("Password trop long: ", count.as_str(), " caractères (max: 128)"),
        );
    }
    let chars = chars_of(password);
    if contains_char(&chars, '\0') {
        return validation_error("Password contient des caractères nuls".to_string());
    }
    Ok(())
}

/// `s` with every control character replaced by a space.
pub open spec fn sanitized(s: Seq<char>) -> Seq<char> {
    Seq::new(s.len(), |i: int| if is_control(s[i]) { ' ' } else { s[i] })
}

/// What is kept of a text of `byte_len` bytes `bytes` and characters `chars`
/// for a log line of at most `max_len` bytes: the whole text where it fits,
/// else its first `max_len` bytes followed by a note that it was cut.
pub open spec fn truncated(byte_len: nat, bytes: Seq<u8>, chars: Seq<char>, max_len: nat) -> Seq<
    char,
> {
    if byte_len > max_len {
        decode_utf8(bytes.subrange(0, max_len as int)) + "... (tronqué)"@
    } else {
        chars
    }
}

/// Prepares a text for a log line: cuts it after `max_len` bytes, saying so,
/// and replaces every control character by a space. A cut must fall between
/// two characters.
pub fn sanitize_for_logging(input: &str, max_len: usize) -> (r: String)
    requires
        input.len() > max_len ==> is_char_boundary(input.spec_bytes(), max_len as int),
    ensures
        r@ == sanitized(truncated(input.len() as nat, input.spec_bytes(), input@, max_len as nat)),
{
    let kept: String = if input.len() > max_len {
        let (head, _tail) = input.split_at(max_len);
        proof {
            encode_utf8_decode_utf8(head@);
            assert(head.spec_bytes() == input.spec_bytes().subrange(0, max_len as int));
            assert(head@ == decode_utf8(input.spec_bytes().subrange(0, max_len as int)));
        }
        let cut = concat(head, "... (tronqué)");
        assert(cut@ == truncated(input.len() as nat, input.spec_bytes(), input@, max_len as nat));
        cut
    } else {
        let whole = String::from_str(input);
        assert(whole@ == truncated(input.len() as nat, input.spec_bytes(), input@, max_len as nat));
        whole
    };
    let chars = chars_of(kept.as_str());
    let mut out: Vec<char> = Vec::new();
    let mut i: usize = 0;
    while i < chars.len()
        invariant
            i <= chars.len(),
            out@ == sanitized(chars@).take(i as int),
        decreases chars.len() - i,
    {
        let c = chars[i];
        out.push(if control_char(c) { ' ' } else { c });
        assert(out@ =~= sanitized(chars@).take(i + 1));
        i += 1;
    }
    assert(out@ =~= sanitized(chars@));
    string_of(&out)
}

/// A sanitized text holds no control character.
pub proof fn lemma_sanitized_has_no_control(s: Seq<char>)
    ensures
        sanitized(s).len() == s.len(),
        forall|i: int| 0 <= i < s.len() ==> !is_control(#[trigger] sanitized(s)[i]),
{
}


/// What is left of a history of request times once the leading requests
/// older than `cutoff` are dropped.
pub open spec fn drop_stale(history: Seq<u64>, cutoff: u64) -> Seq<u64>
    decreases history.len(),
{
    if history.len() > 0 && history[0] < cutoff {
        drop_stale(history.drop_first(), cutoff)
    } else {
        history
    }
}

/// The start of the window that ends at `now_ms`.
pub open spec fn window_start(now_ms: u64, window_ms: u64) -> u64 {
    if now_ms >= window_ms {
        (now_ms - window_ms) as u64
    } else {
        0
    }
}

/// The requests recorded under `key`.
pub open spec fn history_of(history: Map<Seq<char>, Seq<u64>>, key: Seq<char>) -> Seq<u64> {
    if history.contains_key(key) {
        history[key]
    } else {
        Seq::empty()
    }
}

/// The message of a refused request.
pub open spec fn rate_limit_message(key: Seq<char>, max_requests: nat, window_ms: nat) -> Seq<
    char,
> {
    "Trop de requêtes '"@ + key + "': max "@ + decimal(max_requests) + " par "@ + decimal(
        window_ms,
    ) + " ms"@
}

/// A sliding-window limiter of client operations: under each key, at most
/// `max_requests` requests within any window of `window_ms` milliseconds.
pub struct ClientRateLimiter {
    requests: StringHashMap<VecDeque<u64>>,
    max_requests: usize,
    window_ms: u64,
}

impl ClientRateLimiter {
    /// The times, in milliseconds, of the requests remembered under each key.
    pub closed spec fn history(&self) -> Map<Seq<char>, Seq<u64>> {
        Map::new(
            |k: Seq<char>| self.requests@.contains_key(k),
            |k: Seq<char>| self.requests@[k]@,
        )
    }

    /// Requests allowed under one key within one window.
    pub closed spec fn max_requests(&self) -> usize {
        self.max_requests
    }

    /// The length of the window, in milliseconds.
    pub closed spec fn window_ms(&self) -> u64 {
        self.window_ms
    }

    /// What a request under `key` at `now_ms` leaves behind and answers:
    /// the key's stale requests are forgotten; where `max_requests` remain
    /// the request is refused, else it is recorded.
    pub open spec fn after_request(
        &self,
        key: Seq<char>,
        now_ms: u64,
        next: Self,
        outcome: Result<()>,
    ) -> bool {
        let kept = drop_stale(
            history_of(self.history(), key),
            window_start(now_ms, self.window_ms()),
        );
        &&& next.max_requests() == self.max_requests()
        &&& next.window_ms() == self.window_ms()
        &&& if kept.len() >= self.max_requests() {
            &&& next.history() == self.history().insert(key, kept)
            &&& outcome matches Err(e) && e@ == plain(
                ErrorKind::RateLimit,
                rate_limit_message(key, self.max_requests() as nat, self.window_ms() as nat),
            )
        } else {
            &&& next.history() == self.history().insert(key, kept.push(now_ms))
            &&& outcome is Ok
        }
    }

    /// A limiter that remembers nothing yet.
    pub fn new(max_requests: usize, window: Duration) -> (limiter: Self)
        ensures
            limiter.history() == Map::<Seq<char>, Seq<u64>>::empty(),
            limiter.max_requests() == max_requests,
            limiter.window_ms() == millis_u64(window),
    {
        let limiter = ClientRateLimiter {
            requests: StringHashMap::new(),
            max_requests,
            window_ms: whole_millis(&window),
        };
        assert(limiter.history() =~= Map::<Seq<char>, Seq<u64>>::empty());
        limiter
    }

    /// Asks whether a request under `key` may go ahead now, and records it
    /// if so. The time is read from the clock: the outcome is that of
    /// `check_at` for some time.
    pub fn check(&mut self, key: &str) -> (r: Result<()>)
        ensures
            exists|now_ms: u64| old(self).after_request(key@, now_ms, *final(self), r),
    {
        let now_ms = unix_millis();
        let r = self.check_at(key, now_ms);
        assert(old(self).after_request(key@, now_ms, *self, r));
        r
    }

    /// Asks whether a request under `key` may go ahead at the time `now_ms`,
    /// and records it if so.
    pub fn check_at(&mut self, key: &str, now_ms: u64) -> (r: Result<()>)
        ensures
            old(self).after_request(key@, now_ms, *final(self), r),
    {
        let cutoff: u64 = if now_ms >= self.window_ms {
            now_ms - self.window_ms
        } else {
            0
        };
        let ghost before = self.history();
        let mut kept: VecDeque<u64> = match self.requests.get(key) {
            Some(times) => times.clone(),
            None => VecDeque::new(),
        };
        assert(kept@ =~= history_of(before, key@));
        prune(&mut kept, cutoff);
        if kept.len() >= self.max_requests {
            self.requests.insert(String::from_str(key), kept);
            assert(self.history() =~= before.insert(key@, kept@));
            let mut message = String::from_str("Trop de requêtes '");
            message.append(key);
            message.append("': max ");
            message.append(decimal_string(self.max_requests as u64).as_str());
            message.append(" par ");
            message.append(decimal_string(self.window_ms).as_str());
            message.append(" ms");
            return Err(GhostHandError::RateLimit(message));
        }
        kept.push_back(now_ms);
        self.requests.insert(String::from_str(key), kept);
        assert(self.history() =~= before.insert(key@, kept@));
        Ok(())
    }

    /// Forgets the requests recorded under `key`.
    pub fn reset(&mut self, key: &str) -> (r: Result<()>)
        ensures
            r is Ok,
            final(self).history() == old(self).history().remove(key@),
            final(self).max_requests() == old(self).max_requests(),
            final(self).window_ms() == old(self).window_ms(),
    {
        self.requests.remove(key);
        assert(self.history() =~= old(self).history().remove(key@));
        Ok(())
    }
}

/// Forgets the requests at the front of the history that are older than
/// `cutoff`.
fn prune(times: &mut VecDeque<u64>, cutoff: u64)
    ensures
        final(times)@ == drop_stale(old(times)@, cutoff),
{
    while times.len() > 0 && times[0] < cutoff
        invariant
            drop_stale(times@, cutoff) == drop_stale(old(times)@, cutoff),
        decreases times.len(),
    {
        let ghost stale = times@;
        let _ = times.pop_front();
        assert(times@ =~= stale.drop_first());
    }
}

/// A limiter never remembers more than `max_requests` requests under a key
/// that it has just answered, unless it remembered more before.
pub proof fn lemma_request_bounded(
    limiter: ClientRateLimiter,
    key: Seq<char>,
    now_ms: u64,
    next: ClientRateLimiter,
    outcome: Result<()>,
)
    requires
        limiter.after_request(key, now_ms, next, outcome),
        history_of(limiter.history(), key).len() <= limiter.max_requests(),
    ensures
        history_of(next.history(), key).len() <= limiter.max_requests(),
        outcome is Err <==> drop_stale(
            history_of(limiter.history(), key),
            window_start(now_ms, limiter.window_ms()),
        ).len() >= limiter.max_requests(),
{
    lemma_drop_stale_shorter(
        history_of(limiter.history(), key),
        window_start(now_ms, limiter.window_ms()),
    );
}

/// Dropping stale requests never lengthens a history.
pub proof fn lemma_drop_stale_shorter(history: Seq<u64>, cutoff: u64)
    ensures
        drop_stale(history, cutoff).len() <= history.len(),
    decreases history.len(),
{
    if history.len() > 0 && history[0] < cutoff {
        lemma_drop_stale_shorter(history.drop_first(), cutoff);
    }
}

} // verus!
