//! Decoder for one legacy session record: picks the session identifier from
//! the key slots, decodes the JSON-string payload and validates both.
use vstd::prelude::*;
use vstd::string::StringExecFns;

use crate::meta;

verus! {

#[verifier::external_type_specification]
#[verifier::external_body]
pub struct ExJsonError(serde_json::Error);

/// The string that a JSON text denotes when the text is a single JSON string
/// literal, surrounded by whitespace at most, that serde_json accepts; `None`
/// when it is anything else, not JSON at all, or a string holding a lone
/// surrogate escape such as `\ud800`, which serde_json rejects.
pub uninterp spec fn json_string_value(text: Seq<char>) -> Option<Seq<char>>;

/// Relies on `serde_json::from_str::<String>`: it succeeds exactly when the text
/// is one JSON string, and its result depends on the text alone.
#[verifier::external_body]
fn parse_json_string(text: &str) -> (r: Result<String, serde_json::Error>)
    ensures
        match r {
            Ok(v) => json_string_value(text@) == Some(v@),
            Err(_) => json_string_value(text@) is None,
        },
{
    serde_json::from_str::<String>(text)
}

/// Relies on the `Display` impl of `serde_json::Error` for a readable message.
#[verifier::external_body]
fn json_error_text(e: &serde_json::Error) -> (r: String) {
    e.to_string()
}

/// Why a record was dropped without failing the migration.
#[derive(Clone, Copy, Debug, PartialEq, Eq, Structural)]
pub enum SkipReason {
    /// The record belongs to another category of the store.
    OtherCategory,
    /// Both key slots are empty.
    EmptySessionId,
    /// The payload decoded to the empty string.
    EmptyAccessToken,
}

/// Mathematical form of a [`RecordOutcome`].
pub enum OutcomeModel {
    Session { session_id: Seq<char>, access_token: Seq<char> },
    Skipped(SkipReason),
    Fatal { record_id: i64 },
}

/// What the decoder makes of one legacy record.
#[derive(Clone, Debug, PartialEq, Eq)]
pub enum RecordOutcome {
    /// A valid `(session_id, access_token)` pair.
    Session { session_id: String, access_token: String },
    /// A malformed record that is dropped with a warning.
    Skipped(SkipReason),
    /// The payload is not a JSON string: the whole migration must fail.
    Fatal { record_id: i64, detail: String },
}

impl View for RecordOutcome {
    type V = OutcomeModel;

    open spec fn view(&self) -> OutcomeModel {
        match self {
            RecordOutcome::Session { session_id, access_token } => OutcomeModel::Session {
                session_id: session_id@,
                access_token: access_token@,
            },
            RecordOutcome::Skipped(reason) => OutcomeModel::Skipped(*reason),
            RecordOutcome::Fatal { record_id, .. } => OutcomeModel::Fatal { record_id: *record_id },
        }
    }
}

/// The identifier of a legacy record: the secondary key slot, or the primary
/// one when the secondary is empty.
pub open spec fn session_id_of(key1: Seq<char>, key2: Seq<char>) -> Seq<char> {
    if key2.len() == 0 {
        key1
    } else {
        key2
    }
}

/// The outcome for a record with identifier `session_id`, given what its
/// payload decoded to (`None`: not a JSON string).
pub open spec fn outcome_of(
    session_id: Seq<char>,
    record_id: i64,
    decoded: Option<Seq<char>>,
) -> OutcomeModel {
    if session_id.len() == 0 {
        OutcomeModel::Skipped(SkipReason::EmptySessionId)
    } else {
        match decoded {
            None => OutcomeModel::Fatal { record_id },
            Some(token) => if token.len() == 0 {
                OutcomeModel::Skipped(SkipReason::EmptyAccessToken)
            } else {
                OutcomeModel::Session { session_id, access_token: token }
            },
        }
    }
}

/// The outcome for a legacy record, its payload decoded as JSON. Records
/// outside the sessions category are skipped unread.
pub open spec fn record_outcome(rec: meta::Model) -> OutcomeModel {
    if rec.module@ != meta::SESSIONS_CATEGORY@ {
        OutcomeModel::Skipped(SkipReason::OtherCategory)
    } else {
        outcome_of(session_id_of(rec.key1@, rec.key2@), rec.id, json_string_value(rec.value@))
    }
}

/// Picks the session identifier of a legacy record: `key2`, falling back to
/// `key1` when `key2` is empty.
pub fn select_session_id(key1: &String, key2: &String) -> (r: String)
    ensures
        r@ == session_id_of(key1@, key2@),
        key2@.len() > 0 ==> r@ == key2@,
        key2@.len() == 0 ==> r@ == key1@,
{
    if key2.as_str().is_empty() {
        key1.clone()
    } else {
        key2.clone()
    }
}

/// Decides the outcome of a record from its identifier and what its payload
/// decoded to: `Ok` with the decoded string, or `Err` with the decoder's
/// message.
pub fn classify_record(session_id: String, record_id: i64, decoded: Result<String, String>) -> (r:
    RecordOutcome)
    ensures
        r@ == outcome_of(
            session_id@,
            record_id,
            match decoded {
                Ok(v) => Some(v@),
                Err(_) => None,
            },
        ),
        r is Fatal ==> decoded is Err && r->Fatal_detail == decoded->Err_0,
{
    if session_id.as_str().is_empty() {
        return RecordOutcome::Skipped(SkipReason::EmptySessionId);
    }
    match decoded {
        Err(detail) => RecordOutcome::Fatal { record_id, detail },
        Ok(token) => {
            if token.as_str().is_empty() {
                RecordOutcome::Skipped(SkipReason::EmptyAccessToken)
            } else {
                RecordOutcome::Session { session_id, access_token: token }
            }
        },
    }
}

/// Runs the decoder on one legacy record. The payload is decoded only when the
/// record is of the sessions category and has an identifier, so any other
/// record is skipped whatever its payload holds.
pub fn decode_record(rec: &meta::Model) -> (r: RecordOutcome)
    ensures
        r@ == record_outcome(*rec),
{
    let category = String::from_str(meta::SESSIONS_CATEGORY);
    if rec.module != category {
        return RecordOutcome::Skipped(SkipReason::OtherCategory);
    }
    let session_id = select_session_id(&rec.key1, &rec.key2);
    if session_id.as_str().is_empty() {
        return RecordOutcome::Skipped(SkipReason::EmptySessionId);
    }
    let decoded = match parse_json_string(rec.value.as_str()) {
        Ok(token) => Ok(token),
        Err(e) => Err(json_error_text(&e)),
    };
    classify_record(session_id, rec.id, decoded)
}

/// A record of another category never yields a session.
pub proof fn lemma_other_category_skipped(rec: meta::Model)
    requires
        rec.module@ != meta::SESSIONS_CATEGORY@,
    ensures
        record_outcome(rec) == OutcomeModel::Skipped(SkipReason::OtherCategory),
{
}

/// A record that yields a session takes its identifier from `key2` when that
/// slot is set, and from `key1` otherwise.
pub proof fn lemma_session_id_source(rec: meta::Model)
    requires
        record_outcome(rec) is Session,
    ensures
        rec.key2@.len() > 0 ==> record_outcome(rec)->Session_session_id == rec.key2@,
        rec.key2@.len() == 0 ==> record_outcome(rec)->Session_session_id == rec.key1@,
        record_outcome(rec)->Session_session_id.len() > 0,
{
}

/// A record with both key slots empty is skipped, whatever its payload holds.
pub proof fn lemma_blank_keys_skipped(rec: meta::Model)
    requires
        rec.key1@.len() == 0,
        rec.key2@.len() == 0,
    ensures
        record_outcome(rec) is Skipped,
        rec.module@ == meta::SESSIONS_CATEGORY@ ==> record_outcome(rec) == OutcomeModel::Skipped(
            SkipReason::EmptySessionId,
        ),
{
}

} // verus!
