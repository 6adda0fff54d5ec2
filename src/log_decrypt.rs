//! The decryption pipeline of a poll: unwrap the per-poll AES key with the
//! session's RSA key, then decrypt each payload with AES-CFB and turn its text
//! into a log entry, in payload order.

use vstd::prelude::*;
use vstd::utf8::{decode_utf8, valid_utf8};

use crate::aes_cfb::{cfb_plain, AesKeySize, AesSettings, RustCryptoAesCfbDecryptor};
use crate::encoding::{base64_bytes, base64_decode};
use crate::interaction_log::{log_entry_of, LogEntry, LogEntryView};
use crate::pkey::PrivateKey;
use crate::server_comm::PollError;

verus! {

/// The text that `String::from_utf8_lossy` makes of some bytes.
pub uninterp spec fn utf8_lossy_text(bytes: Seq<u8>) -> Seq<char>;

/// Relies on `String::from_utf8_lossy`: the bytes read as UTF-8, with each
/// invalid sequence replaced by U+FFFD; valid UTF-8 is decoded unchanged.
#[verifier::external_body]
fn utf8_lossy(bytes: &[u8]) -> (r: String)
    ensures
        r@ == utf8_lossy_text(bytes@),
        valid_utf8(bytes@) ==> r@ == decode_utf8(bytes@),
{
    String::from_utf8_lossy(bytes).into_owned()
}

/// The body of a successful poll: the wrapped AES key and the payloads, both
/// base64.
#[derive(Debug, Clone, PartialEq, Eq)]
pub struct PollResponse {
    pub aes_key: String,
    pub data_list: Option<Vec<String>>,
}

/// Whether a poll brought no payloads: the list is absent or empty.
pub open spec fn has_no_data(response: PollResponse) -> bool {
    match response.data_list {
        None => true,
        Some(d) => d@.len() == 0,
    }
}

pub open spec fn entries_view(v: Seq<LogEntry>) -> Seq<LogEntryView> {
    v.map_values(|e: LogEntry| e@)
}

/// The entry for one payload under an unwrapped AES key: base64 decoding,
/// AES-CFB with the variant that the key's length selects, lossy UTF-8, then
/// the log entry.
pub open spec fn payload_entry(key: Seq<u8>, payload: Seq<char>, parse_logs: bool) -> Result<LogEntryView, PollError> {
    match base64_bytes(payload) {
        None => Err(PollError::DataBase64DecodeFailed),
        Some(bytes) => match AesKeySize::spec_for_key_len(key.len()) {
            None => Err(PollError::DataDecryptFailed),
            Some(size) => match cfb_plain(size, key, bytes) {
                None => Err(PollError::DataDecryptFailed),
                Some(plain) => Ok(log_entry_of(utf8_lossy_text(plain), parse_logs)),
            },
        },
    }
}

/// The entries for a list of payloads, or the error of the first payload that
/// fails.
pub open spec fn payload_entries(key: Seq<u8>, payloads: Seq<Seq<char>>, parse_logs: bool) -> Result<Seq<LogEntryView>, PollError>
    decreases payloads.len(),
{
    if payloads.len() == 0 {
        Ok(Seq::empty())
    } else {
        match payload_entries(key, payloads.drop_last(), parse_logs) {
            Err(e) => Err(e),
            Ok(prefix) => match payload_entry(key, payloads.last(), parse_logs) {
                Err(e) => Err(e),
                Ok(x) => Ok(prefix.push(x)),
            },
        }
    }
}

proof fn lemma_payload_error_persists(key: Seq<u8>, payloads: Seq<Seq<char>>, parse_logs: bool, k: int, e: PollError)
    requires
        0 <= k <= payloads.len(),
        payload_entries(key, payloads.take(k), parse_logs) == Err::<Seq<LogEntryView>, _>(e),
    ensures
        payload_entries(key, payloads, parse_logs) == Err::<Seq<LogEntryView>, _>(e),
    decreases payloads.len() - k,
{
    if k < payloads.len() {
        assert(payloads.take(k + 1).drop_last() =~= payloads.take(k));
        lemma_payload_error_persists(key, payloads, parse_logs, k + 1, e);
    } else {
        assert(payloads.take(k) =~= payloads);
    }
}

/// Decrypts one payload under an unwrapped AES key.
pub fn decrypt_payload(aes_key: &[u8], payload: &str, parse_logs: bool) -> (r: Result<LogEntry, PollError>)
    ensures
        match r {
            Ok(e) => payload_entry(aes_key@, payload@, parse_logs) == Ok::<_, PollError>(e@),
            Err(e) => payload_entry(aes_key@, payload@, parse_logs) == Err::<LogEntryView, _>(e),
        },
{
    let bytes = match base64_decode(payload) {
        Ok(b) => b,
        Err(_) => return Err(PollError::DataBase64DecodeFailed),
    };
    let size = match AesKeySize::for_key_len(aes_key.len()) {
        Some(s) => s,
        None => return Err(PollError::DataDecryptFailed),
    };
    let decryptor = match RustCryptoAesCfbDecryptor::new_with_settings(AesSettings { key_size: size }) {
        Ok(d) => d,
        Err(_) => return Err(PollError::DataDecryptFailed),
    };
    let plain = match decryptor.decrypt_data(aes_key, bytes.as_slice()) {
        Ok(p) => p,
        Err(_) => return Err(PollError::DataDecryptFailed),
    };
    let text = utf8_lossy(plain.as_slice());
    Ok(LogEntry::new_log_entry(text.as_str(), parse_logs))
}

/// Decrypts the payloads of a poll, in order, under an unwrapped AES key;
/// the first payload that fails decides the error.
pub fn decrypt_payloads(aes_key: &[u8], payloads: &Vec<String>, parse_logs: bool) -> (r: Result<Vec<LogEntry>, PollError>)
    ensures
        match r {
            Ok(v) => payload_entries(aes_key@, payloads.deep_view(), parse_logs) == Ok::<_, PollError>(
                entries_view(v@),
            ),
            Err(e) => payload_entries(aes_key@, payloads.deep_view(), parse_logs) == Err::<
                Seq<LogEntryView>,
                _,
            >(e),
        },
{
    let ghost ps = payloads.deep_view();
    let mut out: Vec<LogEntry> = Vec::new();
    let mut i: usize = 0;
    assert(ps.take(0) =~= Seq::<Seq<char>>::empty());
    assert(entries_view(out@) =~= Seq::<LogEntryView>::empty());
    while i < payloads.len()
        invariant
            i <= payloads.len() == ps.len(),
            ps == payloads.deep_view(),
            payload_entries(aes_key@, ps.take(i as int), parse_logs) == Ok::<_, PollError>(
                entries_view(out@),
            ),
        decreases payloads.len() - i,
    {
        assert(ps.take(i + 1).drop_last() =~= ps.take(i as int));
        assert(ps.take(i + 1).last() == payloads@[i as int]@);
        match decrypt_payload(aes_key, payloads[i].as_str(), parse_logs) {
            Ok(entry) => {
                let ghost before = out@;
                out.push(entry);
                assert(entries_view(out@) =~= entries_view(before).push(entry@));
            },
            Err(e) => {
                proof {
                    lemma_payload_error_persists(aes_key@, ps, parse_logs, i + 1, e);
                }
                return Err(e);
            },
        }
        i = i + 1;
    }
    assert(ps.take(i as int) =~= ps);
    Ok(out)
}

/// The outcome of a poll's decryption once the AES key is unwrapped.
pub open spec fn decrypted_outcome(key: Seq<u8>, payloads: Seq<Seq<char>>, parse_logs: bool) -> Result<Option<Seq<LogEntryView>>, PollError> {
    match payload_entries(key, payloads, parse_logs) {
        Ok(v) => Ok(Some(v)),
        Err(e) => Err(e),
    }
}

pub open spec fn outcome_view(r: Result<Option<Vec<LogEntry>>, PollError>) -> Result<Option<Seq<LogEntryView>>, PollError> {
    match r {
        Ok(Some(v)) => Ok(Some(entries_view(v@))),
        Ok(None) => Ok(None),
        Err(e) => Err(e),
    }
}

/// Decrypts a poll's result. No payloads gives `Ok(None)` without touching
/// the key; a wrapped key that is not base64 gives `AesBase64DecodeFailed`;
/// one that the RSA key cannot unwrap gives `AesKeyDecryptFailed`; otherwise
/// the payloads are decrypted under the unwrapped key.
pub fn decrypt_logs<K: PrivateKey>(response: PollResponse, rsa_key: &K, parse_logs: bool) -> (r: Result<Option<Vec<LogEntry>>, PollError>)
    ensures
        has_no_data(response) ==> r == Ok::<Option<Vec<LogEntry>>, PollError>(None),
        !has_no_data(response) && base64_bytes(response.aes_key@) is None ==> r == Err::<
            Option<Vec<LogEntry>>,
            _,
        >(PollError::AesBase64DecodeFailed),
        !has_no_data(response) && base64_bytes(response.aes_key@) is Some ==> (r == Err::<
            Option<Vec<LogEntry>>,
            _,
        >(PollError::AesKeyDecryptFailed) || exists|key: Seq<u8>|
            outcome_view(r) == decrypted_outcome(
                key,
                response.data_list->0.deep_view(),
                parse_logs,
            )),
{
    let payloads = match response.data_list {
        Some(data) => {
            if data.len() == 0 {
                return Ok(None);
            }
            data
        },
        None => return Ok(None),
    };
    let wrapped = match base64_decode(response.aes_key.as_str()) {
        Ok(b) => b,
        Err(_) => return Err(PollError::AesBase64DecodeFailed),
    };
    let aes_key = match rsa_key.decrypt_data(wrapped.as_slice()) {
        Ok(k) => k,
        Err(_) => return Err(PollError::AesKeyDecryptFailed),
    };
    let r = match decrypt_payloads(aes_key.as_slice(), &payloads, parse_logs) {
        Ok(v) => Ok(Some(v)),
        Err(e) => Err(e),
    };
    assert(outcome_view(r) == decrypted_outcome(aes_key@, payloads.deep_view(), parse_logs));
    r
}

/// A payload fails only where its base64 or its decryption fails; whatever
/// text it decrypts to yields an entry.
pub proof fn lemma_payload_errors_come_from_decoding(key: Seq<u8>, payload: Seq<char>, parse_logs: bool)
    ensures
        payload_entry(key, payload, parse_logs) is Err <==> (base64_bytes(payload) is None
            || AesKeySize::spec_for_key_len(key.len()) is None || cfb_plain(
            AesKeySize::spec_for_key_len(key.len())->0,
            key,
            base64_bytes(payload)->0,
        ) is None),
        payload_entry(key, payload, parse_logs) matches Err(e) ==> (e == PollError::DataBase64DecodeFailed
            || e == PollError::DataDecryptFailed),
{
}

} // verus!
